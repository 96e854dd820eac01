//! Safe handles and callback adapters for a reference-counted, vtable-based
//! native object model, with a UTF-16 string bridge.
//!
//! - [`refcount`]: native objects with an intrusive reference count, and the
//!   [`Handle`]s that own one reference each.
//! - [`wrapped`]: objects whose callbacks the host implements, and recovering the
//!   implementation from a vtable's address.
//! - [`string`] and [`utf16`]: the engine's UTF-16 string record.
//! - [`url_request`] and [`app`]: two callback interfaces and their trampolines.
//! - [`types`]: engine enumerations and their discriminants.
//! - [`pump`]: driving the engine's message loop from a host event loop.
pub mod app;
pub mod pump;
pub mod refcount;
pub mod string;
pub mod types;
pub mod url_request;
pub mod utf16;
pub mod wrapped;

pub use app::{App, AppCallbacks, AppMethod, AppVtable, AppWrapper};
pub use pump::{LoopAction, LoopEvent, MessageLoopEvent, MessagePump};
pub use refcount::{Handle, HandleOp, ObjectStore};
pub use string::{decode, free_cef_string, CefString, EncodingError, RawString};
pub use types::{LogItems, LogSeverity};
pub use url_request::{
    AuthCallback, UrlRequest, UrlRequestClient, UrlRequestClientCallbacks, UrlRequestClientMethod,
    UrlRequestClientVtable, UrlRequestClientWrapper, UrlRequestStatus,
};
pub use wrapped::Wrapped;
