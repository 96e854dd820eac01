//! The URL request client: a callback interface that the host implements and the
//! engine calls while a URL request runs.
//!
//! [`UrlRequestClient::new`] wraps an implementation of
//! [`UrlRequestClientCallbacks`] behind a [`UrlRequestClientVtable`]. Each
//! `c_*` function of [`UrlRequestClientWrapper`] is the trampoline of one vtable
//! slot: it recovers the implementation from the vtable's address, converts the
//! native arguments, calls the method, and converts the result back. A trampoline
//! called on a freed object, or with a null object argument, calls nothing and
//! returns the safe default.
use crate::refcount::{Handle, ObjectStore};
use crate::string::{decode, RawString};
use crate::utf16::decode_utf16_lossy;
use crate::wrapped::{slot, slot_of, Wrapped};
use vstd::prelude::*;

verus! {

/// Flags that represent URL request status.
#[derive(Debug, PartialEq, Eq, Structural, Clone, Copy)]
pub enum UrlRequestStatus {
    /// Unknown status.
    Unknown,
    /// Request succeeded.
    Success,
    /// An IO request is pending, and the caller will be informed when it is
    /// completed.
    IoPending,
    /// Request was canceled programatically.
    Canceled,
    /// Request failed for some reason.
    Failed,
}

impl UrlRequestStatus {
    /// The engine's discriminant for each status.
    pub open spec fn raw_of(self) -> u32 {
        match self {
            UrlRequestStatus::Unknown => 0,
            UrlRequestStatus::Success => 1,
            UrlRequestStatus::IoPending => 2,
            UrlRequestStatus::Canceled => 3,
            UrlRequestStatus::Failed => 4,
        }
    }

    /// The engine's discriminant of this status.
    pub fn to_raw(self) -> (r: u32)
        ensures
            r == self.raw_of(),
    {
        match self {
            UrlRequestStatus::Unknown => 0,
            UrlRequestStatus::Success => 1,
            UrlRequestStatus::IoPending => 2,
            UrlRequestStatus::Canceled => 3,
            UrlRequestStatus::Failed => 4,
        }
    }

    /// The status with discriminant `raw`, if there is one.
    pub open spec fn from_raw_spec(raw: u32) -> Option<Self> {
        match raw {
            0 => Some(UrlRequestStatus::Unknown),
            1 => Some(UrlRequestStatus::Success),
            2 => Some(UrlRequestStatus::IoPending),
            3 => Some(UrlRequestStatus::Canceled),
            4 => Some(UrlRequestStatus::Failed),
            _ => None,
        }
    }

    /// The status with discriminant `raw`, if there is one.
    pub fn from_raw(raw: u32) -> (r: Option<Self>)
        ensures
            r == Self::from_raw_spec(raw),
    {
        match raw {
            0 => Some(UrlRequestStatus::Unknown),
            1 => Some(UrlRequestStatus::Success),
            2 => Some(UrlRequestStatus::IoPending),
            3 => Some(UrlRequestStatus::Canceled),
            4 => Some(UrlRequestStatus::Failed),
            _ => None,
        }
    }
}

/// The engine's URL request object, which the host only references.
pub struct CefUrlRequest;

/// The engine's object through which a client supplies credentials later.
pub struct CefAuthCallback;

/// A URL request.
pub type UrlRequest = Handle<CefUrlRequest>;

/// Continues or cancels an authentication request.
pub type AuthCallback = Handle<CefAuthCallback>;

/// The methods of the URL request client interface, in vtable order.
#[derive(Debug, PartialEq, Eq, Structural, Clone, Copy)]
pub enum UrlRequestClientMethod {
    OnRequestComplete,
    OnUploadProgress,
    OnDownloadProgress,
    OnDownloadData,
    GetAuthCredentials,
}

/// Structure that should be implemented by the URL request client. The functions
/// of this structure will be called on the same thread that created the request
/// unless otherwise documented.
pub trait UrlRequestClientCallbacks: Send + Sync {
    /// Whether this implementation overrides `method`.
    spec fn overridden(&self, method: UrlRequestClientMethod) -> bool;

    /// Whether this implementation overrides `method`. An implementation answers
    /// true exactly for the methods it overrides; the vtable slot of any other
    /// method stays empty, and the engine then uses its own default behaviour.
    fn overrides(&self, method: UrlRequestClientMethod) -> (r: bool)
        ensures
            r == self.overridden(method),
    ;

    /// Notifies the client that the request has completed. The request is lent for
    /// the call; the trampoline releases its reference afterwards.
    fn on_request_complete(&self, request: &UrlRequest) {
    }

    /// Notifies the client of upload progress. `current` is the number of bytes sent
    /// so far and `total` the total size of the upload (or -1 for a chunked upload).
    fn on_upload_progress(&self, request: &UrlRequest, current: i64, total: i64) {
    }

    /// Notifies the client of download progress. `current` is the number of bytes
    /// received so far and `total` the expected size of the response (or -1 if not
    /// determined).
    fn on_download_progress(&self, request: &UrlRequest, current: i64, total: i64) {
    }

    /// Called when some part of the response is read; `data` holds the bytes
    /// received since the last call.
    fn on_download_data(&self, request: &UrlRequest, data: &[u8]) {
    }

    /// Called when the browser needs credentials from the user. `is_proxy` tells
    /// whether the host is a proxy server. Return true to continue the request and
    /// call the callback when the credentials are available; false cancels it. The
    /// callback's reference is handed over to the implementation.
    fn get_auth_credentials(
        &self,
        is_proxy: bool,
        host: &str,
        port: u16,
        realm: &str,
        scheme: &str,
        callback: AuthCallback,
    ) -> bool {
        false
    }
}

/// The URL request client vtable. A slot holds the method whose trampoline it
/// points to, or nothing, which tells the engine to use its default.
#[derive(Debug, PartialEq, Eq, Structural, Clone, Copy)]
pub struct UrlRequestClientVtable {
    pub on_request_complete: Option<UrlRequestClientMethod>,
    pub on_upload_progress: Option<UrlRequestClientMethod>,
    pub on_download_progress: Option<UrlRequestClientMethod>,
    pub on_download_data: Option<UrlRequestClientMethod>,
    pub get_auth_credentials: Option<UrlRequestClientMethod>,
}

impl UrlRequestClientVtable {
    /// The vtable whose slots are set exactly for the methods marked overridden.
    pub open spec fn spec_new(
        on_request_complete: bool,
        on_upload_progress: bool,
        on_download_progress: bool,
        on_download_data: bool,
        get_auth_credentials: bool,
    ) -> Self {
        UrlRequestClientVtable {
            on_request_complete: slot_of(
                on_request_complete,
                UrlRequestClientMethod::OnRequestComplete,
            ),
            on_upload_progress: slot_of(on_upload_progress, UrlRequestClientMethod::OnUploadProgress),
            on_download_progress: slot_of(
                on_download_progress,
                UrlRequestClientMethod::OnDownloadProgress,
            ),
            on_download_data: slot_of(on_download_data, UrlRequestClientMethod::OnDownloadData),
            get_auth_credentials: slot_of(
                get_auth_credentials,
                UrlRequestClientMethod::GetAuthCredentials,
            ),
        }
    }

    /// Builds the vtable whose slots are set exactly for the methods marked
    /// overridden; every other slot is empty.
    pub fn new(
        on_request_complete: bool,
        on_upload_progress: bool,
        on_download_progress: bool,
        on_download_data: bool,
        get_auth_credentials: bool,
    ) -> (r: Self)
        ensures
            r == Self::spec_new(
                on_request_complete,
                on_upload_progress,
                on_download_progress,
                on_download_data,
                get_auth_credentials,
            ),
    {
        UrlRequestClientVtable {
            on_request_complete: slot(
                on_request_complete,
                UrlRequestClientMethod::OnRequestComplete,
            ),
            on_upload_progress: slot(on_upload_progress, UrlRequestClientMethod::OnUploadProgress),
            on_download_progress: slot(
                on_download_progress,
                UrlRequestClientMethod::OnDownloadProgress,
            ),
            on_download_data: slot(on_download_data, UrlRequestClientMethod::OnDownloadData),
            get_auth_credentials: slot(
                get_auth_credentials,
                UrlRequestClientMethod::GetAuthCredentials,
            ),
        }
    }
}

/// The arguments of an authentication request, converted from their native form.
pub struct AuthRequest {
    pub is_proxy: bool,
    pub host: String,
    pub port: u16,
    pub realm: String,
    pub scheme: String,
}

/// Converts the native arguments of an authentication request: an integer
/// boolean, the text of three string records, and the port as 16 bits.
pub fn auth_request(
    is_proxy: i32,
    host: &RawString,
    port: i32,
    realm: &RawString,
    scheme: &RawString,
) -> (r: AuthRequest)
    ensures
        r.is_proxy == (is_proxy != 0),
        r.host@ == decode_utf16_lossy(host.units@),
        r.port == port as u16,
        r.realm@ == decode_utf16_lossy(realm.units@),
        r.scheme@ == decode_utf16_lossy(scheme.units@),
{
    AuthRequest {
        is_proxy: is_proxy != 0,
        host: decode(host),
        port: port as u16,
        realm: decode(realm),
        scheme: decode(scheme),
    }
}

/// A boolean as the engine's integer: 1 for true, 0 for false.
pub fn int_of_bool(b: bool) -> (r: i32)
    ensures
        r == if b {
            1i32
        } else {
            0i32
        },
{
    if b {
        1
    } else {
        0
    }
}

/// Forwards engine calls to calls of a URL request client implementation.
pub struct UrlRequestClientWrapper {
    delegate: Box<dyn UrlRequestClientCallbacks>,
    vtable: UrlRequestClientVtable,
}

/// A URL request client as the engine holds it: the vtable and the wrapper behind it.
pub type UrlRequestClientObject = Wrapped<UrlRequestClientVtable, UrlRequestClientWrapper>;

/// A handle to a URL request client.
pub type UrlRequestClient = Handle<UrlRequestClientObject>;

impl UrlRequestClientWrapper {
    /// The vtable that this wrapper is exposed through.
    pub closed spec fn vtable(&self) -> UrlRequestClientVtable {
        self.vtable
    }

    /// Wraps `delegate`, with a vtable slot set for each method that it overrides.
    pub fn new<C: UrlRequestClientCallbacks + 'static>(delegate: C) -> (r: Self)
        ensures
            r.vtable() == UrlRequestClientVtable::spec_new(
                delegate.overridden(UrlRequestClientMethod::OnRequestComplete),
                delegate.overridden(UrlRequestClientMethod::OnUploadProgress),
                delegate.overridden(UrlRequestClientMethod::OnDownloadProgress),
                delegate.overridden(UrlRequestClientMethod::OnDownloadData),
                delegate.overridden(UrlRequestClientMethod::GetAuthCredentials),
            ),
    {
        let vtable = UrlRequestClientVtable::new(
            delegate.overrides(UrlRequestClientMethod::OnRequestComplete),
            delegate.overrides(UrlRequestClientMethod::OnUploadProgress),
            delegate.overrides(UrlRequestClientMethod::OnDownloadProgress),
            delegate.overrides(UrlRequestClientMethod::OnDownloadData),
            delegate.overrides(UrlRequestClientMethod::GetAuthCredentials),
        );
        UrlRequestClientWrapper { delegate: Box::new(delegate), vtable }
    }

    /// Allocates this wrapper behind its vtable, holding one reference.
    pub fn wrap(self, store: &mut ObjectStore<UrlRequestClientObject>) -> (h: UrlRequestClient)
        requires
            old(store).wf(),
            old(store).next_ptr() < usize::MAX,
        ensures
            final(store).wf(),
            ObjectStore::allocated(
                *old(store),
                *final(store),
                h.ptr(),
                (Wrapped { vtable: self.vtable(), wrappable: self }),
            ),
    {
        let vtable = self.vtable;
        Wrapped::wrap(store, vtable, self)
    }

    /// Trampoline of `on_request_complete`. The engine hands over one reference to `request`
    /// with the call; the request is lent to the implementation and that reference
    /// is released afterwards, whether or not the call is made. Returns whether the
    /// call reached the implementation, which it does exactly when `this` is live and
    /// `request` is a live request.
    pub fn c_on_request_complete(
        store: &ObjectStore<UrlRequestClientObject>,
        requests: &mut ObjectStore<CefUrlRequest>,
        this: usize,
        request: usize,
    ) -> (called: bool)
        requires
            old(requests).wf(),
        ensures
            final(requests).wf(),
            called == (store.is_live(this) && old(requests).is_live(request)),
            old(requests).is_live(request) ==> ObjectStore::released_ref(
                *old(requests),
                *final(requests),
                request,
                old(requests).count(request) == 1,
            ),
            !old(requests).is_live(request) ==> *final(requests) == *old(requests),
    {
        match UrlRequest::take_over(requests, request) {
            Some(request) => {
                let called = match Wrapped::recover(store, this) {
                    Some(this) => {
                        this.delegate.on_request_complete(&request);
                        true
                    },
                    None => false,
                };
                request.release(requests);
                called
            },
            None => false,
        }
    }

    /// Trampoline of `on_upload_progress`. The engine hands over one reference to `request`
    /// with the call; the request is lent to the implementation and that reference
    /// is released afterwards, whether or not the call is made. Returns whether the
    /// call reached the implementation, which it does exactly when `this` is live and
    /// `request` is a live request.
    pub fn c_on_upload_progress(
        store: &ObjectStore<UrlRequestClientObject>,
        requests: &mut ObjectStore<CefUrlRequest>,
        this: usize,
        request: usize,
        current: i64,
        total: i64,
    ) -> (called: bool)
        requires
            old(requests).wf(),
        ensures
            final(requests).wf(),
            called == (store.is_live(this) && old(requests).is_live(request)),
            old(requests).is_live(request) ==> ObjectStore::released_ref(
                *old(requests),
                *final(requests),
                request,
                old(requests).count(request) == 1,
            ),
            !old(requests).is_live(request) ==> *final(requests) == *old(requests),
    {
        match UrlRequest::take_over(requests, request) {
            Some(request) => {
                let called = match Wrapped::recover(store, this) {
                    Some(this) => {
                        this.delegate.on_upload_progress(&request, current, total);
                        true
                    },
                    None => false,
                };
                request.release(requests);
                called
            },
            None => false,
        }
    }

    /// Trampoline of `on_download_progress`. The engine hands over one reference to `request`
    /// with the call; the request is lent to the implementation and that reference
    /// is released afterwards, whether or not the call is made. Returns whether the
    /// call reached the implementation, which it does exactly when `this` is live and
    /// `request` is a live request.
    pub fn c_on_download_progress(
        store: &ObjectStore<UrlRequestClientObject>,
        requests: &mut ObjectStore<CefUrlRequest>,
        this: usize,
        request: usize,
        current: i64,
        total: i64,
    ) -> (called: bool)
        requires
            old(requests).wf(),
        ensures
            final(requests).wf(),
            called == (store.is_live(this) && old(requests).is_live(request)),
            old(requests).is_live(request) ==> ObjectStore::released_ref(
                *old(requests),
                *final(requests),
                request,
                old(requests).count(request) == 1,
            ),
            !old(requests).is_live(request) ==> *final(requests) == *old(requests),
    {
        match UrlRequest::take_over(requests, request) {
            Some(request) => {
                let called = match Wrapped::recover(store, this) {
                    Some(this) => {
                        this.delegate.on_download_progress(&request, current, total);
                        true
                    },
                    None => false,
                };
                request.release(requests);
                called
            },
            None => false,
        }
    }

    /// Trampoline of `on_download_data`. The engine hands over one reference to `request`
    /// with the call; the request is lent to the implementation and that reference
    /// is released afterwards, whether or not the call is made. Returns whether the
    /// call reached the implementation, which it does exactly when `this` is live and
    /// `request` is a live request.
    pub fn c_on_download_data(
        store: &ObjectStore<UrlRequestClientObject>,
        requests: &mut ObjectStore<CefUrlRequest>,
        this: usize,
        request: usize,
        data: &[u8],
    ) -> (called: bool)
        requires
            old(requests).wf(),
        ensures
            final(requests).wf(),
            called == (store.is_live(this) && old(requests).is_live(request)),
            old(requests).is_live(request) ==> ObjectStore::released_ref(
                *old(requests),
                *final(requests),
                request,
                old(requests).count(request) == 1,
            ),
            !old(requests).is_live(request) ==> *final(requests) == *old(requests),
    {
        match UrlRequest::take_over(requests, request) {
            Some(request) => {
                let called = match Wrapped::recover(store, this) {
                    Some(this) => {
                        this.delegate.on_download_data(&request, data);
                        true
                    },
                    None => false,
                };
                request.release(requests);
                called
            },
            None => false,
        }
    }

    /// Trampoline of `get_auth_credentials`. The engine hands over one reference to
    /// `callback` with the call. Returns the answer for the engine, and the
    /// implementation's own answer when the call reached it, which it does exactly
    /// when `this` is live and `callback` is a live callback; the callback's reference
    /// then goes to the implementation. The engine's answer is the implementation's
    /// as 1 or 0. Without a call it is 0, which cancels the request, and the
    /// callback's reference is released.
    pub fn c_get_auth_credentials(
        store: &ObjectStore<UrlRequestClientObject>,
        callbacks: &mut ObjectStore<CefAuthCallback>,
        this: usize,
        is_proxy: i32,
        host: &RawString,
        port: i32,
        realm: &RawString,
        scheme: &RawString,
        callback: usize,
    ) -> (r: (i32, Option<bool>))
        requires
            old(callbacks).wf(),
        ensures
            final(callbacks).wf(),
            r.1 is Some <==> (store.is_live(this) && old(callbacks).is_live(callback)),
            r.0 == match r.1 {
                Some(answer) => if answer {
                    1i32
                } else {
                    0i32
                },
                None => 0i32,
            },
            r.1 is None && old(callbacks).is_live(callback) ==> ObjectStore::released_ref(
                *old(callbacks),
                *final(callbacks),
                callback,
                old(callbacks).count(callback) == 1,
            ),
            r.1 is Some || !old(callbacks).is_live(callback) ==> *final(callbacks) == *old(
                callbacks,
            ),
    {
        match AuthCallback::take_over(callbacks, callback) {
            Some(callback) => match Wrapped::recover(store, this) {
                Some(this) => {
                    let args = auth_request(is_proxy, host, port, realm, scheme);
                    let answer = this.delegate.get_auth_credentials(
                        args.is_proxy,
                        args.host.as_str(),
                        args.port,
                        args.realm.as_str(),
                        args.scheme.as_str(),
                        callback,
                    );
                    (int_of_bool(answer), Some(answer))
                },
                None => {
                    callback.release(callbacks);
                    (0, None)
                },
            },
            None => (0, None),
        }
    }
}

impl UrlRequestClient {
    /// Wraps `delegate` as a new URL request client holding one reference.
    pub fn new<C: UrlRequestClientCallbacks + 'static>(
        store: &mut ObjectStore<UrlRequestClientObject>,
        delegate: C,
    ) -> (h: Self)
        requires
            old(store).wf(),
            old(store).next_ptr() < usize::MAX,
        ensures
            final(store).wf(),
            ObjectStore::allocated(
                *old(store),
                *final(store),
                h.ptr(),
                final(store).value(h.ptr()),
            ),
            final(store).value(h.ptr()).vtable == final(store).value(h.ptr()).wrappable.vtable(),
            final(store).value(h.ptr()).vtable == UrlRequestClientVtable::spec_new(
                delegate.overridden(UrlRequestClientMethod::OnRequestComplete),
                delegate.overridden(UrlRequestClientMethod::OnUploadProgress),
                delegate.overridden(UrlRequestClientMethod::OnDownloadProgress),
                delegate.overridden(UrlRequestClientMethod::OnDownloadData),
                delegate.overridden(UrlRequestClientMethod::GetAuthCredentials),
            ),
    {
        UrlRequestClientWrapper::new(delegate).wrap(store)
    }
}

} // verus!
