//! The application interface: the handlers that the host hands the engine at
//! start-up.
//!
//! [`App::new`] wraps an implementation of [`AppCallbacks`] behind an
//! [`AppVtable`]; the `c_*` functions of [`AppWrapper`] are the trampolines of its
//! slots. Handlers that an implementation returns reach the engine as pointers that
//! carry the handler's reference, and "no handler" as the null pointer.
use crate::refcount::{Handle, ObjectStore};
use crate::string::{decode, RawString};
use crate::utf16::decode_utf16_lossy;
use crate::wrapped::{slot, slot_of, Wrapped};
use vstd::prelude::*;

verus! {

/// The engine's command line object.
pub struct CefCommandLine;

/// The engine's registrar of custom schemes.
pub struct CefSchemeRegistrar;

/// The engine's view of a resource bundle handler.
pub struct CefResourceBundleHandler;

/// The engine's view of a browser process handler.
pub struct CefBrowserProcessHandler;

/// The engine's view of a render process handler.
pub struct CefRenderProcessHandler;

pub type CommandLine = Handle<CefCommandLine>;

pub type SchemeRegistrar = Handle<CefSchemeRegistrar>;

pub type ResourceBundleHandler = Handle<CefResourceBundleHandler>;

pub type BrowserProcessHandler = Handle<CefBrowserProcessHandler>;

pub type RenderProcessHandler = Handle<CefRenderProcessHandler>;

/// The methods of the application interface, in vtable order.
#[derive(Debug, PartialEq, Eq, Structural, Clone, Copy)]
pub enum AppMethod {
    OnBeforeCommandLineProcessing,
    OnRegisterCustomSchemes,
    GetResourceBundleHandler,
    GetBrowserProcessHandler,
    GetRenderProcessHandler,
}

/// Implement this to provide application handlers.
pub trait AppCallbacks: Send + Sync {
    /// Whether this implementation overrides `method`.
    spec fn overridden(&self, method: AppMethod) -> bool;

    /// Whether this implementation overrides `method`. An implementation answers
    /// true exactly for the methods it overrides; the vtable slot of any other
    /// method stays empty, and the engine then uses its own default behaviour.
    fn overrides(&self, method: AppMethod) -> (r: bool)
        ensures
            r == self.overridden(method),
    ;

    /// Provides an opportunity to view and/or modify command-line arguments before
    /// the engine processes them. `process_type` is `None` for the browser process.
    /// The command line is lent for the call only.
    fn on_before_command_line_processing(
        &self,
        process_type: Option<&str>,
        command_line: Option<&CommandLine>,
    ) {
    }

    /// Provides an opportunity to register custom schemes. The registrar is lent for
    /// the call only.
    fn on_register_custom_schemes(&self, registrar: &SchemeRegistrar) {
    }

    /// Return the handler for resource bundle events.
    fn get_resource_bundle_handler(&self) -> Option<ResourceBundleHandler> {
        None
    }

    /// Return the handler for functionality specific to the browser process.
    fn get_browser_process_handler(&self) -> Option<BrowserProcessHandler> {
        None
    }

    /// Return the handler for functionality specific to the render process.
    fn get_render_process_handler(&self) -> Option<RenderProcessHandler> {
        None
    }
}

/// The application vtable. A slot holds the method whose trampoline it points to,
/// or nothing, which tells the engine to use its default.
#[derive(Debug, PartialEq, Eq, Structural, Clone, Copy)]
pub struct AppVtable {
    pub on_before_command_line_processing: Option<AppMethod>,
    pub on_register_custom_schemes: Option<AppMethod>,
    pub get_resource_bundle_handler: Option<AppMethod>,
    pub get_browser_process_handler: Option<AppMethod>,
    pub get_render_process_handler: Option<AppMethod>,
}

impl AppVtable {
    /// The vtable whose slots are set exactly for the methods marked overridden.
    pub open spec fn spec_new(
        on_before_command_line_processing: bool,
        on_register_custom_schemes: bool,
        get_resource_bundle_handler: bool,
        get_browser_process_handler: bool,
        get_render_process_handler: bool,
    ) -> Self {
        AppVtable {
            on_before_command_line_processing: slot_of(
                on_before_command_line_processing,
                AppMethod::OnBeforeCommandLineProcessing,
            ),
            on_register_custom_schemes: slot_of(
                on_register_custom_schemes,
                AppMethod::OnRegisterCustomSchemes,
            ),
            get_resource_bundle_handler: slot_of(
                get_resource_bundle_handler,
                AppMethod::GetResourceBundleHandler,
            ),
            get_browser_process_handler: slot_of(
                get_browser_process_handler,
                AppMethod::GetBrowserProcessHandler,
            ),
            get_render_process_handler: slot_of(
                get_render_process_handler,
                AppMethod::GetRenderProcessHandler,
            ),
        }
    }

    /// Builds the vtable whose slots are set exactly for the methods marked
    /// overridden; every other slot is empty.
    pub fn new(
        on_before_command_line_processing: bool,
        on_register_custom_schemes: bool,
        get_resource_bundle_handler: bool,
        get_browser_process_handler: bool,
        get_render_process_handler: bool,
    ) -> (r: Self)
        ensures
            r == Self::spec_new(
                on_before_command_line_processing,
                on_register_custom_schemes,
                get_resource_bundle_handler,
                get_browser_process_handler,
                get_render_process_handler,
            ),
    {
        AppVtable {
            on_before_command_line_processing: slot(
                on_before_command_line_processing,
                AppMethod::OnBeforeCommandLineProcessing,
            ),
            on_register_custom_schemes: slot(
                on_register_custom_schemes,
                AppMethod::OnRegisterCustomSchemes,
            ),
            get_resource_bundle_handler: slot(
                get_resource_bundle_handler,
                AppMethod::GetResourceBundleHandler,
            ),
            get_browser_process_handler: slot(
                get_browser_process_handler,
                AppMethod::GetBrowserProcessHandler,
            ),
            get_render_process_handler: slot(
                get_render_process_handler,
                AppMethod::GetRenderProcessHandler,
            ),
        }
    }
}

/// The text of a string record that may be absent (a null pointer).
pub fn optional_text(s: Option<&RawString>) -> (r: Option<String>)
    ensures
        r is Some <==> s is Some,
        r is Some ==> r->0@ == decode_utf16_lossy(s->0.units@),
{
    match s {
        Some(s) => Some(decode(s)),
        None => None,
    }
}

/// A handler that may be absent, as the pointer that hands its reference to the
/// engine: null for no handler.
pub fn raw_of_optional<T>(handler: Option<Handle<T>>) -> (r: usize)
    ensures
        handler is None ==> r == 0,
        handler is Some ==> r == handler->0.ptr() && r != 0,
{
    match handler {
        Some(handler) => handler.into_raw(),
        None => 0,
    }
}

/// Forwards engine calls to calls of an application implementation.
pub struct AppWrapper {
    delegate: Box<dyn AppCallbacks>,
    vtable: AppVtable,
}

/// An application as the engine holds it: the vtable and the wrapper behind it.
pub type AppObject = Wrapped<AppVtable, AppWrapper>;

/// A handle to an application.
pub type App = Handle<AppObject>;

impl AppWrapper {
    /// The vtable that this wrapper is exposed through.
    pub closed spec fn vtable(&self) -> AppVtable {
        self.vtable
    }

    /// Wraps `delegate`, with a vtable slot set for each method that it overrides.
    pub fn new<C: AppCallbacks + 'static>(delegate: C) -> (r: AppWrapper)
        ensures
            r.vtable() == AppVtable::spec_new(
                delegate.overridden(AppMethod::OnBeforeCommandLineProcessing),
                delegate.overridden(AppMethod::OnRegisterCustomSchemes),
                delegate.overridden(AppMethod::GetResourceBundleHandler),
                delegate.overridden(AppMethod::GetBrowserProcessHandler),
                delegate.overridden(AppMethod::GetRenderProcessHandler),
            ),
    {
        let vtable = AppVtable::new(
            delegate.overrides(AppMethod::OnBeforeCommandLineProcessing),
            delegate.overrides(AppMethod::OnRegisterCustomSchemes),
            delegate.overrides(AppMethod::GetResourceBundleHandler),
            delegate.overrides(AppMethod::GetBrowserProcessHandler),
            delegate.overrides(AppMethod::GetRenderProcessHandler),
        );
        AppWrapper { delegate: Box::new(delegate), vtable }
    }

    /// Allocates this wrapper behind its vtable, holding one reference.
    pub fn wrap(self, store: &mut ObjectStore<AppObject>) -> (h: App)
        requires
            old(store).wf(),
            old(store).next_ptr() < usize::MAX,
        ensures
            final(store).wf(),
            ObjectStore::allocated(
                *old(store),
                *final(store),
                h.ptr(),
                (Wrapped { vtable: self.vtable(), wrappable: self }),
            ),
    {
        let vtable = self.vtable;
        Wrapped::wrap(store, vtable, self)
    }

    /// Trampoline of `on_before_command_line_processing`. A null `process_type`
    /// reaches the implementation as `None`, and so does a `command_line` that is not
    /// a live command line. The engine hands over one reference to the command line
    /// with the call; it is lent to the implementation and released afterwards,
    /// whether or not the call is made. Returns whether the call reached the
    /// implementation, which it does exactly when `this` is live.
    pub fn c_on_before_command_line_processing(
        store: &ObjectStore<AppObject>,
        command_lines: &mut ObjectStore<CefCommandLine>,
        this: usize,
        process_type: Option<&RawString>,
        command_line: usize,
    ) -> (called: bool)
        requires
            old(command_lines).wf(),
        ensures
            final(command_lines).wf(),
            called == store.is_live(this),
            old(command_lines).is_live(command_line) ==> ObjectStore::released_ref(
                *old(command_lines),
                *final(command_lines),
                command_line,
                old(command_lines).count(command_line) == 1,
            ),
            !old(command_lines).is_live(command_line) ==> *final(command_lines) == *old(
                command_lines,
            ),
    {
        let command_line = CommandLine::take_over(command_lines, command_line);
        let called = match Wrapped::recover(store, this) {
            Some(this) => {
                let process_type = optional_text(process_type);
                let process_type = match &process_type {
                    Some(text) => Some(text.as_str()),
                    None => None,
                };
                let lent = match &command_line {
                    Some(command_line) => Some(command_line),
                    None => None,
                };
                this.delegate.on_before_command_line_processing(process_type, lent);
                true
            },
            None => false,
        };
        match command_line {
            Some(command_line) => {
                command_line.release(command_lines);
            },
            None => {},
        }
        called
    }

    /// Trampoline of `on_register_custom_schemes`. The engine hands over one
    /// reference to the registrar with the call; it is lent to the implementation and
    /// released afterwards, whether or not the call is made. Returns whether the call
    /// reached the implementation, which it does exactly when `this` is live and
    /// `registrar` is a live registrar.
    pub fn c_on_register_custom_schemes(
        store: &ObjectStore<AppObject>,
        registrars: &mut ObjectStore<CefSchemeRegistrar>,
        this: usize,
        registrar: usize,
    ) -> (called: bool)
        requires
            old(registrars).wf(),
        ensures
            final(registrars).wf(),
            called == (store.is_live(this) && old(registrars).is_live(registrar)),
            old(registrars).is_live(registrar) ==> ObjectStore::released_ref(
                *old(registrars),
                *final(registrars),
                registrar,
                old(registrars).count(registrar) == 1,
            ),
            !old(registrars).is_live(registrar) ==> *final(registrars) == *old(registrars),
    {
        match SchemeRegistrar::take_over(registrars, registrar) {
            Some(registrar) => {
                let called = match Wrapped::recover(store, this) {
                    Some(this) => {
                        this.delegate.on_register_custom_schemes(&registrar);
                        true
                    },
                    None => false,
                };
                registrar.release(registrars);
                called
            },
            None => false,
        }
    }

    /// Trampoline of `get_resource_bundle_handler`. Returns the pointer for the engine, and whether the
    /// implementation returned a handler, when the call reached it, which it does
    /// exactly when `this` is live. The pointer carries the reference of the
    /// returned handler, and is null when there is no handler or no call.
    pub fn c_get_resource_bundle_handler(store: &ObjectStore<AppObject>, this: usize) -> (r: (
        usize,
        Option<bool>,
    ))
        ensures
            r.1 is Some <==> store.is_live(this),
            r.0 != 0 <==> r.1 == Some(true),
    {
        match Wrapped::recover(store, this) {
            Some(this) => {
                let handler = this.delegate.get_resource_bundle_handler();
                let given = handler.is_some();
                (raw_of_optional(handler), Some(given))
            },
            None => (0, None),
        }
    }

    /// Trampoline of `get_browser_process_handler`. Returns the pointer for the engine, and whether the
    /// implementation returned a handler, when the call reached it, which it does
    /// exactly when `this` is live. The pointer carries the reference of the
    /// returned handler, and is null when there is no handler or no call.
    pub fn c_get_browser_process_handler(store: &ObjectStore<AppObject>, this: usize) -> (r: (
        usize,
        Option<bool>,
    ))
        ensures
            r.1 is Some <==> store.is_live(this),
            r.0 != 0 <==> r.1 == Some(true),
    {
        match Wrapped::recover(store, this) {
            Some(this) => {
                let handler = this.delegate.get_browser_process_handler();
                let given = handler.is_some();
                (raw_of_optional(handler), Some(given))
            },
            None => (0, None),
        }
    }

    /// Trampoline of `get_render_process_handler`. Returns the pointer for the engine, and whether the
    /// implementation returned a handler, when the call reached it, which it does
    /// exactly when `this` is live. The pointer carries the reference of the
    /// returned handler, and is null when there is no handler or no call.
    pub fn c_get_render_process_handler(store: &ObjectStore<AppObject>, this: usize) -> (r: (
        usize,
        Option<bool>,
    ))
        ensures
            r.1 is Some <==> store.is_live(this),
            r.0 != 0 <==> r.1 == Some(true),
    {
        match Wrapped::recover(store, this) {
            Some(this) => {
                let handler = this.delegate.get_render_process_handler();
                let given = handler.is_some();
                (raw_of_optional(handler), Some(given))
            },
            None => (0, None),
        }
    }
}

impl App {
    /// Wraps `delegate` as a new application holding one reference.
    pub fn new<C: AppCallbacks + 'static>(store: &mut ObjectStore<AppObject>, delegate: C) -> (h: Self)
        requires
            old(store).wf(),
            old(store).next_ptr() < usize::MAX,
        ensures
            final(store).wf(),
            ObjectStore::allocated(
                *old(store),
                *final(store),
                h.ptr(),
                final(store).value(h.ptr()),
            ),
            final(store).value(h.ptr()).vtable == final(store).value(h.ptr()).wrappable.vtable(),
            final(store).value(h.ptr()).vtable == AppVtable::spec_new(
                delegate.overridden(AppMethod::OnBeforeCommandLineProcessing),
                delegate.overridden(AppMethod::OnRegisterCustomSchemes),
                delegate.overridden(AppMethod::GetResourceBundleHandler),
                delegate.overridden(AppMethod::GetBrowserProcessHandler),
                delegate.overridden(AppMethod::GetRenderProcessHandler),
            ),
    {
        AppWrapper::new(delegate).wrap(store)
    }
}

} // verus!
