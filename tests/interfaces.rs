use cef_wrapper::app::{
    optional_text, raw_of_optional, AppObject, BrowserProcessHandler, CefCommandLine,
    CefSchemeRegistrar, CommandLine, SchemeRegistrar,
};
use cef_wrapper::url_request::{
    auth_request, int_of_bool, CefAuthCallback, CefUrlRequest, UrlRequestClientObject,
};
use cef_wrapper::{
    App, AppCallbacks, AppMethod, AppWrapper, AuthCallback, CefString, ObjectStore, RawString,
    UrlRequest, UrlRequestClient, UrlRequestClientCallbacks, UrlRequestClientMethod,
    UrlRequestClientWrapper, UrlRequestStatus, Wrapped,
};
use std::sync::atomic::{AtomicUsize, Ordering};
use std::sync::{Arc, Mutex};

struct Plain;

impl UrlRequestClientCallbacks for Plain {
    fn overrides(&self, _method: UrlRequestClientMethod) -> bool {
        false
    }

    fn overridden(&self, _method: UrlRequestClientMethod) -> bool {
        false
    }
}

#[derive(Default)]
struct Seen {
    downloads: AtomicUsize,
    bytes: Mutex<Vec<u8>>,
    request: AtomicUsize,
}

struct DownloadOnly {
    seen: Arc<Seen>,
}

impl UrlRequestClientCallbacks for DownloadOnly {
    fn overrides(&self, method: UrlRequestClientMethod) -> bool {
        method == UrlRequestClientMethod::OnDownloadData
    }

    fn overridden(&self, method: UrlRequestClientMethod) -> bool {
        method == UrlRequestClientMethod::OnDownloadData
    }

    fn on_download_data(&self, request: &UrlRequest, data: &[u8]) {
        self.seen.downloads.fetch_add(1, Ordering::SeqCst);
        self.seen.request.store(request.as_ptr(), Ordering::SeqCst);
        self.seen.bytes.lock().unwrap().extend_from_slice(data);
    }
}

struct Authenticator {
    seen: Arc<Mutex<Option<(bool, String, u16, String, String, usize)>>>,
}

impl UrlRequestClientCallbacks for Authenticator {
    fn overrides(&self, method: UrlRequestClientMethod) -> bool {
        method == UrlRequestClientMethod::GetAuthCredentials
    }

    fn overridden(&self, method: UrlRequestClientMethod) -> bool {
        method == UrlRequestClientMethod::GetAuthCredentials
    }

    fn get_auth_credentials(
        &self,
        is_proxy: bool,
        host: &str,
        port: u16,
        realm: &str,
        scheme: &str,
        callback: AuthCallback,
    ) -> bool {
        *self.seen.lock().unwrap() = Some((
            is_proxy,
            host.to_string(),
            port,
            realm.to_string(),
            scheme.to_string(),
            callback.as_ptr(),
        ));
        true
    }
}

fn record(s: &str) -> RawString {
    CefString::new(s).unwrap().into_raw()
}

#[test]
fn default_methods_leave_their_slots_empty() {
    let mut store: ObjectStore<UrlRequestClientObject> = ObjectStore::new();
    let client = UrlRequestClient::new(&mut store, Plain);
    let vtable = Wrapped::vtable_at(&store, client.as_ptr()).unwrap();
    assert!(vtable.on_request_complete.is_none());
    assert!(vtable.on_upload_progress.is_none());
    assert!(vtable.on_download_progress.is_none());
    assert!(vtable.on_download_data.is_none());
    assert!(vtable.get_auth_credentials.is_none());
    assert!(store.has_one_ref(client.as_ptr()));
}

#[test]
fn only_the_overridden_slot_is_set_and_forwards() {
    let seen = Arc::new(Seen::default());
    let mut store: ObjectStore<UrlRequestClientObject> = ObjectStore::new();
    let mut requests: ObjectStore<CefUrlRequest> = ObjectStore::new();
    let client = UrlRequestClientWrapper::new(DownloadOnly { seen: seen.clone() }).wrap(&mut store);
    let this = client.as_ptr();
    let vtable = *Wrapped::vtable_at(&store, this).unwrap();
    assert_eq!(vtable.on_download_data, Some(UrlRequestClientMethod::OnDownloadData));
    assert!(vtable.get_auth_credentials.is_none());
    assert!(vtable.on_upload_progress.is_none());
    assert!(vtable.on_request_complete.is_none());

    let request = requests.allocate(CefUrlRequest);
    let kept = UrlRequest::wrap_new(request).unwrap().clone_in(&mut requests);
    assert_eq!(requests.ref_count(request), 2);
    if vtable.on_download_data.is_some() {
        assert!(UrlRequestClientWrapper::c_on_download_data(&store, &mut requests, this, request, &[1, 2, 3]));
    }
    assert_eq!(seen.downloads.load(Ordering::SeqCst), 1);
    assert_eq!(seen.request.load(Ordering::SeqCst), request);
    assert_eq!(*seen.bytes.lock().unwrap(), vec![1, 2, 3]);
    assert_eq!(requests.ref_count(request), 1);

    let mut used_default = false;
    if vtable.on_upload_progress.is_none() {
        used_default = true;
    }
    assert!(used_default);
    assert_eq!(seen.downloads.load(Ordering::SeqCst), 1);

    // Calling the default method's trampoline anyway runs the no-op default and
    // still releases the request's reference exactly once.
    let again = kept.clone_in(&mut requests);
    let _ = again.into_raw();
    assert!(UrlRequestClientWrapper::c_on_upload_progress(&store, &mut requests, this, request, 1, 2));
    assert_eq!(requests.ref_count(request), 1);
    assert!(kept.release(&mut requests));
    assert!(!requests.contains(request));
}

#[test]
fn trampolines_on_null_or_freed_objects_return_the_safe_default() {
    let seen = Arc::new(Seen::default());
    let mut store: ObjectStore<UrlRequestClientObject> = ObjectStore::new();
    let mut requests: ObjectStore<CefUrlRequest> = ObjectStore::new();
    let client = UrlRequestClient::new(&mut store, DownloadOnly { seen: seen.clone() });
    let this = client.as_ptr();
    assert!(!UrlRequestClientWrapper::c_on_download_data(&store, &mut requests, this, 0, &[9]));
    assert!(!UrlRequestClientWrapper::c_on_request_complete(&store, &mut requests, this, 5));

    let a = requests.allocate(CefUrlRequest);
    assert!(UrlRequestClientWrapper::c_on_request_complete(&store, &mut requests, this, a));
    assert!(!requests.contains(a));
    let b = requests.allocate(CefUrlRequest);
    assert!(UrlRequestClientWrapper::c_on_download_progress(&store, &mut requests, this, b, 10, -1));
    assert!(!requests.contains(b));
    let host = record("example.org");
    let mut callbacks: ObjectStore<CefAuthCallback> = ObjectStore::new();
    assert_eq!(
        UrlRequestClientWrapper::c_get_auth_credentials(&store, &mut callbacks, this, 0, &host, 80, &host, &host, 3),
        (0, None)
    );
    let cb = callbacks.allocate(CefAuthCallback);
    assert_eq!(
        UrlRequestClientWrapper::c_get_auth_credentials(&store, &mut callbacks, this, 0, &host, 80, &host, &host, cb),
        (0, Some(false))
    );
    assert!(client.release(&mut store));

    let c = requests.allocate(CefUrlRequest);
    assert!(!UrlRequestClientWrapper::c_on_download_data(&store, &mut requests, this, c, &[9]));
    assert!(!requests.contains(c));
    let d = requests.allocate(CefUrlRequest);
    assert!(!UrlRequestClientWrapper::c_on_upload_progress(&store, &mut requests, this, d, 1, 2));
    assert!(!requests.contains(d));
    let cb = callbacks.allocate(CefAuthCallback);
    assert_eq!(
        UrlRequestClientWrapper::c_get_auth_credentials(&store, &mut callbacks, this, 0, &host, 80, &host, &host, cb),
        (0, None)
    );
    assert!(!callbacks.contains(cb));
    assert_eq!(seen.downloads.load(Ordering::SeqCst), 0);
}

#[test]
fn auth_credentials_are_converted_both_ways() {
    let seen = Arc::new(Mutex::new(None));
    let mut store: ObjectStore<UrlRequestClientObject> = ObjectStore::new();
    let client = UrlRequestClient::new(&mut store, Authenticator { seen: seen.clone() });
    let vtable = *Wrapped::vtable_at(&store, client.as_ptr()).unwrap();
    assert_eq!(vtable.get_auth_credentials, Some(UrlRequestClientMethod::GetAuthCredentials));
    let host = record("proxy.example");
    let realm = record("r\u{e9}alm");
    let scheme = record("basic");
    let mut callbacks: ObjectStore<CefAuthCallback> = ObjectStore::new();
    let cb = callbacks.allocate(CefAuthCallback);
    let answer = UrlRequestClientWrapper::c_get_auth_credentials(
        &store,
        &mut callbacks,
        client.as_ptr(),
        1,
        &host,
        8080,
        &realm,
        &scheme,
        cb,
    );
    assert_eq!(answer, (1, Some(true)));
    assert!(callbacks.contains(cb));
    assert_eq!(
        seen.lock().unwrap().clone(),
        Some((true, "proxy.example".to_string(), 8080, "r\u{e9}alm".to_string(), "basic".to_string(), cb))
    );
    assert_eq!(
        UrlRequestClientWrapper::c_get_auth_credentials(&store, &mut callbacks, client.as_ptr(), 1, &host, 8080, &realm, &scheme, 0),
        (0, None)
    );
}

#[test]
fn auth_arguments_convert_exactly() {
    let host = record("h\u{f4}st");
    let realm = RawString { units: vec![0xD83D, 0xDE00], dtor: false };
    let scheme = CefString::null();
    let args = auth_request(2, &host, 443, &realm, &scheme);
    assert!(args.is_proxy);
    assert_eq!(args.host, "h\u{f4}st");
    assert_eq!(args.port, 443);
    assert_eq!(args.realm, "\u{1F600}");
    assert_eq!(args.scheme, "");
    assert!(!auth_request(0, &host, 1, &realm, &scheme).is_proxy);
    assert_eq!(auth_request(0, &host, 70000, &realm, &scheme).port, 4464);
    assert_eq!(auth_request(0, &host, -1, &realm, &scheme).port, 65535);
    assert_eq!(int_of_bool(true), 1);
    assert_eq!(int_of_bool(false), 0);
}

#[test]
fn url_request_status_discriminants() {
    let all = [
        (UrlRequestStatus::Unknown, 0),
        (UrlRequestStatus::Success, 1),
        (UrlRequestStatus::IoPending, 2),
        (UrlRequestStatus::Canceled, 3),
        (UrlRequestStatus::Failed, 4),
    ];
    for (status, raw) in all {
        assert_eq!(status.to_raw(), raw);
        assert_eq!(UrlRequestStatus::from_raw(raw), Some(status));
    }
    assert_eq!(UrlRequestStatus::from_raw(5), None);
}

struct NoHandlers;

impl AppCallbacks for NoHandlers {
    fn overrides(&self, _method: AppMethod) -> bool {
        false
    }

    fn overridden(&self, _method: AppMethod) -> bool {
        false
    }
}

struct WithHandlers {
    command_lines: Arc<Mutex<Vec<(Option<String>, Option<usize>)>>>,
    registrars: Arc<AtomicUsize>,
}

impl AppCallbacks for WithHandlers {
    fn overrides(&self, method: AppMethod) -> bool {
        method != AppMethod::GetRenderProcessHandler
    }

    fn overridden(&self, method: AppMethod) -> bool {
        method != AppMethod::GetRenderProcessHandler
    }

    fn on_before_command_line_processing(
        &self,
        process_type: Option<&str>,
        command_line: Option<&CommandLine>,
    ) {
        self.command_lines
            .lock()
            .unwrap()
            .push((process_type.map(|s| s.to_string()), command_line.map(|c| c.as_ptr())));
    }

    fn on_register_custom_schemes(&self, registrar: &SchemeRegistrar) {
        self.registrars.store(registrar.as_ptr(), Ordering::SeqCst);
    }

    fn get_browser_process_handler(&self) -> Option<BrowserProcessHandler> {
        BrowserProcessHandler::wrap_new(9)
    }
}

#[test]
fn app_without_overrides_has_an_empty_vtable() {
    let mut store: ObjectStore<AppObject> = ObjectStore::new();
    let app = App::new(&mut store, NoHandlers);
    let vtable = *Wrapped::vtable_at(&store, app.as_ptr()).unwrap();
    assert!(vtable.on_before_command_line_processing.is_none());
    assert!(vtable.on_register_custom_schemes.is_none());
    assert!(vtable.get_resource_bundle_handler.is_none());
    assert!(vtable.get_browser_process_handler.is_none());
    assert!(vtable.get_render_process_handler.is_none());
    assert_eq!(AppWrapper::c_get_browser_process_handler(&store, app.as_ptr()), (0, Some(false)));
}

#[test]
fn app_trampolines_convert_handlers_and_strings() {
    let command_lines = Arc::new(Mutex::new(Vec::new()));
    let registrars = Arc::new(AtomicUsize::new(0));
    let mut store: ObjectStore<AppObject> = ObjectStore::new();
    let mut lines: ObjectStore<CefCommandLine> = ObjectStore::new();
    let mut regs: ObjectStore<CefSchemeRegistrar> = ObjectStore::new();
    let app = AppWrapper::new(WithHandlers {
        command_lines: command_lines.clone(),
        registrars: registrars.clone(),
    })
    .wrap(&mut store);
    let this = app.as_ptr();
    let vtable = *Wrapped::vtable_at(&store, this).unwrap();
    assert_eq!(vtable.get_browser_process_handler, Some(AppMethod::GetBrowserProcessHandler));
    assert!(vtable.get_render_process_handler.is_none());

    assert_eq!(AppWrapper::c_get_browser_process_handler(&store, this), (9, Some(true)));
    assert_eq!(AppWrapper::c_get_resource_bundle_handler(&store, this), (0, Some(false)));
    assert_eq!(AppWrapper::c_get_render_process_handler(&store, this), (0, Some(false)));

    let renderer = record("renderer");
    let line = lines.allocate(CefCommandLine);
    assert!(AppWrapper::c_on_before_command_line_processing(&store, &mut lines, this, None, line));
    assert!(!lines.contains(line));
    assert!(AppWrapper::c_on_before_command_line_processing(&store, &mut lines, this, Some(&renderer), 0));
    assert_eq!(
        *command_lines.lock().unwrap(),
        vec![(None, Some(line)), (Some("renderer".to_string()), None)]
    );

    assert!(!AppWrapper::c_on_register_custom_schemes(&store, &mut regs, this, 0));
    let reg = regs.allocate(CefSchemeRegistrar);
    assert!(AppWrapper::c_on_register_custom_schemes(&store, &mut regs, this, reg));
    assert_eq!(registrars.load(Ordering::SeqCst), reg);
    assert!(!regs.contains(reg));

    assert!(app.release(&mut store));
    assert_eq!(AppWrapper::c_get_browser_process_handler(&store, this), (0, None));
    let line = lines.allocate(CefCommandLine);
    assert!(!AppWrapper::c_on_before_command_line_processing(&store, &mut lines, this, None, line));
    assert!(!lines.contains(line));
}

#[test]
fn optional_values_map_to_null() {
    assert_eq!(optional_text(None), None);
    let text = record("x\u{1F600}");
    assert_eq!(optional_text(Some(&text)), Some("x\u{1F600}".to_string()));
    assert_eq!(raw_of_optional::<u8>(None), 0);
    assert_eq!(raw_of_optional(BrowserProcessHandler::wrap_new(6)), 6);
}
