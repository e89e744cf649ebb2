use pjsip_client::engine::EngineRequest;
use pjsip_client::tokio_utils::PjsuaThreadMeta;

#[test]
fn a_new_thread_is_registered_under_its_number() {
    let (meta, request) = PjsuaThreadMeta::register(0, false);
    assert_eq!(meta.thread_name(), "pjsua_thread_tokio_0");
    assert_eq!(request, Some(EngineRequest::ThreadRegister));
    let (meta, _) = PjsuaThreadMeta::register(4711, false);
    assert_eq!(meta.thread_name(), "pjsua_thread_tokio_4711");
}

#[test]
fn a_known_thread_is_not_registered_again() {
    let (meta, request) = PjsuaThreadMeta::register(3, true);
    assert_eq!(meta.thread_name(), "pjsua_thread_tokio_3");
    assert_eq!(request, None);
}
