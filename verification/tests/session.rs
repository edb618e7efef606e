use alkahest::session::Session;

#[test]
fn new_session() {
    let _ = Session::new(123);
}

#[test]
fn new_session_keeps_module_id() {
    let s = Session::new(7);
    assert_eq!(s.module_id, 7);
}
