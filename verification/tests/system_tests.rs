use backend::system::ServiceStatus;

#[test]
fn pending_status_has_detail() {
    let s = ServiceStatus::pending();
    assert_eq!(s.status, "pending");
    assert_eq!(s.detail.as_deref(), Some("not initialized yet"));
}
