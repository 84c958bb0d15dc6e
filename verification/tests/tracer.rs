use rust_auth_demo::error::Error;
use rust_auth_demo::tracer::Tracer;

#[test]
fn new_tracer_has_no_id() {
    let t = Tracer::new();
    assert_eq!(t.info_line("hello"), None);
    assert_eq!(t.error_line("hello"), None);
    match t.check_request_id() {
        Err(Error::Other(cause)) => {
            assert_eq!(cause, "Request ID not found. Did you attach the Tracer fairing?")
        }
        _ => panic!("an internal error was expected"),
    }
    assert_eq!(Tracer::default().info_line("x"), None);
}

#[test]
fn request_tracer_tags_lines() {
    let t = Tracer::for_request();
    let id = t.request_id().clone();
    assert_eq!(id.len(), 36);
    assert!(uuid::Uuid::parse_str(&id).is_ok());
    assert_eq!(t.info_line("hello").unwrap(), format!("{} INFO hello", id));
    assert_eq!(t.error_line("oops").unwrap(), format!("{} ERROR oops", id));
    assert!(t.check_request_id().is_ok());
    assert_ne!(Tracer::for_request().request_id(), &id);
}
