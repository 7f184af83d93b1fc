use harmonyscale::api::{error_json, failure_json, init_failure_json, ok_json};
use harmonyscale::registry::Registry;

#[test]
fn ok_answer() {
    assert_eq!(ok_json(), r#"{"ok":true}"#);
}

#[test]
fn init_failure_softens_quotes() {
    assert_eq!(
        init_failure_json(r#"config error: expected "mtu""#),
        r#"{"ok":false,"error":"config error: expected 'mtu'"}"#
    );
    assert_eq!(init_failure_json(""), r#"{"ok":false,"error":""}"#);
}

#[test]
fn failure_keeps_text() {
    assert_eq!(failure_json("no tunnel initialized"), r#"{"ok":false,"error":"no tunnel initialized"}"#);
    assert_eq!(failure_json("no active tunnel"), r#"{"ok":false,"error":"no active tunnel"}"#);
}

#[test]
fn stats_error_answer() {
    assert_eq!(error_json("no active tunnel"), r#"{"error":"no active tunnel"}"#);
}

#[test]
fn registry_slots_are_independent() {
    let mut r: Registry<u32, &str> = Registry::new();
    assert!(r.get_tunnel().is_none());
    assert!(r.get_loop_handle().is_none());
    *r.get_tunnel() = Some(7);
    assert!(r.get_loop_handle().is_none());
    *r.get_loop_handle() = Some("loop");
    assert_eq!(r.get_loop_handle().take(), Some("loop"));
    assert!(r.get_loop_handle().is_none());
    assert_eq!(*r.get_tunnel(), Some(7));
}
