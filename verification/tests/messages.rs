use rust_sample::get_message;
use rust_sample::rust_sample_get_message;

fn decode_exported(buf: &[u8]) -> String {
    assert!(!buf.is_empty());
    assert_eq!(buf[buf.len() - 1], 0u8);
    std::str::from_utf8(&buf[..buf.len() - 1]).unwrap().to_owned()
}

#[test]
fn test_get_message() {
    assert_eq!(get_message(true), "Hello, world!");
}

#[test]
fn test_rust_sample_get_message() {
    let msg = rust_sample_get_message(false);

    assert_eq!(decode_exported(&msg), "Bye bye");
}

#[test]
fn test_get_message_false() {
    assert_eq!(get_message(false), "Bye bye");
}

#[test]
fn test_export_round_trip_hello() {
    let buf = rust_sample_get_message(true);
    let text = decode_exported(&buf);
    assert_eq!(text, "Hello, world!");
    drop(buf);
}

#[test]
fn test_repeated_calls_identical() {
    assert_eq!(get_message(true), get_message(true));
    assert_eq!(get_message(false), get_message(false));
    assert_eq!(rust_sample_get_message(true), rust_sample_get_message(true));
    assert_eq!(rust_sample_get_message(false), rust_sample_get_message(false));
}

#[test]
fn test_exported_buffer_null_terminated() {
    for hello in [true, false] {
        let buf = rust_sample_get_message(hello);
        assert_eq!(buf[buf.len() - 1], 0u8);
        for &b in &buf[..buf.len() - 1] {
            assert_ne!(b, 0u8);
        }
    }
}

#[test]
fn test_selector_scenario() {
    assert_eq!(get_message(true), "Hello, world!");
    assert_eq!(get_message(false), "Bye bye");
    let buf = rust_sample_get_message(false);
    assert_eq!(decode_exported(&buf), "Bye bye");
    drop(buf);
}
