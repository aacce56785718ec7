use clipio::bridge::{read_outcome, validate_text, write_outcome};
use clipio::error::{BridgeError, ClipboardFailure};

#[test]
fn hello_is_stored_echoed_and_read_back() {
    let input = b"hello".to_vec();
    let text = validate_text(&input).unwrap();
    assert_eq!(text, "hello");
    let stored = text.to_string();
    let echoed = write_outcome(input.clone(), Ok(())).unwrap();
    assert_eq!(echoed, b"hello".to_vec());
    let printed = read_outcome(Ok(stored)).unwrap();
    assert_eq!(printed, b"hello".to_vec());
}

#[test]
fn round_trip_keeps_multibyte_text() {
    let input = "grüße, 世界 🦀\n".as_bytes().to_vec();
    let text = validate_text(&input).unwrap().to_string();
    assert_eq!(text, "grüße, 世界 🦀\n");
    assert_eq!(read_outcome(Ok(text)).unwrap(), input);
}

#[test]
fn empty_input_is_valid_and_echoed_empty() {
    let input: Vec<u8> = Vec::new();
    assert_eq!(validate_text(&input).unwrap(), "");
    assert_eq!(write_outcome(input, Ok(())).unwrap(), Vec::<u8>::new());
    assert_eq!(read_outcome(Ok(String::new())).unwrap(), Vec::<u8>::new());
}

#[test]
fn echo_is_the_input_verbatim() {
    let input = b"line one\r\n\tline two\n".to_vec();
    assert!(validate_text(&input).is_ok());
    assert_eq!(write_outcome(input.clone(), Ok(())).unwrap(), input);
}

#[test]
fn binary_input_is_a_conversion_error() {
    let input = vec![0x66u8, 0x6f, 0xff, 0xfe, 0x00];
    let expected = String::from_utf8(input.clone()).unwrap_err().to_string();
    match validate_text(&input) {
        Err(BridgeError::ConversionError(d)) => assert_eq!(d, expected),
        other => panic!("unexpected {:?}", other),
    }
}

#[test]
fn truncated_sequence_is_a_conversion_error() {
    let input = vec![0x61u8, 0xe4, 0xb8];
    assert!(matches!(validate_text(&input), Err(BridgeError::ConversionError(_))));
}

#[test]
fn surrogate_and_overlong_are_rejected() {
    assert!(validate_text(&[0xed, 0xa0, 0x80]).is_err());
    assert!(validate_text(&[0xc0, 0x80]).is_err());
    assert!(validate_text(&[0xf4, 0x90, 0x80, 0x80]).is_err());
}

#[test]
fn binary_input_reports() {
    let err = validate_text(&[0xffu8, 0xfe]).unwrap_err();
    assert_eq!(err.report(false), "error: utf8 conversion error");
    let verbose = err.report(true);
    assert!(verbose.starts_with("utf8 error: "));
    assert_eq!(verbose, format!("utf8 error: {}", String::from_utf8(vec![0xffu8, 0xfe]).unwrap_err()));
}

#[test]
fn empty_clipboard_reports() {
    let err = read_outcome(Err(ClipboardFailure::ContentNotAvailable)).unwrap_err();
    assert_eq!(err, BridgeError::ClipboardError(ClipboardFailure::ContentNotAvailable));
    assert_eq!(err.report(false), "error: clipboard error");
    assert_eq!(err.report(true), "error: content not available");
}

#[test]
fn unsupported_clipboard_reports() {
    let err = read_outcome(Err(ClipboardFailure::ClipboardNotSupported)).unwrap_err();
    assert_eq!(err.report(false), "error: clipboard error");
    assert_eq!(err.report(true), "error: clipboard not supported");
}

#[test]
fn refused_write_is_a_clipboard_error_and_echoes_nothing() {
    let r = write_outcome(b"abc".to_vec(), Err(ClipboardFailure::ClipboardOccupied));
    assert_eq!(r, Err(BridgeError::ClipboardError(ClipboardFailure::ClipboardOccupied)));
}

#[test]
fn verbose_clipboard_phrases() {
    let cases = [
        (ClipboardFailure::ClipboardOccupied, "error: clipboard not available"),
        (ClipboardFailure::ContentNotAvailable, "error: content not available"),
        (ClipboardFailure::ConversionFailure, "error: could not convert clipboard content"),
        (ClipboardFailure::ClipboardNotSupported, "error: clipboard not supported"),
        (ClipboardFailure::Other, "error: unknown clipboard error"),
    ];
    for (f, line) in cases {
        let e = BridgeError::ClipboardError(f);
        assert_eq!(e.report(true), line);
        assert_eq!(e.report(false), "error: clipboard error");
    }
}

#[test]
fn unknown_clipboard_failure_shows_its_description() {
    let e = BridgeError::ClipboardError(ClipboardFailure::Unknown { description: "X11 server went away".to_string() });
    assert_eq!(e.report(true), "clipboard error: X11 server went away");
    assert_eq!(e.report(false), "error: clipboard error");
}

#[test]
fn io_error_reports() {
    let e = BridgeError::IoError("Broken pipe (os error 32)".to_string());
    assert_eq!(e.report(false), "error: io error");
    assert_eq!(e.report(true), "io error: Broken pipe (os error 32)");
}

#[test]
fn quiet_reports_ignore_diagnostics() {
    let a = BridgeError::IoError("first".to_string());
    let b = BridgeError::IoError("a different diagnostic".to_string());
    assert_eq!(a.report(false), b.report(false));
    assert!(!a.report(false).contains("first"));
    let c = BridgeError::ConversionError("invalid utf-8 sequence".to_string());
    assert!(!c.report(false).contains("invalid"));
    assert_eq!(c.kind_phrase(), "utf8 conversion error");
}
