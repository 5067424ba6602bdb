use kilo_term::TermError;
use kilo_term::geometry::Geometry;
use kilo_term::geometry::from_os_report;
use kilo_term::geometry::parse_cursor_report;
use kilo_term::geometry::probe_request;

#[test]
fn os_report_accepted_when_positive() {
    assert_eq!(
        from_os_report(40, 120),
        Some(Geometry {
            rows: 40,
            cols: 120
        })
    );
}

#[test]
fn os_report_rejected_when_degenerate() {
    assert_eq!(from_os_report(0, 120), None);
    assert_eq!(from_os_report(40, 0), None);
    assert_eq!(from_os_report(0, 0), None);
}

#[test]
fn probe_request_bytes() {
    assert_eq!(probe_request(), "\x1b[999C\x1b[999B\x1b[6n");
}

#[test]
fn cursor_report_parses() {
    let buf = b"\x1b[24;80R".to_vec();
    assert_eq!(
        parse_cursor_report(&buf),
        Ok(Geometry { rows: 24, cols: 80 })
    );
}

#[test]
fn cursor_report_parses_large_values() {
    let buf = b"\x1b[1;65535R".to_vec();
    assert_eq!(
        parse_cursor_report(&buf),
        Ok(Geometry {
            rows: 1,
            cols: 65535
        })
    );
}

#[test]
fn cursor_report_missing_separator() {
    let buf = b"\x1b[80R".to_vec();
    assert_eq!(parse_cursor_report(&buf), Err(TermError::Protocol));
}

#[test]
fn cursor_report_non_numeric_field() {
    let buf = b"\x1bxy;80R".to_vec();
    assert_eq!(parse_cursor_report(&buf), Err(TermError::Protocol));
    let buf2 = b"\x1b[xy;80R".to_vec();
    assert_eq!(parse_cursor_report(&buf2), Err(TermError::Protocol));
    let buf3 = b"\x1b[24;8x0R".to_vec();
    assert_eq!(parse_cursor_report(&buf3), Err(TermError::Protocol));
}

#[test]
fn cursor_report_missing_prefix() {
    let buf = b"[24;80R!".to_vec();
    assert_eq!(parse_cursor_report(&buf), Err(TermError::Protocol));
}

#[test]
fn cursor_report_missing_terminator() {
    let buf = b"\x1b[24;80".to_vec();
    assert_eq!(parse_cursor_report(&buf), Err(TermError::Protocol));
}

#[test]
fn cursor_report_too_short() {
    let buf = b"\x1b[;R".to_vec();
    assert_eq!(parse_cursor_report(&buf), Err(TermError::Protocol));
    let empty: Vec<u8> = vec![];
    assert_eq!(parse_cursor_report(&empty), Err(TermError::Protocol));
}

#[test]
fn cursor_report_empty_field() {
    let buf = b"\x1b[;80R".to_vec();
    assert_eq!(parse_cursor_report(&buf), Err(TermError::Protocol));
    let buf2 = b"\x1b[24;R".to_vec();
    assert_eq!(parse_cursor_report(&buf2), Err(TermError::Protocol));
}

#[test]
fn cursor_report_zero_dimension() {
    let buf = b"\x1b[0;80R".to_vec();
    assert_eq!(parse_cursor_report(&buf), Err(TermError::Protocol));
    let buf2 = b"\x1b[24;0R".to_vec();
    assert_eq!(parse_cursor_report(&buf2), Err(TermError::Protocol));
}

#[test]
fn cursor_report_value_too_large() {
    let buf = b"\x1b[24;65536R".to_vec();
    assert_eq!(parse_cursor_report(&buf), Err(TermError::Protocol));
    let buf2 = b"\x1b[99999999999999999999;80R".to_vec();
    assert_eq!(parse_cursor_report(&buf2), Err(TermError::Protocol));
}
