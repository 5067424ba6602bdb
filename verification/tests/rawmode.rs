use kilo_term::rawmode::RawSession;
use kilo_term::rawmode::TermAttrs;
use kilo_term::rawmode::make_raw;

fn sample_attrs() -> TermAttrs {
    let cc: Vec<u8> = (0..32).map(|i| 100 + i as u8).collect();
    TermAttrs {
        iflag: 0xFFFF_FFFF,
        oflag: 0xFFFF_FFFF,
        cflag: 0x0000_0000,
        lflag: 0xFFFF_FFFF,
        line: 7,
        cc,
        ispeed: 15,
        ospeed: 16,
    }
}

#[test]
fn raw_attrs_clear_and_set_the_documented_flags() {
    let orig = sample_attrs();
    let raw = make_raw(&orig);
    // Break-to-interrupt, CR-to-NL, parity check, bit stripping and input
    // flow control off.
    assert_eq!(raw.iflag, 0xFFFF_FACD);
    // Output post-processing off.
    assert_eq!(raw.oflag, 0xFFFF_FFFE);
    // Eight-bit characters.
    assert_eq!(raw.cflag, 0x0000_0030);
    // Echo, canonical input, extended processing and signals off.
    assert_eq!(raw.lflag, 0xFFFF_7FF4);
    // Reads return after one tenth of a second even with no bytes.
    assert_eq!(raw.cc[6], 0); // minimum bytes
    assert_eq!(raw.cc[5], 1); // timeout, tenths of a second
    // Everything else is untouched.
    assert_eq!(raw.line, 7);
    assert_eq!(raw.ispeed, 15);
    assert_eq!(raw.ospeed, 16);
    for i in 0..32 {
        if i != 5 && i != 6 {
            assert_eq!(raw.cc[i], 100 + i as u8);
        }
    }
}

#[test]
fn session_restores_the_exact_snapshot() {
    let orig = sample_attrs();
    let session = RawSession::enter(orig.clone());
    // Deriving and applying raw attributes must not disturb the snapshot.
    let _raw = session.raw_attrs();
    let restored = session.finish();
    assert_eq!(restored, orig);
}

#[test]
fn derived_attributes_differ_but_restoration_does_not() {
    let orig = sample_attrs();
    let session = RawSession::enter(orig.clone());
    let raw = session.raw_attrs();
    assert_ne!(raw, orig);
    assert_eq!(session.finish(), orig);
}
