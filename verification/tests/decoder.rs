use kilo_term::Key;
use kilo_term::decoder::Decoder;
use kilo_term::decoder::decode_next;

#[test]
fn arrow_keys_consume_three_bytes() {
    let cases = [
        (b'A', Key::Up),
        (b'B', Key::Down),
        (b'C', Key::Right),
        (b'D', Key::Left),
    ];
    for (last, key) in cases {
        let bytes = vec![0x1b, b'[', last];
        assert_eq!(decode_next(&bytes, 0), (Some(key), 3));
    }
}

#[test]
fn csi_final_letters_home_end() {
    assert_eq!(decode_next(&vec![0x1b, b'[', b'H'], 0), (Some(Key::Home), 3));
    assert_eq!(decode_next(&vec![0x1b, b'[', b'F'], 0), (Some(Key::End), 3));
}

#[test]
fn extended_keys() {
    assert_eq!(
        decode_next(&vec![0x1b, b'[', b'3', b'~'], 0),
        (Some(Key::Delete), 4)
    );
    assert_eq!(
        decode_next(&vec![0x1b, b'[', b'5', b'~'], 0),
        (Some(Key::PageUp), 4)
    );
    assert_eq!(
        decode_next(&vec![0x1b, b'[', b'6', b'~'], 0),
        (Some(Key::PageDown), 4)
    );
    assert_eq!(
        decode_next(&vec![0x1b, b'[', b'1', b'~'], 0),
        (Some(Key::Home), 4)
    );
    assert_eq!(
        decode_next(&vec![0x1b, b'[', b'7', b'~'], 0),
        (Some(Key::Home), 4)
    );
    assert_eq!(
        decode_next(&vec![0x1b, b'[', b'4', b'~'], 0),
        (Some(Key::End), 4)
    );
    assert_eq!(
        decode_next(&vec![0x1b, b'[', b'8', b'~'], 0),
        (Some(Key::End), 4)
    );
}

#[test]
fn unmapped_extended_sequence_is_dropped_and_decoding_resumes() {
    // ESC [ 2 ~ names no key: the sequence yields nothing and the next
    // byte is decoded as a fresh event.
    let bytes = vec![0x1b, b'[', b'2', b'~', b'a'];
    assert_eq!(decode_next(&bytes, 0), (Some(Key::Char(b'a')), 5));
}

#[test]
fn multi_digit_extended_sequence_is_accumulated() {
    // ESC [ 1 5 ~ accumulates 15, which names no key.
    let bytes = vec![0x1b, b'[', b'1', b'5', b'~', b'x'];
    assert_eq!(decode_next(&bytes, 0), (Some(Key::Char(b'x')), 6));
}

#[test]
fn very_long_extended_number_is_dropped() {
    // A run of digits far past any known key still ends cleanly at `~`.
    let mut bytes = vec![0x1b, b'['];
    bytes.extend(std::iter::repeat(b'9').take(20));
    bytes.push(b'~');
    bytes.push(b'w');
    let n = bytes.len();
    assert_eq!(decode_next(&bytes, 0), (Some(Key::Char(b'w')), n));
}

#[test]
fn leading_zero_extended_number_counts_as_its_value() {
    // ESC [ 0 3 ~ accumulates the number 3: Delete.
    let bytes = vec![0x1b, b'[', b'0', b'3', b'~'];
    assert_eq!(decode_next(&bytes, 0), (Some(Key::Delete), 5));
}

#[test]
fn malformed_extended_terminator_is_dropped() {
    // ESC [ 3 then a byte that is neither digit nor ~: dropped, resume.
    let bytes = vec![0x1b, b'[', b'3', b'z', b'q'];
    assert_eq!(decode_next(&bytes, 0), (Some(Key::Char(b'q')), 5));
}

#[test]
fn bare_escape_on_timeout() {
    // A lone ESC followed by a read timeout is one bare Escape event.
    let bytes = vec![0x1b];
    assert_eq!(decode_next(&bytes, 0), (Some(Key::Escape), 1));
}

#[test]
fn bare_escape_on_timeout_incremental() {
    let mut d = Decoder::new();
    assert_eq!(d.feed(Some(0x1b)), None);
    // The next read times out: the decoder falls back to a bare Escape.
    assert_eq!(d.feed(None), Some(Key::Escape));
}

#[test]
fn escape_then_unknown_second_byte() {
    let bytes = vec![0x1b, b'x'];
    assert_eq!(decode_next(&bytes, 0), (Some(Key::Escape), 2));
}

#[test]
fn truncated_csi_yields_escape() {
    assert_eq!(decode_next(&vec![0x1b, b'['], 0), (Some(Key::Escape), 2));
    assert_eq!(
        decode_next(&vec![0x1b, b'[', b'3'], 0),
        (Some(Key::Escape), 3)
    );
}

#[test]
fn esc_o_home_end() {
    assert_eq!(decode_next(&vec![0x1b, b'O', b'H'], 0), (Some(Key::Home), 3));
    assert_eq!(decode_next(&vec![0x1b, b'O', b'F'], 0), (Some(Key::End), 3));
    assert_eq!(
        decode_next(&vec![0x1b, b'O', b'z'], 0),
        (Some(Key::Escape), 3)
    );
}

#[test]
fn literal_byte_consumes_one_byte() {
    let bytes = vec![0x61];
    assert_eq!(decode_next(&bytes, 0), (Some(Key::Char(0x61)), 1));
}

#[test]
fn empty_input_times_out_quietly() {
    let bytes: Vec<u8> = vec![];
    assert_eq!(decode_next(&bytes, 0), (None, 0));
}

#[test]
fn decoding_continues_mid_buffer() {
    let bytes = vec![b'a', 0x1b, b'[', b'B'];
    let (ev, next) = decode_next(&bytes, 0);
    assert_eq!(ev, Some(Key::Char(b'a')));
    assert_eq!(next, 1);
    assert_eq!(decode_next(&bytes, next), (Some(Key::Down), 4));
}

#[test]
fn incremental_decoder_arrow() {
    let mut d = Decoder::new();
    assert_eq!(d.feed(Some(0x1b)), None);
    assert_eq!(d.feed(Some(b'[')), None);
    assert_eq!(d.feed(Some(b'A')), Some(Key::Up));
    // Back between sequences: a literal byte decodes at once.
    assert_eq!(d.feed(Some(b'k')), Some(Key::Char(b'k')));
}

#[test]
fn idle_timeout_between_sequences_yields_nothing() {
    let mut d = Decoder::new();
    assert_eq!(d.feed(None), None);
    assert_eq!(d.feed(None), None);
    assert_eq!(d.feed(Some(b'h')), Some(Key::Char(b'h')));
}
