use gps_correct::fix::{extract_fix, FixRecord, FIX_MARKER, SENTENCE_END};

fn raw(chunk: &[u8]) -> Option<String> {
    extract_fix(chunk).map(|record| record.raw)
}

#[test]
fn marker_and_sentence_end_in_bytes() {
    assert_eq!(FIX_MARKER.as_bytes(), [0x24, 0x47, 0x4e, 0x47, 0x47, 0x41]);
    assert_eq!(SENTENCE_END.as_bytes(), [0x0d]);
}

#[test]
fn sentence_between_junk_and_line_end() {
    assert_eq!(
        raw("junk$GNGGA,1,2,3*4\r\nmore".as_bytes()),
        Some("$GNGGA,1,2,3*4".to_string())
    );
}

#[test]
fn sentence_without_carriage_return_runs_to_the_end() {
    assert_eq!(raw("$GNGGA,1,2,3*4".as_bytes()), Some("$GNGGA,1,2,3*4".to_string()));
}

#[test]
fn no_marker_no_record() {
    assert_eq!(extract_fix("$GPGGA,1,2,3*4\r\n$GNRMC,5\r\n".as_bytes()), None);
    assert_eq!(extract_fix("".as_bytes()), None);
    assert_eq!(extract_fix("$GNGG".as_bytes()), None);
}

#[test]
fn bytes_that_are_no_text_give_no_record() {
    let mut chunk = "$GNGGA,1,2,3*4\r\n".as_bytes().to_vec();
    chunk.push(0xff);
    assert_eq!(extract_fix(&chunk), None);
    let mut chunk = vec![0xc3];
    chunk.extend_from_slice("$GNGGA,1*4\r".as_bytes());
    assert_eq!(extract_fix(&chunk), None);
}

#[test]
fn first_of_two_sentences_is_taken() {
    assert_eq!(
        raw("$GNGGA,first*1\r\n$GNGGA,second*2\r\n".as_bytes()),
        Some("$GNGGA,first*1".to_string())
    );
}

#[test]
fn carriage_return_before_the_marker_does_not_end_the_sentence() {
    assert_eq!(
        raw("$GNRMC,0\r\n$GNGGA,9*9\r\n".as_bytes()),
        Some("$GNGGA,9*9".to_string())
    );
}

#[test]
fn marker_alone_and_marker_before_carriage_return() {
    assert_eq!(raw("$GNGGA".as_bytes()), Some("$GNGGA".to_string()));
    assert_eq!(raw("$GNGGA\r".as_bytes()), Some("$GNGGA".to_string()));
}

#[test]
fn text_beyond_ascii_around_the_sentence() {
    assert_eq!(
        raw("h\u{e9}\u{20ac}$GNGGA,\u{b0}45*7\r\n\u{1f6f0}".as_bytes()),
        Some("$GNGGA,\u{b0}45*7".to_string())
    );
}

#[test]
fn half_a_sentence_is_reported_as_far_as_it_goes() {
    assert_eq!(raw("x\r\n$GNGGA,1235".as_bytes()), Some("$GNGGA,1235".to_string()));
    assert_eq!(extract_fix("19,4807.038,N*47\r\n".as_bytes()), None);
}

#[test]
fn record_compares_by_its_text() {
    let record = extract_fix("$GNGGA,1\r".as_bytes());
    assert_eq!(record, Some(FixRecord { raw: "$GNGGA,1".to_string() }));
}
