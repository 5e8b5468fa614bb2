use lianli_lcd::access_unit::find_au_split;
use lianli_lcd::unit_buffer::UnitBuffer;

const SC4: &[u8] = &[0, 0, 0, 1];

fn nal(typ: u8, payload: &[u8]) -> Vec<u8> {
    let mut v = Vec::new();
    v.extend_from_slice(SC4);
    v.push(typ);
    v.extend_from_slice(payload);
    v
}

#[test]
fn no_aud_splits_at_second_slice() {
    // [SPS][PPS][IDR] [P] [P]
    let mut buf = Vec::new();
    buf.extend(nal(7, &[1, 2])); // SPS
    buf.extend(nal(8, &[3, 4])); // PPS
    buf.extend(nal(5, &[5, 6])); // IDR (boundary #1)
    let p1_off = buf.len();
    buf.extend(nal(1, &[7, 8])); // P-slice (boundary #2)
    buf.extend(nal(1, &[9, 10])); // P-slice

    let split = find_au_split(&buf).expect("should find a split");
    assert_eq!(split, p1_off);
    // Drained AU = [SPS PPS IDR] — the complete first AU
}

#[test]
fn aud_delimited_splits_at_next_aud() {
    // [AUD][SPS][PPS][IDR] [AUD][P]
    let mut buf = Vec::new();
    buf.extend(nal(9, &[0x10])); // AUD (boundary #1)
    buf.extend(nal(7, &[1, 2])); // SPS — NOT a boundary
    buf.extend(nal(8, &[3, 4])); // PPS — NOT a boundary
    buf.extend(nal(5, &[5, 6])); // IDR — NOT a boundary (AUD policy active)
    let aud2_off = buf.len();
    buf.extend(nal(9, &[0x10])); // AUD (boundary #2)
    buf.extend(nal(1, &[7, 8])); // P-slice

    let split = find_au_split(&buf).expect("should find a split");
    assert_eq!(split, aud2_off);
    // Drained AU = [AUD SPS PPS IDR] — complete, includes the IDR
}

#[test]
fn three_byte_start_code() {
    let mut buf = Vec::new();
    buf.extend(&[0, 0, 0, 1, 5, 1]); // 4-byte SC + IDR
    let split_off = buf.len();
    buf.extend(&[0, 0, 1, 1, 2]); // 3-byte SC + P-slice
    let split = find_au_split(&buf).expect("should find a split");
    assert_eq!(split, split_off);
}

#[test]
fn no_split_in_partial_buffer() {
    // Only one slice NAL — not enough for a split
    let buf = nal(5, &[1, 2, 3]);
    assert!(find_au_split(&buf).is_none());
}

#[test]
fn nothing_in_nothing() {
    assert_eq!(find_au_split(&[]), None);
    assert_eq!(find_au_split(&[0, 0, 1]), None);
    assert_eq!(find_au_split(&[0, 0, 0, 1]), None);
}

#[test]
fn start_code_without_type_is_not_counted() {
    let mut buf = nal(5, &[1]);
    buf.extend_from_slice(SC4);
    assert_eq!(find_au_split(&buf), None);
    buf.push(0x41);
    assert_eq!(find_au_split(&buf), Some(6));
}

#[test]
fn type_is_in_the_low_five_bits() {
    let mut buf = nal(0x65, &[1]);
    buf.extend(nal(0x41, &[2]));
    assert_eq!(find_au_split(&buf), Some(6));
}

#[test]
fn aud_behind_a_slice_opens_the_next_unit() {
    let stream = [0, 0, 1, 5, 0, 0, 1, 9, 0, 0, 1, 1];
    assert_eq!(find_au_split(&stream), Some(4));
    // From there on delimiters separate the units.
    assert_eq!(find_au_split(&stream[4..]), None);
    let mut longer = stream[4..].to_vec();
    longer.extend(nal(1, &[2]));
    longer.extend(nal(9, &[0x10]));
    assert_eq!(find_au_split(&longer), Some(14));
}

fn sample_stream() -> Vec<u8> {
    let mut stream = nal(7, &[1, 2]);
    stream.extend(nal(5, &[5, 6, 0]));
    stream.extend(&[0, 0, 1, 0x41, 7]);
    stream.extend(nal(1, &[8, 9]));
    stream.extend(nal(1, &[10]));
    stream
}

fn units_read_by(size: usize) -> (Vec<Vec<u8>>, Vec<u8>) {
    let mut buffer = UnitBuffer::new();
    let mut units = Vec::new();
    for chunk in sample_stream().chunks(size) {
        buffer.append(chunk);
        while buffer.has_unit() {
            units.push(buffer.next_unit().unwrap());
        }
    }
    let rest = buffer.take_all();
    assert_eq!(buffer.len(), 0);
    (units, rest)
}

#[test]
fn units_do_not_depend_on_read_sizes() {
    let whole = units_read_by(1000);
    assert_eq!(whole.0.len(), 3);
    assert_eq!(whole.1, nal(1, &[10]));
    for size in 1..40 {
        assert_eq!(units_read_by(size), whole);
    }
}

#[test]
fn units_and_rest_make_up_the_stream() {
    let (units, rest) = units_read_by(7);
    let mut joined: Vec<u8> = units.concat();
    joined.extend(rest);
    assert_eq!(joined, sample_stream());
}

#[test]
fn no_unit_can_be_split_again() {
    let (units, rest) = units_read_by(5);
    for unit in units {
        assert_eq!(find_au_split(&unit), None);
    }
    assert_eq!(find_au_split(&rest), None);
}

#[test]
fn split_is_stable_under_more_data() {
    let mut buf = sample_stream();
    let split = find_au_split(&buf);
    // The zero before the short start code makes it a long one.
    assert_eq!(split, Some(14));
    buf.extend(nal(9, &[1]));
    assert_eq!(find_au_split(&buf), split);
}

#[test]
fn buffer_without_a_unit_stays_as_it_is() {
    let mut buffer = UnitBuffer::new();
    buffer.append(&nal(5, &[1]));
    assert!(!buffer.has_unit());
    assert_eq!(buffer.next_unit(), None);
    assert_eq!(buffer.len(), 6);
    assert_eq!(buffer.take_all(), nal(5, &[1]));
}
