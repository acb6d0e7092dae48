use chaorder::illustration::ParseIllustration;

#[test]
fn two_line_text_yields_four_cells() {
    let illustration = ParseIllustration::from_str("AB\nCD");
    assert_eq!(illustration.len(), 4);
    assert_eq!(illustration.get(0, 0), Some('A'));
    assert_eq!(illustration.get(0, 1), Some('B'));
    assert_eq!(illustration.get(1, 0), Some('C'));
    assert_eq!(illustration.get(1, 1), Some('D'));
    assert_eq!(illustration.get(0, 2), None);
    assert_eq!(illustration.get(2, 0), None);
}

#[test]
fn empty_text_yields_no_cells() {
    let illustration = ParseIllustration::from_str("");
    assert_eq!(illustration.len(), 0);
}

#[test]
fn carriage_return_before_newline_is_line_ending() {
    let illustration = ParseIllustration::from_str("A\r\nB");
    assert_eq!(illustration.len(), 2);
    assert_eq!(illustration.get(0, 0), Some('A'));
    assert_eq!(illustration.get(1, 0), Some('B'));
    assert_eq!(illustration.get(0, 1), None);
}

#[test]
fn lone_carriage_return_is_a_cell() {
    let illustration = ParseIllustration::from_str("A\rB");
    assert_eq!(illustration.len(), 3);
    assert_eq!(illustration.get(0, 0), Some('A'));
    assert_eq!(illustration.get(0, 1), Some('\r'));
    assert_eq!(illustration.get(0, 2), Some('B'));
}

#[test]
fn trailing_newline_adds_no_cell() {
    let illustration = ParseIllustration::from_str("AB\n");
    assert_eq!(illustration.len(), 2);
    assert_eq!(illustration.get(0, 0), Some('A'));
    assert_eq!(illustration.get(0, 1), Some('B'));
}

#[test]
fn keys_are_unique_and_in_scan_order() {
    let illustration = ParseIllustration::from_str("XY\nZ");
    let entries = &illustration.entries;
    assert_eq!(entries.len(), 3);
    assert_eq!(entries[0], ((0, 0), 'X'));
    assert_eq!(entries[1], ((0, 1), 'Y'));
    assert_eq!(entries[2], ((1, 0), 'Z'));
}
