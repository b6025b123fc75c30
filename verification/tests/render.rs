use wcr::{format_counts, format_failure, format_line, Config, FileInfo, ReadError};

fn select(lines: bool, words: bool, bytes: bool, chars: bool) -> Config {
    Config { files: vec![String::from("-")], lines, words, bytes, chars }
}

fn counts(lines: usize, words: usize, bytes: usize, chars: usize) -> FileInfo {
    FileInfo { num_lines: lines, num_words: words, num_bytes: bytes, num_chars: chars }
}

#[test]
fn default_selection_renders_three_fields() {
    let line = format_counts(&select(true, true, true, false), &counts(1, 10, 48, 47));
    assert_eq!(line, "       1      10      48");
}

#[test]
fn each_metric_renders_alone() {
    let info = counts(1, 22, 333, 4444);
    assert_eq!(format_counts(&select(true, false, false, false), &info), "       1");
    assert_eq!(format_counts(&select(false, true, false, false), &info), "      22");
    assert_eq!(format_counts(&select(false, false, true, false), &info), "     333");
    assert_eq!(format_counts(&select(false, false, false, true), &info), "    4444");
}

#[test]
fn fields_come_in_a_fixed_order() {
    let info = counts(1, 22, 333, 4444);
    assert_eq!(format_counts(&select(true, false, false, true), &info), "       1    4444");
    assert_eq!(format_counts(&select(false, true, true, false), &info), "      22     333");
    assert_eq!(
        format_counts(&select(true, true, true, true), &info),
        "       1      22     333    4444"
    );
    assert_eq!(format_counts(&select(false, false, false, false), &info), "");
}

#[test]
fn fields_are_right_aligned_to_eight() {
    let only_lines = select(true, false, false, false);
    let samples = [
        0,
        1,
        9,
        10,
        99,
        100,
        1234567,
        9999999,
        10000000,
        12345678,
        99999999,
        100000000,
        123456789,
        1234567890,
        usize::MAX / 10,
        usize::MAX - 1,
        usize::MAX,
    ];
    for n in samples {
        let rendered = format_counts(&only_lines, &counts(n, 0, 0, 0));
        assert_eq!(rendered, format!("{:>8}", n));
    }
    assert_eq!(format_counts(&only_lines, &counts(0, 0, 0, 0)), "       0");
    assert_eq!(format_counts(&only_lines, &counts(12345678, 0, 0, 0)), "12345678");
    assert_eq!(format_counts(&only_lines, &counts(123456789, 0, 0, 0)), "123456789");
}

#[test]
fn wide_fields_touch() {
    let line = format_counts(&select(true, true, false, false), &counts(123456789, 7, 0, 0));
    assert_eq!(line, "123456789       7");
}

#[test]
fn a_named_input_ends_its_line() {
    let line = format_line(&select(true, true, true, false), &counts(1, 10, 48, 48), "fox.txt");
    assert_eq!(line, "       1      10      48 fox.txt");
    let line = format_line(&select(false, false, false, true), &counts(1, 1, 2, 1), "dir/é.txt");
    assert_eq!(line, "       1 dir/é.txt");
}

#[test]
fn standard_input_is_not_named() {
    let line = format_line(&select(true, true, true, false), &counts(1, 10, 48, 48), "-");
    assert_eq!(line, "       1      10      48");
    let line = format_line(&select(true, false, false, false), &counts(3, 0, 0, 0), "--");
    assert_eq!(line, "       3 --");
}

#[test]
fn a_failure_is_told_after_the_name() {
    let missing = ReadError::Unreadable(String::from("No such file or directory (os error 2)"));
    assert_eq!(
        format_failure("blargh", &missing),
        "blargh: No such file or directory (os error 2)"
    );
    assert_eq!(
        format_failure("-", &ReadError::InvalidEncoding),
        "-: stream did not contain valid UTF-8"
    );
}
