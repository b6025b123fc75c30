use wcr::{get_args, report_input, report_total, run, Config, FileInfo, Output, ReadError, Report};

const FOX: &str = "The quick brown fox jumps over the lazy dog.\n";
const ATLAMAL: &str = "Frétt hefir öld óvu, þá er endr of gerðu\nseggir samkundu, sú var nýt fæstum\n";

fn config(files: &[&str]) -> Config {
    let files = files.iter().map(|name| name.to_string()).collect();
    get_args(files, false, false, false, false).unwrap()
}

fn read(text: &str) -> Result<Vec<u8>, ReadError> {
    Ok(text.as_bytes().to_vec())
}

fn missing() -> Result<Vec<u8>, ReadError> {
    Err(ReadError::Unreadable(String::from("No such file or directory (os error 2)")))
}

fn counts(lines: usize, words: usize, bytes: usize, chars: usize) -> FileInfo {
    FileInfo { num_lines: lines, num_words: words, num_bytes: bytes, num_chars: chars }
}

fn line(text: &str) -> Output {
    Output::Line(String::from(text))
}

fn error(text: &str) -> Output {
    Output::Error(String::from(text))
}

#[test]
fn one_input_has_no_total_line() {
    let report = run(&config(&["fox.txt"]), &vec![read(FOX)]);
    assert_eq!(
        report,
        Report { outputs: vec![line("       1       9      45 fox.txt")], total: counts(1, 9, 45, 45) }
    );
}

#[test]
fn several_inputs_end_with_a_total_line() {
    let report = run(&config(&["fox.txt", "atlamal.txt"]), &vec![read(FOX), read(ATLAMAL)]);
    assert_eq!(
        report.outputs,
        vec![
            line("       1       9      45 fox.txt"),
            line("       2      15      85 atlamal.txt"),
            line("       3      24     130 total"),
        ]
    );
    assert_eq!(report.total, counts(3, 24, 130, 121));
}

#[test]
fn the_total_is_the_sum_of_the_inputs_for_each_metric() {
    let texts = [FOX, "", ATLAMAL, "no line feed", "\n\n\n", "日本語 テキスト\n"];
    let names: Vec<String> = (0..texts.len()).map(|i| format!("input{}", i)).collect();
    let each: Vec<FileInfo> = texts.iter().map(|text| wcr::count(text.as_bytes()).unwrap()).collect();
    let all = Config { files: names, lines: true, words: true, bytes: false, chars: true };
    let report = run(&all, &texts.iter().map(|text| read(text)).collect());
    assert_eq!(report.total.num_lines, each.iter().map(|info| info.num_lines).sum::<usize>());
    assert_eq!(report.total.num_words, each.iter().map(|info| info.num_words).sum::<usize>());
    assert_eq!(report.total.num_bytes, each.iter().map(|info| info.num_bytes).sum::<usize>());
    assert_eq!(report.total.num_chars, each.iter().map(|info| info.num_chars).sum::<usize>());
    assert_eq!(report.total, counts(8, 29, 168, 145));
    assert_eq!(report.outputs.len(), texts.len() + 1);
    assert_eq!(report.outputs[texts.len()], line("       8      29     145 total"));
}

#[test]
fn an_input_that_cannot_be_opened_is_reported_and_counts_nothing() {
    let report = run(&config(&["blargh"]), &vec![missing()]);
    assert_eq!(
        report,
        Report {
            outputs: vec![error("blargh: No such file or directory (os error 2)")],
            total: counts(0, 0, 0, 0),
        }
    );
}

#[test]
fn a_failed_input_leaves_the_others_their_total() {
    let report = run(&config(&["blargh", "fox.txt"]), &vec![missing(), read(FOX)]);
    assert_eq!(
        report.outputs,
        vec![
            error("blargh: No such file or directory (os error 2)"),
            line("       1       9      45 fox.txt"),
            line("       1       9      45 total"),
        ]
    );
    assert_eq!(report.total, counts(1, 9, 45, 45));

    let report = run(&config(&["fox.txt", "blargh"]), &vec![read(FOX), missing()]);
    assert_eq!(
        report.outputs,
        vec![
            line("       1       9      45 fox.txt"),
            error("blargh: No such file or directory (os error 2)"),
            line("       1       9      45 total"),
        ]
    );
    assert_eq!(report.total, counts(1, 9, 45, 45));
}

#[test]
fn bytes_that_are_no_text_fail_like_an_unreadable_input() {
    let report = run(&config(&["fox.txt", "raw.bin"]), &vec![read(FOX), Ok(vec![0x66, 0xff, 0x0a])]);
    assert_eq!(
        report.outputs,
        vec![
            line("       1       9      45 fox.txt"),
            error("raw.bin: stream did not contain valid UTF-8"),
            line("       1       9      45 total"),
        ]
    );
    assert_eq!(report.total, counts(1, 9, 45, 45));
}

#[test]
fn standard_input_is_reported_without_a_name() {
    let report = run(&config(&[]), &vec![read(FOX)]);
    assert_eq!(report.outputs, vec![line("       1       9      45")]);
    let report = run(&config(&["-", "fox.txt"]), &vec![read("hello\n"), read(FOX)]);
    assert_eq!(
        report.outputs,
        vec![
            line("       1       1       6"),
            line("       1       9      45 fox.txt"),
            line("       2      10      51 total"),
        ]
    );
}

#[test]
fn only_the_selected_metrics_are_reported() {
    let files = vec![String::from("atlamal.txt"), String::from("fox.txt")];
    let chars_and_lines = get_args(files, true, false, false, true).unwrap();
    let report = run(&chars_and_lines, &vec![read(ATLAMAL), read(FOX)]);
    assert_eq!(
        report.outputs,
        vec![
            line("       2      76 atlamal.txt"),
            line("       1      45 fox.txt"),
            line("       3     121 total"),
        ]
    );
}

#[test]
fn inputs_can_be_taken_one_at_a_time() {
    let two = config(&["fox.txt", "blargh"]);
    let mut total = FileInfo::zero();
    let first = report_input(&two, &mut total, "fox.txt", &read(FOX));
    assert_eq!(first, line("       1       9      45 fox.txt"));
    assert_eq!(total, counts(1, 9, 45, 45));
    let second = report_input(&two, &mut total, "blargh", &missing());
    assert_eq!(second, error("blargh: No such file or directory (os error 2)"));
    assert_eq!(total, counts(1, 9, 45, 45));
    let third = report_input(&two, &mut total, "again", &read(FOX));
    assert_eq!(third, line("       1       9      45 again"));
    assert_eq!(total, counts(2, 18, 90, 90));
    assert_eq!(report_total(&two, &total), Some(String::from("       2      18      90 total")));
}

#[test]
fn the_total_line_needs_more_than_one_input() {
    let total = counts(1, 9, 45, 45);
    assert_eq!(report_total(&config(&["fox.txt"]), &total), None);
    assert_eq!(report_total(&config(&[]), &total), None);
    assert_eq!(
        report_total(&config(&["fox.txt", "fox.txt"]), &total),
        Some(String::from("       1       9      45 total"))
    );
}

#[test]
fn an_empty_input_is_a_line_of_zeros() {
    let report = run(&config(&["empty.txt"]), &vec![read("")]);
    assert_eq!(
        report,
        Report { outputs: vec![line("       0       0       0 empty.txt")], total: counts(0, 0, 0, 0) }
    );
}
