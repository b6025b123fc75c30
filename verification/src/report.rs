use crate::config::Config;
use crate::render::{failure_line, format_failure, format_line, report_line, total_name};
use crate::text::{count, counts_of, Counts, FileInfo, ReadError};
use vstd::prelude::*;
use vstd::utf8::{decode_utf8, valid_utf8};

verus! {

/// One line of what a run says, with the channel it goes to.
#[derive(Debug, PartialEq, Eq)]
pub enum Output {
    /// A line of counts, for standard output.
    Line(String),
    /// The account of an input that failed, for the error channel.
    Error(String),
}

/// An `Output` with its line as characters.
pub enum Rendered {
    Line(Seq<char>),
    Error(Seq<char>),
}

impl View for Output {
    type V = Rendered;

    open spec fn view(&self) -> Rendered {
        match self {
            Output::Line(line) => Rendered::Line(line@),
            Output::Error(line) => Rendered::Error(line@),
        }
    }
}

/// What a run over several inputs says, in order, and the sums it reached.
#[derive(Debug, PartialEq, Eq)]
pub struct Report {
    pub outputs: Vec<Output>,
    pub total: FileInfo,
}

/// What one input comes to: the counts of its text, or the words for why
/// it has none. `content` is what reading the input gave.
pub open spec fn outcome(content: Result<Vec<u8>, ReadError>) -> Result<Counts, Seq<char>> {
    match content {
        Ok(bytes) => if valid_utf8(bytes@) {
            Ok(counts_of(decode_utf8(bytes@)))
        } else {
            Err(ReadError::InvalidEncoding.text())
        },
        Err(error) => Err(error.text()),
    }
}

/// What one input adds to the running total: its counts, or nothing where
/// it failed.
pub open spec fn gained(content: Result<Vec<u8>, ReadError>) -> Counts {
    match outcome(content) {
        Ok(counts) => counts,
        Err(_) => Counts::zero(),
    }
}

/// What is said of the input `name`: its line of counts, or its name, a
/// colon and why it failed.
pub open spec fn output_for(config: Config, name: Seq<char>, content: Result<Vec<u8>, ReadError>)
    -> Rendered {
    match outcome(content) {
        Ok(counts) => Rendered::Line(report_line(config, counts, name)),
        Err(why) => Rendered::Error(failure_line(name, why)),
    }
}

/// The sum of what each of `contents` adds to the running total.
pub open spec fn sum_counts(contents: Seq<Result<Vec<u8>, ReadError>>) -> Counts
    decreases contents.len(),
{
    if contents.len() == 0 {
        Counts::zero()
    } else {
        sum_counts(contents.drop_last()).plus(gained(contents.last()))
    }
}

/// The number of bytes that one input holds, none where reading failed.
pub open spec fn content_len(content: Result<Vec<u8>, ReadError>) -> nat {
    match content {
        Ok(bytes) => bytes@.len(),
        Err(_) => 0,
    }
}

/// The number of bytes that all of `contents` hold together.
pub open spec fn total_len(contents: Seq<Result<Vec<u8>, ReadError>>) -> nat
    decreases contents.len(),
{
    if contents.len() == 0 {
        0
    } else {
        total_len(contents.drop_last()) + content_len(contents.last())
    }
}

/// Takes one input into the run: adds its counts to `total` and renders
/// its line, or renders why it failed and leaves `total` as it was.
pub fn report_input(
    config: &Config,
    total: &mut FileInfo,
    name: &str,
    content: &Result<Vec<u8>, ReadError>,
) -> (out: Output)
    requires
        old(total)@.within(usize::MAX - content_len(*content)),
    ensures
        final(total)@ == old(total)@.plus(gained(*content)),
        out@ == output_for(*config, name@, *content),
{
    match content {
        Ok(bytes) => match count(bytes.as_slice()) {
            Ok(info) => {
                total.add(&info);
                Output::Line(format_line(config, &info, name))
            },
            Err(error) => Output::Error(format_failure(name, &error)),
        },
        Err(error) => Output::Error(format_failure(name, error)),
    }
}

/// Renders the line of sums that ends a run over more than one input.
/// A run over one input has no such line.
pub fn report_total(config: &Config, total: &FileInfo) -> (r: Option<String>)
    ensures
        r is Some <==> config.files@.len() > 1,
        r matches Some(line) ==> line@ == report_line(*config, total@, total_name()),
{
    if config.files.len() > 1 {
        proof {
            reveal_strlit("total");
            assert("total"@ =~= total_name());
        }
        Some(format_line(config, total, "total"))
    } else {
        None
    }
}

/// One more input adds to the sum what it gains, and an input that
/// failed adds nothing.
pub proof fn lemma_sum_counts_push(
    contents: Seq<Result<Vec<u8>, ReadError>>,
    content: Result<Vec<u8>, ReadError>,
)
    ensures
        sum_counts(contents.push(content)) == sum_counts(contents).plus(gained(content)),
        outcome(content) is Err ==> sum_counts(contents.push(content)) == sum_counts(contents),
{
    assert(contents.push(content).drop_last() =~= contents);
}

/// The bytes of the first `n` inputs are no more than those of all.
proof fn lemma_total_len_prefix(contents: Seq<Result<Vec<u8>, ReadError>>, n: int)
    requires
        0 <= n <= contents.len(),
    ensures
        total_len(contents.take(n)) <= total_len(contents),
    decreases contents.len(),
{
    if n < contents.len() {
        lemma_total_len_prefix(contents.drop_last(), n);
        assert(contents.drop_last().take(n) =~= contents.take(n));
    } else {
        assert(contents.take(n) =~= contents);
    }
}

/// What an input adds to any count is no more than the bytes it holds.
pub proof fn lemma_gained_within_len(content: Result<Vec<u8>, ReadError>)
    ensures
        gained(content).within(content_len(content) as int),
{
    if let Ok(bytes) = content {
        if valid_utf8(bytes@) {
            let text = decode_utf8(bytes@);
            vstd::utf8::decode_utf8_encode_utf8(bytes@);
            crate::text::lemma_counts_le_chars(text);
            crate::text::lemma_chars_le_bytes(text);
        }
    }
}

/// Runs over the inputs of `config`, of which `contents` holds what
/// reading each gave: says one line for each input in order, then the
/// line of sums where there is more than one input.
pub fn run(config: &Config, contents: &Vec<Result<Vec<u8>, ReadError>>) -> (report: Report)
    requires
        contents@.len() == config.files@.len(),
        total_len(contents@) <= usize::MAX,
    ensures
        report.total@ == sum_counts(contents@),
        report.outputs@.len() == contents@.len() + (if contents@.len() > 1 {
            1int
        } else {
            0int
        }),
        forall|i: int|
            0 <= i < contents@.len() ==> (#[trigger] report.outputs@[i])@ == output_for(
                *config,
                config.names()[i],
                contents@[i],
            ),
        contents@.len() > 1 ==> report.outputs@[contents@.len() as int]@ == Rendered::Line(
            report_line(*config, sum_counts(contents@), total_name()),
        ),
{
    let mut total = FileInfo::zero();
    let mut outputs: Vec<Output> = Vec::new();
    let mut done: usize = 0;
    while done < contents.len()
        invariant
            done <= contents@.len() == config.files@.len(),
            total_len(contents@) <= usize::MAX,
            total@ == sum_counts(contents@.take(done as int)),
            total@.within(total_len(contents@.take(done as int)) as int),
            outputs@.len() == done,
            forall|i: int|
                0 <= i < done ==> (#[trigger] outputs@[i])@ == output_for(
                    *config,
                    config.names()[i],
                    contents@[i],
                ),
        decreases contents@.len() - done,
    {
        proof {
            let seen = contents@.take(done as int);
            assert(contents@.take(done + 1) =~= seen.push(contents@[done as int]));
            assert(seen.push(contents@[done as int]).drop_last() =~= seen);
            lemma_sum_counts_push(seen, contents@[done as int]);
            lemma_total_len_prefix(contents@, done + 1);
            lemma_gained_within_len(contents@[done as int]);
        }
        let out = report_input(config, &mut total, config.files[done].as_str(), &contents[done]);
        outputs.push(out);
        done = done + 1;
    }
    proof {
        assert(contents@.take(done as int) =~= contents@);
    }
    match report_total(config, &total) {
        Some(line) => outputs.push(Output::Line(line)),
        None => {},
    }
    Report { outputs, total }
}

} // verus!
