use crate::config::{is_stdin, stdin_name, Config};
use crate::text::{Counts, FileInfo, ReadError};
use vstd::prelude::*;
use vstd::string::StringExecFns;

verus! {

/// The width to which every count is padded.
pub const FIELD_WIDTH: usize = 8;

/// The character of the decimal digit `d`.
pub open spec fn digit(d: nat) -> char
    recommends
        d < 10,
{
    ('0' as u8 + d) as char
}

/// The decimal digits of `n`, the most significant first.
pub open spec fn decimal(n: nat) -> Seq<char>
    decreases n,
{
    if n < 10 {
        seq![digit(n)]
    } else {
        decimal(n / 10).push(digit(n % 10))
    }
}

/// `k` spaces.
pub open spec fn spaces(k: nat) -> Seq<char> {
    Seq::new(k, |i: int| ' ')
}

/// A count as it is printed: its decimal digits, with spaces before them
/// where they are fewer than `FIELD_WIDTH`.
pub open spec fn field(n: nat) -> Seq<char> {
    let digits = decimal(n);
    if digits.len() < FIELD_WIDTH {
        spaces((FIELD_WIDTH - digits.len()) as nat) + digits
    } else {
        digits
    }
}

/// The field of `n` where `chosen`, nothing where not.
pub open spec fn field_if(chosen: bool, n: nat) -> Seq<char> {
    if chosen {
        field(n)
    } else {
        Seq::empty()
    }
}

/// The fields of the metrics that `config` selects, in the order lines,
/// words, bytes, characters, with nothing between them.
pub open spec fn fields(config: Config, counts: Counts) -> Seq<char> {
    field_if(config.lines, counts.lines) + field_if(config.words, counts.words) + field_if(
        config.bytes,
        counts.bytes,
    ) + field_if(config.chars, counts.chars)
}

/// One line of the report: the selected fields, then a space and `name`,
/// unless `name` stands for standard input.
pub open spec fn report_line(config: Config, counts: Counts, name: Seq<char>) -> Seq<char> {
    if name == stdin_name() {
        fields(config, counts)
    } else {
        fields(config, counts) + seq![' '] + name
    }
}

/// What is said of an input that gave no counts: its name, a colon and
/// the failure in words.
pub open spec fn failure_line(name: Seq<char>, why: Seq<char>) -> Seq<char> {
    name + seq![':', ' '] + why
}

/// The name under which the sums over all inputs are reported.
pub open spec fn total_name() -> Seq<char> {
    seq!['t', 'o', 't', 'a', 'l']
}

/// The numeral of the digit `d`.
fn numeral(d: usize) -> (r: &'static str)
    requires
        d < 10,
    ensures
        r@ == seq![digit(d as nat)],
{
    proof {
        reveal_strlit("0");
        reveal_strlit("1");
        reveal_strlit("2");
        reveal_strlit("3");
        reveal_strlit("4");
        reveal_strlit("5");
        reveal_strlit("6");
        reveal_strlit("7");
        reveal_strlit("8");
        reveal_strlit("9");
    }
    let r = if d == 0 {
        "0"
    } else if d == 1 {
        "1"
    } else if d == 2 {
        "2"
    } else if d == 3 {
        "3"
    } else if d == 4 {
        "4"
    } else if d == 5 {
        "5"
    } else if d == 6 {
        "6"
    } else if d == 7 {
        "7"
    } else if d == 8 {
        "8"
    } else {
        "9"
    };
    assert(r@ =~= seq![digit(d as nat)]);
    r
}

/// The number of decimal digits of `n`.
fn decimal_len(n: usize) -> (r: usize)
    ensures
        r == decimal(n as nat).len(),
        r <= 1 || r <= n,
    decreases n,
{
    if n < 10 {
        1
    } else {
        1 + decimal_len(n / 10)
    }
}

/// Appends the decimal digits of `n` to `out`.
fn push_decimal(out: &mut String, n: usize)
    ensures
        final(out)@ == old(out)@ + decimal(n as nat),
    decreases n,
{
    if n >= 10 {
        push_decimal(out, n / 10);
    }
    out.append(numeral(n % 10));
}

/// Appends the field of `n` to `out`.
fn push_field(out: &mut String, n: usize)
    ensures
        final(out)@ == old(out)@ + field(n as nat),
{
    let width = decimal_len(n);
    let mut padded: usize = width;
    while padded < FIELD_WIDTH
        invariant
            width <= padded,
            width < FIELD_WIDTH ==> padded <= FIELD_WIDTH,
            width >= FIELD_WIDTH ==> padded == width,
            out@ == old(out)@ + spaces((padded - width) as nat),
        decreases FIELD_WIDTH - padded,
    {
        proof {
            reveal_strlit(" ");
        }
        out.append(" ");
        padded = padded + 1;
    }
    push_decimal(out, n);
    assert(out@ =~= old(out)@ + field(n as nat));
}

/// Renders the counts that `config` selects from `info`.
pub fn format_counts(config: &Config, info: &FileInfo) -> (r: String)
    ensures
        r@ == fields(*config, info@),
{
    let mut out = String::new();
    if config.lines {
        push_field(&mut out, info.num_lines);
    }
    if config.words {
        push_field(&mut out, info.num_words);
    }
    if config.bytes {
        push_field(&mut out, info.num_bytes);
    }
    if config.chars {
        push_field(&mut out, info.num_chars);
    }
    out
}

/// Renders the report's line for the input `name` with the counts `info`.
pub fn format_line(config: &Config, info: &FileInfo, name: &str) -> (r: String)
    ensures
        r@ == report_line(*config, info@, name@),
{
    let mut out = format_counts(config, info);
    if !is_stdin(name) {
        proof {
            reveal_strlit(" ");
        }
        out.append(" ");
        out.append(name);
    }
    out
}

/// Renders what is said of the input `name` that failed with `error`.
pub fn format_failure(name: &str, error: &ReadError) -> (r: String)
    ensures
        r@ == failure_line(name@, error.text()),
{
    let mut out = name.to_owned();
    proof {
        reveal_strlit(": ");
    }
    out.append(": ");
    out.append(error.message().as_str());
    assert(out@ =~= failure_line(name@, error.text()));
    out
}

} // verus!
