use vstd::prelude::*;
use vstd::std_specs::iter::IteratorSpec;
use vstd::string::StringSliceAdditionalSpecFns;
use vstd::utf8::{decode_utf8, encode_utf8, valid_utf8};

verus! {

/// The four counts taken from one input, or summed over several.
#[derive(Debug, Clone, Copy, PartialEq, Eq, Structural)]
pub struct FileInfo {
    pub num_lines: usize,
    pub num_words: usize,
    pub num_bytes: usize,
    pub num_chars: usize,
}

/// Four counts as numbers without a bound: what a `FileInfo` stands for.
pub struct Counts {
    pub lines: nat,
    pub words: nat,
    pub bytes: nat,
    pub chars: nat,
}

impl Counts {
    /// The counts of nothing.
    pub open spec fn zero() -> Counts {
        Counts { lines: 0, words: 0, bytes: 0, chars: 0 }
    }

    /// The sum of two counts, metric by metric.
    pub open spec fn plus(self, other: Counts) -> Counts {
        Counts {
            lines: self.lines + other.lines,
            words: self.words + other.words,
            bytes: self.bytes + other.bytes,
            chars: self.chars + other.chars,
        }
    }

    /// No count is above `limit`.
    pub open spec fn within(self, limit: int) -> bool {
        self.lines <= limit && self.words <= limit && self.bytes <= limit && self.chars <= limit
    }
}

impl View for FileInfo {
    type V = Counts;

    open spec fn view(&self) -> Counts {
        Counts {
            lines: self.num_lines as nat,
            words: self.num_words as nat,
            bytes: self.num_bytes as nat,
            chars: self.num_chars as nat,
        }
    }
}

/// Why an input gave no counts.
#[derive(Debug, PartialEq, Eq)]
pub enum ReadError {
    /// The input could not be opened or read to its end; holds the system's
    /// account of the failure.
    Unreadable(String),
    /// The input's bytes are not well-formed UTF-8.
    InvalidEncoding,
}

/// What is said of bytes that are not well-formed UTF-8.
pub open spec fn invalid_encoding_text() -> Seq<char> {
    "stream did not contain valid UTF-8"@
}

impl ReadError {
    /// The failure in words.
    pub open spec fn text(&self) -> Seq<char> {
        match self {
            ReadError::Unreadable(account) => account@,
            ReadError::InvalidEncoding => invalid_encoding_text(),
        }
    }

    /// Says in words why the input gave no counts.
    pub fn message(&self) -> (r: String)
        ensures
            r@ == self.text(),
    {
        match self {
            ReadError::Unreadable(account) => account.clone(),
            ReadError::InvalidEncoding => "stream did not contain valid UTF-8".to_owned(),
        }
    }
}

impl FileInfo {
    /// The counts of nothing: where a running total starts.
    pub fn zero() -> (r: FileInfo)
        ensures
            r@ == Counts::zero(),
    {
        FileInfo { num_lines: 0, num_words: 0, num_bytes: 0, num_chars: 0 }
    }

    /// Tells whether each count can grow by `n` and still be held.
    pub fn has_room(&self, n: usize) -> (r: bool)
        ensures
            r == self@.within(usize::MAX - n),
    {
        let limit = usize::MAX - n;
        self.num_lines <= limit && self.num_words <= limit && self.num_bytes <= limit
            && self.num_chars <= limit
    }

    /// Adds the counts of one more input to a running total.
    pub fn add(&mut self, other: &FileInfo)
        requires
            old(self)@.plus(other@).within(usize::MAX as int),
        ensures
            final(self)@ == old(self)@.plus(other@),
    {
        self.num_lines = self.num_lines + other.num_lines;
        self.num_words = self.num_words + other.num_words;
        self.num_bytes = self.num_bytes + other.num_bytes;
        self.num_chars = self.num_chars + other.num_chars;
    }
}

/// Whether `c` separates words: the characters to which Unicode gives the
/// property White_Space.
pub open spec fn spec_is_whitespace(c: char) -> bool {
    let u = c as u32;
    ||| 0x09 <= u <= 0x0D
    ||| u == 0x20
    ||| u == 0x85
    ||| u == 0xA0
    ||| u == 0x1680
    ||| 0x2000 <= u <= 0x200A
    ||| u == 0x2028
    ||| u == 0x2029
    ||| u == 0x202F
    ||| u == 0x205F
    ||| u == 0x3000
}

/// Tells whether `c` separates words.
#[verifier::when_used_as_spec(spec_is_whitespace)]
pub fn is_whitespace(c: char) -> (r: bool)
    ensures
        r == spec_is_whitespace(c),
{
    let u: u32 = c as u32;
    (0x09 <= u && u <= 0x0D) || u == 0x20 || u == 0x85 || u == 0xA0 || u == 0x1680 || (0x2000 <= u
        && u <= 0x200A) || u == 0x2028 || u == 0x2029 || u == 0x202F || u == 0x205F || u == 0x3000
}

/// A line ends at position `i`: at every line feed, and at the last
/// character of the text whatever it is.
pub open spec fn ends_line(text: Seq<char>, i: int) -> bool {
    0 <= i < text.len() && (text[i] == '\n' || i == text.len() - 1)
}

/// A word starts at position `i`: at a character that is no whitespace and
/// that stands first in the text or behind whitespace.
pub open spec fn starts_word(text: Seq<char>, i: int) -> bool {
    0 <= i < text.len() && !is_whitespace(text[i]) && (i == 0 || is_whitespace(text[i - 1]))
}

/// The positions at which a line of `text` ends.
pub open spec fn line_ends(text: Seq<char>) -> Set<int> {
    Set::new(|i: int| ends_line(text, i))
}

/// The positions at which a word of `text` starts.
pub open spec fn word_starts(text: Seq<char>) -> Set<int> {
    Set::new(|i: int| starts_word(text, i))
}

/// The number of lines of `text`: a line feed ends a line, a carriage
/// return before it belongs to that line, and what follows the last line
/// feed is a line where it is not empty.
pub open spec fn line_count(text: Seq<char>) -> nat {
    line_ends(text).len()
}

/// The number of words of `text`: the maximal runs of characters that are
/// no whitespace.
pub open spec fn word_count(text: Seq<char>) -> nat {
    word_starts(text).len()
}

/// The counts of `text`: its lines, its words, the bytes of its UTF-8
/// encoding and its characters.
pub open spec fn counts_of(text: Seq<char>) -> Counts {
    Counts {
        lines: line_count(text),
        words: word_count(text),
        bytes: encode_utf8(text).len(),
        chars: text.len(),
    }
}

/// The line feeds of `text` before position `n`.
spec fn feeds_before(text: Seq<char>, n: int) -> Set<int> {
    Set::new(|i: int| 0 <= i < n && i < text.len() && text[i] == '\n')
}

/// The word starts of `text` before position `n`.
spec fn starts_before(text: Seq<char>, n: int) -> Set<int> {
    Set::new(|i: int| 0 <= i < n && starts_word(text, i))
}

/// Taking position `n` into a set of positions below `n`, or leaving it
/// out, changes the set's size by one or not at all.
proof fn lemma_next_position(before: Set<int>, after: Set<int>, n: int, hit: bool)
    requires
        before.finite(),
        !before.contains(n),
        after =~= (if hit {
            before.insert(n)
        } else {
            before
        }),
    ensures
        after.finite(),
        after.len() == before.len() + (if hit {
            1int
        } else {
            0int
        }),
{
}

/// No text has more characters than its UTF-8 encoding has bytes.
pub proof fn lemma_chars_le_bytes(text: Seq<char>)
    ensures
        text.len() <= encode_utf8(text).len(),
    decreases text.len(),
{
    if text.len() > 0 {
        lemma_chars_le_bytes(text.drop_first());
    }
}

/// No text has more lines, or more words, than characters.
pub proof fn lemma_counts_le_chars(text: Seq<char>)
    ensures
        line_count(text) <= text.len(),
        word_count(text) <= text.len(),
{
    let positions = vstd::set_lib::set_int_range(0, text.len() as int);
    vstd::set_lib::lemma_int_range(0, text.len() as int);
    assert(line_ends(text).subset_of(positions));
    assert(word_starts(text).subset_of(positions));
    vstd::set_lib::lemma_len_subset(line_ends(text), positions);
    vstd::set_lib::lemma_len_subset(word_starts(text), positions);
}

/// Counts the lines, words, bytes and characters of `text`.
pub fn count_text(text: &str) -> (info: FileInfo)
    ensures
        info@ == counts_of(text@),
        info.num_lines <= info.num_chars,
        info.num_words <= info.num_chars,
        info.num_chars <= info.num_bytes,
{
    let num_bytes = text.as_bytes().len();
    proof {
        lemma_chars_le_bytes(text@);
        assert(feeds_before(text@, 0) =~= Set::empty());
        assert(starts_before(text@, 0) =~= Set::empty());
    }
    let mut feeds: usize = 0;
    let mut num_words: usize = 0;
    let mut num_chars: usize = 0;
    let mut in_word = false;
    let mut open_line = false;
    for c in it: text.chars()
        invariant
            it.seq() == text@,
            text@.len() <= usize::MAX,
            num_chars == it.index(),
            feeds_before(text@, it.index() as int).finite(),
            feeds == feeds_before(text@, it.index() as int).len(),
            feeds + (if open_line {
                1int
            } else {
                0int
            }) <= it.index(),
            starts_before(text@, it.index() as int).finite(),
            num_words == starts_before(text@, it.index() as int).len(),
            num_words <= it.index(),
            in_word == (it.index() > 0 && !is_whitespace(text@[it.index() - 1])),
            open_line == (it.index() > 0 && text@[it.index() - 1] != '\n'),
    {
        let ghost at = it.index() as int;
        let space = is_whitespace(c);
        let feed = c == '\n';
        proof {
            lemma_next_position(feeds_before(text@, at), feeds_before(text@, at + 1), at, feed);
            lemma_next_position(
                starts_before(text@, at),
                starts_before(text@, at + 1),
                at,
                !space && !in_word,
            );
        }
        if feed {
            feeds = feeds + 1;
        }
        if !space && !in_word {
            num_words = num_words + 1;
        }
        in_word = !space;
        open_line = !feed;
        num_chars = num_chars + 1;
    }
    let ghost len = text@.len() as int;
    proof {
        assert(starts_before(text@, len) =~= word_starts(text@));
        if open_line {
            lemma_next_position(feeds_before(text@, len), line_ends(text@), len - 1, true);
        } else {
            assert(line_ends(text@) =~= feeds_before(text@, len));
        }
    }
    let num_lines = if open_line {
        feeds + 1
    } else {
        feeds
    };
    FileInfo { num_lines, num_words, num_bytes, num_chars }
}

/// The error of `core::str::from_utf8`: where and why bytes are no UTF-8.
#[verifier::external_type_specification]
#[verifier::external_body]
pub struct ExUtf8Error(core::str::Utf8Error);

/// Taken on trust of `core::str::from_utf8`: it succeeds on well-formed
/// UTF-8 and on nothing else, and the string it gives is made of the very
/// bytes it was given.
pub assume_specification[ core::str::from_utf8 ](v: &[u8]) -> (r: Result<
    &str,
    core::str::Utf8Error,
>)
    ensures
        r is Ok <==> valid_utf8(v@),
        r matches Ok(text) ==> text.spec_bytes() == v@,
;

/// Decodes `bytes` as UTF-8 and counts the lines, words, bytes and
/// characters of the text. Bytes that are no well-formed UTF-8 give
/// `InvalidEncoding`.
pub fn count(bytes: &[u8]) -> (r: Result<FileInfo, ReadError>)
    ensures
        valid_utf8(bytes@) ==> r is Ok,
        !valid_utf8(bytes@) ==> r == Err::<FileInfo, ReadError>(ReadError::InvalidEncoding),
        r matches Ok(info) ==> {
            &&& info@ == counts_of(decode_utf8(bytes@))
            &&& info.num_bytes == bytes@.len()
            &&& info.num_lines <= info.num_chars
            &&& info.num_words <= info.num_chars
            &&& info.num_chars <= info.num_bytes
        },
{
    match core::str::from_utf8(bytes) {
        Ok(text) => {
            proof {
                vstd::utf8::encode_utf8_decode_utf8(text@);
            }
            Ok(count_text(text))
        },
        Err(_) => Err(ReadError::InvalidEncoding),
    }
}

} // verus!
