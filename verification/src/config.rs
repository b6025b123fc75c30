use vstd::prelude::*;
use vstd::std_specs::iter::IteratorSpec;

verus! {

/// What to count and where: the inputs in the order given, and one switch
/// for each of the four metrics.
#[derive(Debug, PartialEq, Eq)]
pub struct Config {
    pub files: Vec<String>,
    pub lines: bool,
    pub words: bool,
    pub bytes: bool,
    pub chars: bool,
}

/// Why a selection of metrics is refused.
#[derive(Debug, Clone, Copy, PartialEq, Eq, Structural)]
pub enum UsageError {
    /// Bytes and characters were both asked for.
    ConflictingOptions,
}

impl UsageError {
    /// The refusal in words.
    pub open spec fn text(&self) -> Seq<char> {
        "The argument '--bytes' cannot be used with '--chars'"@
    }

    /// Says in words why the selection is refused.
    pub fn message(&self) -> (r: String)
        ensures
            r@ == self.text(),
    {
        "The argument '--bytes' cannot be used with '--chars'".to_owned()
    }
}

/// The name that stands for standard input.
pub open spec fn stdin_name() -> Seq<char> {
    seq!['-']
}

/// The inputs to process: the names given, or standard input alone where
/// none was given.
pub open spec fn input_list(names: Seq<Seq<char>>) -> Seq<Seq<char>> {
    if names.len() == 0 {
        seq![stdin_name()]
    } else {
        names
    }
}

/// The names in `files`, each as its characters.
pub open spec fn names_of(files: Seq<String>) -> Seq<Seq<char>> {
    Seq::new(files.len(), |i: int| files[i]@)
}

impl Config {
    /// The names of the inputs, each as its characters.
    pub open spec fn names(&self) -> Seq<Seq<char>> {
        names_of(self.files@)
    }

    /// A configuration as `get_args` makes it: some input, some metric,
    /// and never bytes together with characters.
    pub open spec fn wf(&self) -> bool {
        &&& self.files@.len() > 0
        &&& self.lines || self.words || self.bytes || self.chars
        &&& !(self.bytes && self.chars)
    }
}

/// Tells whether `name` stands for standard input.
pub fn is_stdin(name: &str) -> (r: bool)
    ensures
        r == (name@ == stdin_name()),
{
    broadcast use vstd::string::group_string_axioms;

    let mut rest = name.chars();
    assert(rest.remaining() == name@);
    match rest.next() {
        Some(first) => match rest.next() {
            Some(_) => false,
            None => {
                assert(name@ =~= seq![first]);
                first == '-'
            },
        },
        None => false,
    }
}

/// Resolves the switches and names of a command line into a configuration.
///
/// Bytes and characters exclude each other. Where no metric is chosen,
/// lines, words and bytes are. Where no input is named, standard input is.
pub fn get_args(files: Vec<String>, lines: bool, words: bool, bytes: bool, chars: bool) -> (r:
    Result<Config, UsageError>)
    ensures
        bytes && chars ==> r == Err::<Config, UsageError>(UsageError::ConflictingOptions),
        !(bytes && chars) ==> r is Ok,
        r matches Ok(c) ==> {
            let none = !lines && !words && !bytes && !chars;
            &&& c.wf()
            &&& c.names() == input_list(names_of(files@))
            &&& c.lines == (lines || none)
            &&& c.words == (words || none)
            &&& c.bytes == (bytes || none)
            &&& c.chars == chars
        },
{
    if bytes && chars {
        return Err(UsageError::ConflictingOptions);
    }
    let none = !lines && !words && !bytes && !chars;
    let ghost given = names_of(files@);
    let mut files = files;
    if files.len() == 0 {
        let dash = "-".to_owned();
        proof {
            reveal_strlit("-");
            assert(dash@ =~= stdin_name());
        }
        files.push(dash);
        assert(names_of(files@) =~= seq![stdin_name()]);
    }
    assert(names_of(files@) == input_list(given));
    Ok(Config { files, lines: lines || none, words: words || none, bytes: bytes || none, chars })
}

} // verus!
