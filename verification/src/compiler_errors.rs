//! What can go wrong when a program is built, and how it is told.

use vstd::prelude::*;
use vstd::string::*;

verus! {

/// Why a build fails. Paths and the errors of the system are told by their texts.
#[derive(Debug)]
pub enum CompilerError {
    SourceNotFound(String),
    NoSourceFiles,
    FailedToReadFile(String, String),
    FailedToAllocateBump,
    FailedToAllocateStringPool,
    InvalidFileName(Vec<u8>),
    ParserError(Vec<String>),
    TypeCheckError,
    FinishError(String),
    LinkFailed,
    InvalidModuleStructure { package_mismatches: usize, unresolved_imports: usize },
    CompilationAborted { reason: String },
}

/// A decimal digit.
pub open spec fn digit(value: int) -> char {
    if value == 0 {
        '0'
    } else if value == 1 {
        '1'
    } else if value == 2 {
        '2'
    } else if value == 3 {
        '3'
    } else if value == 4 {
        '4'
    } else if value == 5 {
        '5'
    } else if value == 6 {
        '6'
    } else if value == 7 {
        '7'
    } else if value == 8 {
        '8'
    } else {
        '9'
    }
}

/// A number in decimal notation.
pub open spec fn decimal(value: nat) -> Seq<char>
    decreases value,
{
    if value < 10 {
        seq![digit(value as int)]
    } else {
        decimal(value / 10).push(digit((value % 10) as int))
    }
}

fn append_digit(text: &mut String, value: usize)
    requires
        value < 10,
    ensures
        final(text)@ == old(text)@.push(digit(value as int)),
{
    let ghost before = text@;
    proof {
        reveal_strlit("0");
        reveal_strlit("1");
        reveal_strlit("2");
        reveal_strlit("3");
        reveal_strlit("4");
        reveal_strlit("5");
        reveal_strlit("6");
        reveal_strlit("7");
        reveal_strlit("8");
        reveal_strlit("9");
    }
    let symbol = match value {
        0 => "0",
        1 => "1",
        2 => "2",
        3 => "3",
        4 => "4",
        5 => "5",
        6 => "6",
        7 => "7",
        8 => "8",
        _ => "9",
    };
    text.append(symbol);
    assert(text@ == before.push(digit(value as int)));
}

/// Adds a number to a text, in decimal notation.
pub fn append_number(text: &mut String, value: usize)
    ensures
        final(text)@ == old(text)@ + decimal(value as nat),
{
    append_u64(text, value as u64);
}

pub fn append_u64(text: &mut String, value: u64)
    ensures
        final(text)@ == old(text)@ + decimal(value as nat),
    decreases value,
{
    let ghost before = text@;
    if value >= 10 {
        append_u64(text, value / 10);
    }
    append_digit(text, (value % 10) as usize);
    assert(text@ == before + decimal(value as nat));
}

/// The first texts of a list, with another text between each two.
pub open spec fn joined(texts: Seq<Seq<char>>, between: Seq<char>) -> Seq<char>
    decreases texts.len(),
{
    if texts.len() == 0 {
        Seq::empty()
    } else if texts.len() == 1 {
        texts[0]
    } else {
        joined(texts.drop_last(), between) + between + texts.last()
    }
}

pub open spec fn views(texts: Seq<String>) -> Seq<Seq<char>> {
    Seq::new(texts.len(), |i: int| texts[i]@)
}

/// The texts of a list with another text between each two.
pub fn join(texts: &Vec<String>, between: &str) -> (text: String)
    ensures
        text@ == joined(views(texts@), between@),
{
    let mut text = String::new();
    let mut done: usize = 0;
    while done < texts.len()
        invariant
            done <= texts.len(),
            text@ == joined(views(texts@).take(done as int), between@),
        decreases texts.len() - done,
    {
        let ghost before = text@;
        proof {
            let now = views(texts@).take(done + 1);
            assert(now.drop_last() == views(texts@).take(done as int));
            assert(now.last() == texts@[done as int]@);
        }
        if done > 0 {
            text.append(between);
        }
        text.append(texts[done].as_str());
        assert(text@ == joined(views(texts@).take(done + 1), between@)) by {
            let now = views(texts@).take(done + 1);
            if done > 0 {
                assert(text@ == before + between@ + now.last());
            } else {
                assert(text@ == now[0]);
            }
        }
        done = done + 1;
    }
    assert(views(texts@).take(texts@.len() as int) == views(texts@));
    text
}

/// How `std` shows a text in quotes.
pub uninterp spec fn quoted(text: Seq<char>) -> Seq<char>;

/// `format!` with `{:?}` of a string: the text in quotes, with what cannot stand there escaped.
#[verifier::external_body]
fn quote(text: &String) -> (result: String)
    ensures
        result@ == quoted(text@),
{
    format!("{:?}", text)
}

pub open spec fn numbers(bytes: Seq<u8>) -> Seq<Seq<char>> {
    Seq::new(bytes.len(), |i: int| decimal(bytes[i] as nat))
}

pub open spec fn quotes(texts: Seq<String>) -> Seq<Seq<char>> {
    Seq::new(texts.len(), |i: int| quoted(texts[i]@))
}

fn show_numbers(bytes: &Vec<u8>) -> (texts: Vec<String>)
    ensures
        views(texts@) == numbers(bytes@),
{
    let mut texts: Vec<String> = Vec::new();
    while texts.len() < bytes.len()
        invariant
            texts.len() <= bytes.len(),
            views(texts@) == numbers(bytes@).take(texts.len() as int),
        decreases bytes.len() - texts.len(),
    {
        let mut text = String::new();
        append_number(&mut text, bytes[texts.len()] as usize);
        let ghost before = texts@;
        let ghost shown = text@;
        texts.push(text);
        assert(views(texts@) == views(before).push(shown));
        assert(shown == decimal(bytes@[before.len() as int] as nat));
    }
    assert(views(texts@) == numbers(bytes@));
    texts
}

fn show_quotes(errors: &Vec<String>) -> (texts: Vec<String>)
    ensures
        views(texts@) == quotes(errors@),
{
    let mut texts: Vec<String> = Vec::new();
    while texts.len() < errors.len()
        invariant
            texts.len() <= errors.len(),
            views(texts@) == quotes(errors@).take(texts.len() as int),
        decreases errors.len() - texts.len(),
    {
        let text = quote(&errors[texts.len()]);
        let ghost before = texts@;
        let ghost shown = text@;
        texts.push(text);
        assert(views(texts@) == views(before).push(shown));
    }
    assert(views(texts@) == quotes(errors@));
    texts
}

/// A list as `std` shows it, given how its elements are shown.
pub open spec fn shown_list(texts: Seq<Seq<char>>) -> Seq<char> {
    "["@ + joined(texts, ", "@) + "]"@
}

impl CompilerError {
    /// How an error is told, given how its lists are shown.
    pub open spec fn message_with(self, list: Seq<Seq<char>>) -> Seq<char> {
        match self {
            CompilerError::SourceNotFound(path) => "Source not found: "@ + path@,
            CompilerError::NoSourceFiles => "No .zeta source files found"@,
            CompilerError::FailedToReadFile(path, error) => "Failed to read "@ + path@ + ": "@
                + error@,
            CompilerError::FailedToAllocateBump => "Failed to allocate bump arena"@,
            CompilerError::FailedToAllocateStringPool => "Failed to allocate string pool"@,
            CompilerError::InvalidFileName(_) => "Invalid file name bytes: "@ + shown_list(list),
            CompilerError::ParserError(_) => "Parser errors: "@ + shown_list(list),
            CompilerError::TypeCheckError => "Type check failed"@,
            CompilerError::FinishError(error) => "Backend finish error: "@ + error@,
            CompilerError::LinkFailed => "Backend could not link the stdlib to the binary."@,
            CompilerError::InvalidModuleStructure { package_mismatches, unresolved_imports } =>
                "invalid module structure "@ + decimal(package_mismatches as nat) + " "@ + decimal(
                unresolved_imports as nat,
            ),
            CompilerError::CompilationAborted { reason } => "Compilation aborted: "@ + reason@,
        }
    }

    /// The elements of the list of an error, as they are shown.
    pub open spec fn shown(self) -> Seq<Seq<char>> {
        match self {
            CompilerError::InvalidFileName(bytes) => numbers(bytes@),
            CompilerError::ParserError(errors) => quotes(errors@),
            _ => Seq::empty(),
        }
    }

    /// How an error is told.
    pub fn message(&self) -> (text: String)
        ensures
            text@ == self.message_with(self.shown()),
    {
        let shown: Vec<String> = match self {
            CompilerError::InvalidFileName(bytes) => show_numbers(bytes),
            CompilerError::ParserError(errors) => show_quotes(errors),
            _ => Vec::new(),
        };
        assert(views(shown@) == self.shown());
        self.message_of(&shown)
    }

    /// How an error is told, given how the elements of its list are shown.
    pub fn message_of(&self, shown: &Vec<String>) -> (text: String)
        ensures
            text@ == self.message_with(views(shown@)),
    {
        match self {
            CompilerError::SourceNotFound(path) => joint("Source not found: ", path.as_str()),
            CompilerError::NoSourceFiles => "No .zeta source files found".to_owned(),
            CompilerError::FailedToReadFile(path, error) => {
                let mut text = joint("Failed to read ", path.as_str());
                text.append(": ");
                text.append(error.as_str());
                text
            },
            CompilerError::FailedToAllocateBump => "Failed to allocate bump arena".to_owned(),
            CompilerError::FailedToAllocateStringPool => "Failed to allocate string pool".to_owned(),
            CompilerError::InvalidFileName(_) => show_list("Invalid file name bytes: ", shown),
            CompilerError::ParserError(_) => show_list("Parser errors: ", shown),
            CompilerError::TypeCheckError => "Type check failed".to_owned(),
            CompilerError::FinishError(error) => joint("Backend finish error: ", error.as_str()),
            CompilerError::LinkFailed => {
                "Backend could not link the stdlib to the binary.".to_owned()
            },
            CompilerError::InvalidModuleStructure { package_mismatches, unresolved_imports } => {
                let mut text = "invalid module structure ".to_owned();
                append_number(&mut text, *package_mismatches);
                text.append(" ");
                append_number(&mut text, *unresolved_imports);
                text
            },
            CompilerError::CompilationAborted { reason } => {
                joint("Compilation aborted: ", reason.as_str())
            },
        }
    }
}

fn joint(front: &str, back: &str) -> (text: String)
    ensures
        text@ == front@ + back@,
{
    let mut text = front.to_owned();
    text.append(back);
    text
}

fn show_list(front: &str, shown: &Vec<String>) -> (text: String)
    ensures
        text@ == front@ + shown_list(views(shown@)),
{
    let inner = join(shown, ", ");
    let mut text = joint(front, "[");
    text.append(inner.as_str());
    text.append("]");
    assert(text@ == front@ + shown_list(views(shown@)));
    text
}

} // verus!
