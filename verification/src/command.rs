//! The Command Channel's argument payload.
//!
//! The initiator joins its arguments into one shell-escaped UTF-8 line and
//! sends its bytes; the responder reads them to end-of-stream, decodes them
//! as UTF-8, splits the line under shell-word rules, and constructs (but
//! does not yet start) the child process with the resulting argument vector.
use vstd::prelude::*;

verus! {

/// What `shell_words::split` yields on a command line: the argument words
/// after shell-style tokenization and quote removal, or nothing when the
/// line holds an unmatched quote.
pub uninterp spec fn shell_split(line: Seq<char>) -> Option<Seq<Seq<char>>>;

/// What `shell_words::join` yields on an argument vector: one command line
/// quoting each word so that splitting recovers the words exactly.
pub uninterp spec fn shell_join(words: Seq<Seq<char>>) -> Seq<char>;

/// What UTF-8 decoding yields on a byte buffer: the text, when the bytes
/// are valid UTF-8.
pub uninterp spec fn utf8_decode(bytes: Seq<u8>) -> Option<Seq<char>>;

/// The character sequences of an argument vector.
pub open spec fn word_views(words: Seq<String>) -> Seq<Seq<char>> {
    words.map_values(|w: String| w@)
}

#[verifier::external_type_specification]
#[verifier::external_body]
pub struct ExParseError(shell_words::ParseError);

/// Relies on `shell_words::split`: POSIX-shell word splitting with quote
/// removal, failing exactly on an unmatched quote.
#[verifier::external_body]
fn split_line(line: &String) -> (r: Result<Vec<String>, shell_words::ParseError>)
    ensures
        match r {
            Ok(words) => shell_split(line@) == Some(word_views(words@)),
            Err(_) => shell_split(line@) is None,
        },
{
    shell_words::split(line)
}

/// Relies on `shell_words::join`: quotes each word so it keeps its literal
/// meaning in a command line; the crate documents `join` as the inverse of
/// `split`, so splitting the joined line recovers exactly the words.
#[verifier::external_body]
fn join_words(words: &Vec<String>) -> (r: String)
    ensures
        r@ == shell_join(word_views(words@)),
        shell_split(r@) == Some(word_views(words@)),
{
    shell_words::join(words)
}

/// Relies on `core::str::from_utf8`: yields the text exactly when the bytes
/// are valid UTF-8.
#[verifier::external_body]
fn decode_utf8(bytes: &Vec<u8>) -> (r: Option<String>)
    ensures
        match r {
            Some(s) => utf8_decode(bytes@) == Some(s@),
            None => utf8_decode(bytes@) is None,
        },
{
    match core::str::from_utf8(bytes.as_slice()) {
        Ok(s) => Some(s.to_string()),
        Err(_) => None,
    }
}

/// Relies on `str::as_bytes`: std documents `from_utf8` of `as_bytes` as
/// yielding the original string, so these bytes decode back to `s`.
#[verifier::external_body]
fn utf8_bytes(s: &String) -> (r: Vec<u8>)
    ensures
        utf8_decode(r@) == Some(s@),
{
    s.as_bytes().to_vec()
}

/// A constructed-but-not-started child process: the configured target
/// program and the decoded argument vector, each standard stream piped.
#[derive(Debug)]
pub struct CommandSpec {
    pub program: String,
    pub args: Vec<String>,
}

/// Why the responder refuses a Command Channel payload.
#[derive(PartialEq, Eq, Structural, Clone, Copy, Debug)]
pub enum CommandParseError {
    /// The payload is not valid UTF-8.
    InvalidUtf8,
    /// The decoded line holds an unmatched quote.
    UnmatchedQuote,
}

/// The argument vector a Command Channel payload denotes, when its bytes
/// are valid UTF-8 and the decoded line splits under shell-word rules.
pub open spec fn parsed_words(payload: Seq<u8>) -> Option<Seq<Seq<char>>> {
    match utf8_decode(payload) {
        Some(line) => shell_split(line),
        None => None,
    }
}

/// Decode the Command Channel payload, split it under shell-word rules, and
/// construct the child's command: the configured target program with the
/// decoded words as its argument vector.  Fails exactly on bytes that are
/// not UTF-8, or on a decoded line with an unmatched quote.
pub fn parse_command(program: String, payload: &Vec<u8>) -> (r: Result<
    CommandSpec,
    CommandParseError,
>)
    ensures
        match r {
            Ok(cmd) => cmd.program@ == program@ && parsed_words(payload@) == Some(
                word_views(cmd.args@),
            ),
            Err(CommandParseError::InvalidUtf8) => utf8_decode(payload@) is None,
            Err(CommandParseError::UnmatchedQuote) => utf8_decode(payload@) is Some
                && parsed_words(payload@) is None,
        },
{
    let line = match decode_utf8(payload) {
        Some(l) => l,
        None => {
            return Err(CommandParseError::InvalidUtf8);
        },
    };
    let args = match split_line(&line) {
        Ok(w) => w,
        Err(_) => {
            return Err(CommandParseError::UnmatchedQuote);
        },
    };
    Ok(CommandSpec { program, args })
}

/// Join the initiator's arguments into the Command Channel payload: one
/// UTF-8 shell-escaped argument line whose decoding and splitting on the
/// responder recovers exactly those arguments.
pub fn encode_command(args: &Vec<String>) -> (r: Vec<u8>)
    ensures
        parsed_words(r@) == Some(word_views(args@)),
{
    let line = join_words(args);
    utf8_bytes(&line)
}

} // verus!
