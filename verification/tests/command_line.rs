use remote_do::command::encode_command;
use remote_do::command::parse_command;
use remote_do::command::CommandParseError;

fn args(words: &[&str]) -> Vec<String> {
    words.iter().map(|w| w.to_string()).collect()
}

#[test]
fn quotes_are_removed_by_splitting() {
    let payload: Vec<u8> = b"a 'b c'".to_vec();
    let cmd = parse_command("prog".to_string(), &payload).unwrap();
    assert_eq!(cmd.program, "prog");
    assert_eq!(cmd.args, args(&["a", "b c"]));
}

#[test]
fn whitespace_separates_words() {
    let payload: Vec<u8> = b"echo hello".to_vec();
    let cmd = parse_command("sh".to_string(), &payload).unwrap();
    assert_eq!(cmd.args, args(&["echo", "hello"]));
}

#[test]
fn unmatched_quote_is_rejected() {
    let payload: Vec<u8> = b"echo 'oops".to_vec();
    assert_eq!(
        parse_command("sh".to_string(), &payload).unwrap_err(),
        CommandParseError::UnmatchedQuote
    );
}

#[test]
fn invalid_utf8_is_rejected() {
    let payload: Vec<u8> = vec![0x66, 0x6f, 0x80, 0xff];
    assert_eq!(
        parse_command("sh".to_string(), &payload).unwrap_err(),
        CommandParseError::InvalidUtf8
    );
}

#[test]
fn joined_arguments_round_trip() {
    // A word with a space must be quoted by the encoder: handing the words
    // through unquoted would split into four words, not three.
    let original = args(&["echo", "hello world", "it's"]);
    let payload = encode_command(&original);
    let cmd = parse_command("prog".to_string(), &payload).unwrap();
    assert_eq!(cmd.args, original);
}

#[test]
fn empty_argument_vector_round_trips() {
    let original: Vec<String> = Vec::new();
    let payload = encode_command(&original);
    let cmd = parse_command("prog".to_string(), &payload).unwrap();
    assert_eq!(cmd.args, original);
}

#[test]
fn multibyte_text_round_trips() {
    let original = args(&["printf", "naïve ≤ übermaß"]);
    let payload = encode_command(&original);
    let cmd = parse_command("prog".to_string(), &payload).unwrap();
    assert_eq!(cmd.args, original);
}
