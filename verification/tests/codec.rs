use remote_do::exit_code::decode_exit_code;
use remote_do::exit_code::encode_exit_code;
use remote_do::exit_code::DecodeExitError;

#[test]
fn exit_code_zero_round_trips() {
    assert_eq!(decode_exit_code(&encode_exit_code(0)), Ok(0));
}

#[test]
fn exit_code_one_round_trips() {
    assert_eq!(decode_exit_code(&encode_exit_code(1)), Ok(1));
}

#[test]
fn exit_code_255_round_trips() {
    assert_eq!(decode_exit_code(&encode_exit_code(255)), Ok(255));
}

#[test]
fn exit_code_encoding_is_big_endian() {
    assert_eq!(encode_exit_code(0), vec![0, 0, 0, 0]);
    assert_eq!(encode_exit_code(1), vec![0, 0, 0, 1]);
    assert_eq!(encode_exit_code(255), vec![0, 0, 0, 255]);
    assert_eq!(encode_exit_code(0x0102_0304), vec![1, 2, 3, 4]);
}

#[test]
fn exit_code_above_255_is_rejected() {
    assert_eq!(
        decode_exit_code(&encode_exit_code(256)),
        Err(DecodeExitError::OutOfRange)
    );
    assert_eq!(
        decode_exit_code(&vec![0xff, 0xff, 0xff, 0xff]),
        Err(DecodeExitError::OutOfRange)
    );
}

#[test]
fn short_or_long_replies_are_rejected() {
    assert_eq!(
        decode_exit_code(&Vec::new()),
        Err(DecodeExitError::WrongLength)
    );
    assert_eq!(
        decode_exit_code(&vec![0, 0, 7]),
        Err(DecodeExitError::WrongLength)
    );
    assert_eq!(
        decode_exit_code(&vec![0, 0, 0, 7, 0]),
        Err(DecodeExitError::WrongLength)
    );
}
