use xorhelper::parse_argument;
use xorhelper::ArgResult;
use xorhelper::ReadError;
use xorhelper::ReadErrorKind;

fn missing() -> ReadError {
    ReadError {
        kind: ReadErrorKind::NotFound,
        description: "No such file or directory (os error 2)".to_string(),
    }
}

#[test]
fn file_bytes_are_the_key() {
    assert_eq!(
        parse_argument("key.bin", Ok(vec![0x00, 0xff, 0x10])),
        ArgResult::FromPath(vec![0x00, 0xff, 0x10])
    );
}

#[test]
fn file_wins_over_the_argument_text() {
    // The argument's own bytes play no part once the file was read.
    assert_eq!(parse_argument("abc", Ok(vec![1])), ArgResult::FromPath(vec![1]));
    assert_eq!(parse_argument("", Ok(vec![1])), ArgResult::FromPath(vec![1]));
}

#[test]
fn empty_file_is_still_a_file() {
    assert_eq!(parse_argument("empty.key", Ok(vec![])), ArgResult::FromPath(vec![]));
}

#[test]
fn missing_file_makes_the_argument_the_key() {
    assert_eq!(
        parse_argument("my super secret password", Err(missing())),
        ArgResult::FromString("my super secret password".as_bytes().to_vec())
    );
    assert_eq!(
        parse_argument("hi", Err(missing())),
        ArgResult::FromString(vec![0x68, 0x69])
    );
}

#[test]
fn literal_key_is_utf8() {
    assert_eq!(
        parse_argument("\u{e9}\u{20ac}", Err(missing())),
        ArgResult::FromString(vec![0xc3, 0xa9, 0xe2, 0x82, 0xac])
    );
}

#[test]
fn empty_argument_gives_an_empty_literal() {
    assert_eq!(parse_argument("", Err(missing())), ArgResult::FromString(vec![]));
}

#[test]
fn other_failures_are_passed_on() {
    let denied = ReadError {
        kind: ReadErrorKind::Other,
        description: "Permission denied (os error 13)".to_string(),
    };
    let result = parse_argument("locked.key", Err(denied));
    assert_eq!(
        result,
        ArgResult::Failed(ReadError {
            kind: ReadErrorKind::Other,
            description: "Permission denied (os error 13)".to_string(),
        })
    );
    assert!(!matches!(result, ArgResult::FromString(_)));
}

#[test]
fn failure_keeps_its_description() {
    let is_dir = ReadError {
        kind: ReadErrorKind::Other,
        description: "Is a directory (os error 21)".to_string(),
    };
    match parse_argument("/tmp", Err(is_dir)) {
        ArgResult::Failed(error) => {
            assert_eq!(error.kind, ReadErrorKind::Other);
            assert_eq!(error.description, "Is a directory (os error 21)");
        }
        other => panic!("expected a failure, got {:?}", other),
    }
}

#[test]
fn resolved_key_translates() {
    let key = match parse_argument("secret", Err(missing())) {
        ArgResult::FromString(bytes) => bytes,
        other => panic!("expected a literal key, got {:?}", other),
    };
    let hidden = xorhelper::xor_translate("hello, world".as_bytes(), &key).unwrap();
    assert_eq!(Ok(hidden), xorhelper::xor_translate_str("hello, world", "secret"));
}
