use therustymod::args::{parse_attribute_args, ArgToken, ArgsError, CallbackArgs};

fn ident(s: &str) -> ArgToken {
    ArgToken::Ident(s.to_string())
}

#[test]
fn parses_daemon_true() {
    let toks = vec![ident("daemon"), ArgToken::Punct('='), ident("true")];
    let args = CallbackArgs::parse(&toks).ok().unwrap();
    assert!(args.daemon);
}

#[test]
fn parses_daemon_false() {
    let toks = vec![ident("daemon"), ArgToken::Punct('='), ident("false")];
    let args = CallbackArgs::parse(&toks).ok().unwrap();
    assert!(!args.daemon);
}

#[test]
fn empty_arguments_expect_daemon() {
    let toks: Vec<ArgToken> = vec![];
    assert_eq!(CallbackArgs::parse(&toks).err(), Some(ArgsError::ExpectedDaemon));
}

#[test]
fn other_keyword_expects_daemon() {
    let toks = vec![ident("name"), ArgToken::Punct('='), ident("true")];
    assert_eq!(CallbackArgs::parse(&toks).err(), Some(ArgsError::ExpectedDaemon));
}

#[test]
fn missing_equals_expects_eq() {
    let toks = vec![ident("daemon"), ident("true")];
    assert_eq!(CallbackArgs::parse(&toks).err(), Some(ArgsError::ExpectedEq));
    let toks = vec![ident("daemon"), ArgToken::Punct(':'), ident("true")];
    assert_eq!(CallbackArgs::parse(&toks).err(), Some(ArgsError::ExpectedEq));
}

#[test]
fn non_boolean_expects_bool() {
    let toks = vec![ident("daemon"), ArgToken::Punct('=')];
    assert_eq!(CallbackArgs::parse(&toks).err(), Some(ArgsError::ExpectedBool));
    let toks = vec![ident("daemon"), ArgToken::Punct('='), ArgToken::Literal("\"true\"".to_string())];
    assert_eq!(CallbackArgs::parse(&toks).err(), Some(ArgsError::ExpectedBool));
    let toks = vec![ident("daemon"), ArgToken::Punct('='), ident("yes")];
    assert_eq!(CallbackArgs::parse(&toks).err(), Some(ArgsError::ExpectedBool));
    let toks = vec![ident("daemon"), ArgToken::Punct('='), ArgToken::Group];
    assert_eq!(CallbackArgs::parse(&toks).err(), Some(ArgsError::ExpectedBool));
}

#[test]
fn arguments_parse_leaves_trailing_tokens() {
    let toks = vec![ident("daemon"), ArgToken::Punct('='), ident("true"), ArgToken::Punct(',')];
    assert!(CallbackArgs::parse(&toks).ok().unwrap().daemon);
}

#[test]
fn trailing_tokens_are_unexpected() {
    let toks = vec![ident("daemon"), ArgToken::Punct('='), ident("true"), ArgToken::Punct(',')];
    assert_eq!(parse_attribute_args(&toks).err(), Some(ArgsError::UnexpectedToken));
}

#[test]
fn whole_stream_parses() {
    let toks = vec![ident("daemon"), ArgToken::Punct('='), ident("false")];
    assert!(!parse_attribute_args(&toks).ok().unwrap().daemon);
    let toks = vec![ident("daemon"), ident("false")];
    assert_eq!(parse_attribute_args(&toks).err(), Some(ArgsError::ExpectedEq));
}
