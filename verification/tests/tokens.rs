use lib_ruby_parser::bytes::Bytes;
use lib_ruby_parser::debug_level;
use lib_ruby_parser::diagnostic::ErrorLevel;
use lib_ruby_parser::lex_state::LexState;
use lib_ruby_parser::loc::Loc;
use lib_ruby_parser::parser_options::ParserOptions;
use lib_ruby_parser::source::decoder::{CustomDecoder, Decoder, DecoderResult};
use lib_ruby_parser::text::{decimal_text, digit_text, digits_text};
use lib_ruby_parser::token::Token;
use lib_ruby_parser::token_rewriter::{
    decide, rewrite_token, LexStateAction, RewriteAction, TokenRewrite, TokenRewriter,
    TokenRewriterResult,
};

fn token(token_type: i32, value: &[u8]) -> Token {
    Token::new(
        token_type,
        Bytes::new(value.to_vec()),
        Loc::new(3, 6),
        LexState { value: 1 },
        LexState { value: 2 },
    )
}

#[test]
fn token_parts() {
    let token = token(307, b"foo");
    assert_eq!(token.token_type(), 307);
    assert_eq!(token.token_value(), &Bytes::new(b"foo".to_vec()));
    assert_eq!(token.loc(), &Loc::new(3, 6));
    assert_eq!(token.lex_state_before(), LexState { value: 1 });
    assert_eq!(token.lex_state_after(), LexState { value: 2 });
    assert_eq!(token.lex_state_before().get(), 1);
    assert_eq!(token.into_token_value(), Bytes::new(b"foo".to_vec()));
}

#[test]
fn a_new_value_leaves_the_range_of_a_token() {
    let mut token = token(307, b"foo");
    token.set_token_value(Bytes::new(b"a longer text".to_vec()));
    assert_eq!(token.token_value().as_raw(), &b"a longer text".to_vec());
    assert_eq!(token.loc(), &Loc::new(3, 6));
    assert_eq!(token.token_type(), 307);
    assert_eq!(token.lex_state_before(), LexState { value: 1 });
    assert_eq!(token.lex_state_after(), LexState { value: 2 });
}

#[test]
fn a_token_clone_is_equal_and_shares_nothing() {
    let original = token(307, b"foo");
    let mut copy = original.clone();
    assert!(copy == original);
    copy.token_value.raw.push(b'!');
    assert!(copy != original);
    assert_eq!(original.token_value().as_raw(), &b"foo".to_vec());
}

#[test]
fn tokens_differ_by_any_part() {
    let a = token(307, b"foo");
    assert!(a != token(308, b"foo"));
    assert!(a != token(307, b"fo"));
    assert!(a != token(307, b"fob"));
    let mut b = token(307, b"foo");
    b.loc = Loc::new(3, 7);
    assert!(a != b);
    let mut b = token(307, b"foo");
    b.lex_state_before = LexState { value: 5 };
    assert!(a != b);
    let mut b = token(307, b"foo");
    b.lex_state_after.set(5);
    assert!(a != b);
}

#[test]
fn keywords_are_shown_by_name() {
    assert_eq!(token(258, b"class").token_name(), Some("kCLASS"));
    assert_eq!(token(280, b"in").token_name(), Some("kIN"));
    assert_eq!(token(306, b"__ENCODING__").token_name(), Some("k__ENCODING__"));
    assert_eq!(token(257, b"").token_name(), None);
    assert_eq!(token(307, b"").token_name(), None);
    assert_eq!(token(265, b"end").label(), "kEND");
    assert_eq!(format!("{:?}", token(280, b"abc")), "[kIN, \"abc\", 3...6]");
}

#[test]
fn other_terminals_are_shown_by_code() {
    assert_eq!(token(307, b"foo").label(), "307");
    assert_eq!(token(0, b"").label(), "0");
    assert_eq!(token(-12, b"").label(), "-12");
    assert_eq!(token(i32::MAX, b"").label(), "2147483647");
    assert_eq!(token(i32::MIN, b"").label(), "-2147483648");
    assert_eq!(format!("{:?}", token(307, b"a\"b")), "[307, \"a\\\"b\", 3...6]");
}

#[test]
fn bytes_as_text() {
    assert_eq!(Bytes::new(b"abc".to_vec()).to_string_lossy(), "abc");
    assert_eq!(Bytes::new("h\u{e9}".as_bytes().to_vec()).to_string_lossy(), "h\u{e9}");
    assert_eq!(Bytes::new(vec![b'a', 0xff, b'b']).to_string_lossy(), "a\u{fffd}b");
    assert_eq!(Bytes::new(vec![1, 2]).len(), 2);
    assert_eq!(Bytes::new(vec![1, 2]).into_raw(), vec![1, 2]);
    assert!(Bytes::new(vec![1, 2]).same_bytes(&Bytes::new(vec![1, 2])));
    assert!(!Bytes::new(vec![1, 2]).same_bytes(&Bytes::new(vec![1, 3])));
    assert!(!Bytes::new(vec![1, 2]).same_bytes(&Bytes::new(vec![1])));
    assert_eq!(Bytes::new(vec![1, 2]).clone(), Bytes::new(vec![1, 2]));
}

struct FooToBar;

impl TokenRewrite for FooToBar {
    fn rewrite(&self, mut token: Box<Token>, _input: &[u8]) -> TokenRewriterResult {
        // rewrite every token "foo" to "bar"
        if token.token_value().to_string_lossy() == "foo" {
            token.set_token_value(Bytes::new(b"bar".to_vec()));
        }
        TokenRewriterResult {
            rewritten_token: token,
            token_action: RewriteAction::Keep,
            lex_state_action: LexStateAction::Keep,
        }
    }
}

struct DropSpaces;

impl TokenRewrite for DropSpaces {
    fn rewrite(&self, token: Box<Token>, input: &[u8]) -> TokenRewriterResult {
        let blank = input[token.loc().begin()..token.loc().end()].iter().all(|b| *b == b' ');
        TokenRewriterResult {
            rewritten_token: token,
            token_action: if blank { RewriteAction::Drop } else { RewriteAction::Keep },
            lex_state_action: if blank { LexStateAction::SetTo(64) } else { LexStateAction::Keep },
        }
    }
}

#[test]
fn rewriter_turns_foo_into_bar() {
    let rewriter = Some(TokenRewriter::new(Box::new(FooToBar)));
    let state = LexState { value: 2 };
    let (rewritten, after) =
        rewrite_token(&rewriter, Box::new(token(307, b"foo")), b"   foo = 1", state);
    let rewritten = rewritten.unwrap();
    assert_eq!(rewritten.token_value(), &Bytes::new(b"bar".to_vec()));
    assert_eq!(rewritten.loc(), &Loc::new(3, 6));
    assert_eq!(rewritten.token_type(), 307);
    assert_eq!(after, state);
    let (other, _) = rewrite_token(&rewriter, Box::new(token(307, b"baz")), b"   baz = 1", state);
    assert_eq!(*other.unwrap(), token(307, b"baz"));
}

#[test]
fn rewriter_may_drop_a_token_and_set_the_state() {
    let rewriter = Some(TokenRewriter::new(Box::new(DropSpaces)));
    let state = LexState { value: 2 };
    let (dropped, after) = rewrite_token(&rewriter, Box::new(token(394, b"   ")), b"      ", state);
    assert_eq!(dropped, None);
    assert_eq!(after, LexState { value: 64 });
    let (kept, after) = rewrite_token(&rewriter, Box::new(token(307, b"foo")), b"   foo", state);
    assert_eq!(kept, Some(Box::new(token(307, b"foo"))));
    assert_eq!(after, state);
}

#[test]
fn without_a_rewriter_tokens_pass_unchanged() {
    let state = LexState { value: 2 };
    let (kept, after) = rewrite_token(&None, Box::new(token(307, b"foo")), b"   foo", state);
    assert_eq!(kept, Some(Box::new(token(307, b"foo"))));
    assert_eq!(after, state);
}

#[test]
fn decisions_of_a_rewriter() {
    let state = LexState { value: 2 };
    let decision = |token_action, lex_state_action| TokenRewriterResult {
        rewritten_token: Box::new(token(307, b"foo")),
        token_action,
        lex_state_action,
    };
    assert_eq!(
        decide(decision(RewriteAction::Keep, LexStateAction::Keep), state),
        (Some(Box::new(token(307, b"foo"))), state)
    );
    assert_eq!(
        decide(decision(RewriteAction::Drop, LexStateAction::Keep), state),
        (None, state)
    );
    assert_eq!(
        decide(decision(RewriteAction::Keep, LexStateAction::SetTo(9)), state),
        (Some(Box::new(token(307, b"foo"))), LexState { value: 9 })
    );
    assert_eq!(
        decide(decision(RewriteAction::Drop, LexStateAction::SetTo(-1)), state),
        (None, LexState { value: -1 })
    );
    let direct = TokenRewriter::new(Box::new(FooToBar)).call(Box::new(token(1, b"foo")), b"");
    assert_eq!(direct, decision_of(token(1, b"bar")));
}

fn decision_of(token: Token) -> TokenRewriterResult {
    TokenRewriterResult {
        rewritten_token: Box::new(token),
        token_action: RewriteAction::Keep,
        lex_state_action: LexStateAction::Keep,
    }
}

struct Identity;

impl CustomDecoder for Identity {
    fn decode(&self, _encoding: String, input: Vec<u8>) -> DecoderResult {
        DecoderResult::new_ok(input)
    }
}

#[test]
fn options_hand_back_what_they_were_made_of() {
    let options = ParserOptions::new(
        "file.rb".to_string(),
        debug_level::LEXER | debug_level::BUFFER,
        Some(Decoder::new(Box::new(Identity))),
        Some(TokenRewriter::new(Box::new(FooToBar))),
        false,
    );
    assert_eq!(options.buffer_name(), "file.rb");
    assert_eq!(*options.debug(), 6);
    assert!(options.decoder().is_some());
    assert!(options.token_rewriter().is_some());
    assert_eq!(*options.record_tokens(), false);
    let decoder = options.decoder().as_ref().unwrap();
    assert_eq!(
        decoder.call("x".to_string(), vec![1, 2]),
        DecoderResult::new_ok(vec![1, 2])
    );
}

#[test]
fn default_options() {
    let options = ParserOptions::default();
    assert_eq!(options.buffer_name(), "(eval)");
    assert_eq!(*options.debug(), debug_level::NONE);
    assert!(options.decoder().is_none());
    assert!(options.token_rewriter().is_none());
    assert_eq!(*options.record_tokens(), true);
    assert_eq!(debug_level::PARSER, 1);
}

#[test]
fn with_recording_off_no_token_is_kept() {
    let mut tokens = lib_ruby_parser::recorded_tokens::RecordedTokens::new(false);
    for i in 0..100 {
        tokens.record(&token(307 + i, b"foo"));
    }
    assert!(tokens.into_tokens().is_empty());
}

#[test]
fn with_recording_on_tokens_are_kept_in_their_order() {
    let mut tokens = lib_ruby_parser::recorded_tokens::RecordedTokens::new(true);
    tokens.record(&token(307, b"foo"));
    tokens.record(&token(384, b"="));
    tokens.record(&token(314, b"1"));
    assert_eq!(
        tokens.into_tokens(),
        vec![token(307, b"foo"), token(384, b"="), token(314, b"1")]
    );
    let none = lib_ruby_parser::recorded_tokens::RecordedTokens::new(true);
    assert!(none.into_tokens().is_empty());
}

#[test]
fn a_holder_holds_what_it_was_given() {
    let held = lib_ruby_parser::held::Held::new(vec![1, 2, 3]);
    assert_eq!(held.inner, vec![1, 2, 3]);
}

#[test]
fn a_token_as_text() {
    let token = Token::new(
        280,
        Bytes::new(vec![97, 98, 99]),
        Loc::new(3, 4),
        LexState { value: 1 },
        LexState { value: 2 },
    );
    assert_eq!(token.token_type(), 280);
    assert_eq!(token.token_value(), &Bytes::new(vec![97, 98, 99]));
    assert_eq!(token.loc(), &Loc::new(3, 4));
    assert_eq!(token.lex_state_before().value, 1);
    assert_eq!(token.lex_state_after().value, 2);
    assert_eq!(token.debug_text(), "[kIN, \"abc\", 3...4]");
    assert_eq!(format!("{:?}", token), "[kIN, \"abc\", 3...4]");
    assert_eq!(token.text_with("<abc>"), "[kIN, <abc>, 3...4]");
    assert_eq!(self::token(307, b"a\"\xff").debug_text(), "[307, \"a\\\"\u{fffd}\", 3...6]");
}

#[test]
fn a_range_as_text() {
    assert_eq!(Loc::new(3, 4).debug_text(), "3...4");
    assert_eq!(Loc::new(0, 0).debug_text(), "0...0");
    assert_eq!(Loc::new(120, 99).debug_text(), "120...99");
    assert_eq!(
        Loc::new(usize::MAX, 10).debug_text(),
        format!("{}...10", usize::MAX)
    );
    assert_eq!(format!("{:?}", Loc::new(17, 1000)), "17...1000");
}

#[test]
fn numbers_in_decimal() {
    assert_eq!(digit_text(0), "0");
    assert_eq!(digit_text(7), "7");
    assert_eq!(digit_text(9), "9");
    assert_eq!(digits_text(0), "0");
    assert_eq!(digits_text(9), "9");
    assert_eq!(digits_text(10), "10");
    assert_eq!(digits_text(1234567890), "1234567890");
    assert_eq!(digits_text(u64::MAX), "18446744073709551615");
    assert_eq!(decimal_text(0), "0");
    assert_eq!(decimal_text(-1), "-1");
    assert_eq!(decimal_text(-120), "-120");
    assert_eq!(decimal_text(i64::MAX), "9223372036854775807");
    assert_eq!(decimal_text(i64::MIN), "-9223372036854775808");
}

#[test]
fn a_level_as_text() {
    assert_eq!(format!("{:?}", ErrorLevel::Error), "error");
    assert_eq!(format!("{:?}", ErrorLevel::Warning), "warning");
}
