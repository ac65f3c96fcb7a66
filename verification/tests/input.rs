use lib_ruby_parser::loc::Loc;
use lib_ruby_parser::source::comment::{Comment, CommentType};
use lib_ruby_parser::source::decoded_input::DecodedInput;
use lib_ruby_parser::source::decoder::{CustomDecoder, Decoder, DecoderResult, InputError};
use lib_ruby_parser::source::input::Input;
use lib_ruby_parser::source::source_line::SourceLine;

fn input(bytes: &[u8]) -> Input {
    let mut input = Input::new("(eval)", None);
    input.set_bytes(bytes.to_vec());
    input
}

fn lines(input: &Input) -> Vec<SourceLine> {
    (0..input.lines_count()).map(|idx| *input.line_at(idx)).collect()
}

#[test]
fn new_input_has_no_bytes_and_no_lines() {
    let input = Input::new("(eval)", None);
    assert_eq!(input.len(), 0);
    assert_eq!(input.lines_count(), 0);
    assert_eq!(input.as_bytes(), b"");
    assert_eq!(input.line_col_for_pos(0), None);
}

#[test]
fn set_bytes_indexes_lines() {
    let input = input(b"ab\ncd\n\nef");
    assert_eq!(
        lines(&input),
        vec![
            SourceLine { start: 0, end: 3, ends_with_eof: false },
            SourceLine { start: 3, end: 6, ends_with_eof: false },
            SourceLine { start: 6, end: 7, ends_with_eof: false },
            SourceLine { start: 7, end: 9, ends_with_eof: true },
        ]
    );
    assert_eq!(input.as_bytes(), b"ab\ncd\n\nef");
}

#[test]
fn last_line_is_marked_even_after_a_trailing_newline() {
    let input = input(b"ab\n");
    assert_eq!(
        lines(&input),
        vec![
            SourceLine { start: 0, end: 3, ends_with_eof: false },
            SourceLine { start: 3, end: 3, ends_with_eof: true },
        ]
    );
}

#[test]
fn empty_bytes_give_one_empty_line() {
    let input = input(b"");
    assert_eq!(lines(&input), vec![SourceLine { start: 0, end: 0, ends_with_eof: true }]);
    assert_eq!(input.line_col_for_pos(0), Some((0, 0)));
    assert_eq!(input.line_col_for_pos(1), None);
}

#[test]
fn set_bytes_replaces_the_index() {
    let mut input = input(b"a\nb\nc");
    input.set_bytes(b"xy".to_vec());
    assert_eq!(lines(&input), vec![SourceLine { start: 0, end: 2, ends_with_eof: true }]);
}

#[test]
fn line_col_for_every_offset() {
    let input = input(b"ab\ncd\n\nef");
    let expected = [
        (0, 0), (0, 1), (0, 2),
        (1, 0), (1, 1), (1, 2),
        (2, 0),
        (3, 0), (3, 1),
        (3, 2),
    ];
    for (pos, line_col) in expected.iter().enumerate() {
        assert_eq!(input.line_col_for_pos(pos), Some(*line_col));
    }
    assert_eq!(input.line_col_for_pos(10), None);
    assert_eq!(input.line_col_for_pos(usize::MAX), None);
}

#[test]
fn end_of_buffer_lies_at_the_end_of_the_last_line() {
    assert_eq!(input(b"ab\n").line_col_for_pos(3), Some((1, 0)));
    assert_eq!(input(b"ab").line_col_for_pos(2), Some((0, 2)));
}

#[test]
fn byte_at_is_bounds_checked() {
    let input = input(b"abc");
    assert_eq!(input.byte_at(0), Some(b'a'));
    assert_eq!(input.byte_at(2), Some(b'c'));
    assert_eq!(input.byte_at(3), None);
    assert_eq!(input.unchecked_byte_at(1), b'b');
}

#[test]
fn substr_at_is_bounds_checked() {
    let input = input(b"abcdef");
    assert_eq!(input.substr_at(1, 4), Some(&b"bcd"[..]));
    assert_eq!(input.substr_at(0, 6), Some(&b"abcdef"[..]));
    assert_eq!(input.substr_at(6, 6), Some(&b""[..]));
    assert_eq!(input.substr_at(4, 1), None);
    assert_eq!(input.substr_at(1, 7), None);
}

struct Upcase;

impl CustomDecoder for Upcase {
    fn decode(&self, encoding: String, input: Vec<u8>) -> DecoderResult {
        if encoding == "shout" {
            DecoderResult::new_ok(input.to_ascii_uppercase())
        } else {
            DecoderResult::new_err(InputError::new_decoding_error(encoding))
        }
    }
}

#[test]
fn set_encoding_with_a_builtin_name_keeps_the_bytes() {
    let mut input = input(b"a\nb");
    assert_eq!(input.set_encoding("utf-8"), Ok(()));
    assert_eq!(input.as_bytes(), b"a\nb");
    assert_eq!(input.lines_count(), 2);
}

#[test]
fn set_encoding_without_a_decoder_fails_and_keeps_the_bytes() {
    let mut input = input(b"a\nb");
    assert_eq!(
        input.set_encoding("koi8-r"),
        Err(InputError::UnsupportedEncoding("koi8-r".to_string()))
    );
    assert_eq!(input.as_bytes(), b"a\nb");
    assert_eq!(input.lines_count(), 2);
}

#[test]
fn set_encoding_replaces_the_buffer_with_what_the_decoder_returns() {
    let mut input = Input::new("(eval)", Some(Decoder::new(Box::new(Upcase))));
    input.set_bytes(b"a\nb".to_vec());
    assert_eq!(input.set_encoding("shout"), Ok(()));
    assert_eq!(input.as_bytes(), b"A\nB");
    assert_eq!(
        input.set_encoding("other"),
        Err(InputError::DecodingError("other".to_string()))
    );
    assert_eq!(input.as_bytes(), b"A\nB");
}

#[test]
fn apply_decoded_takes_either_outcome() {
    let mut input = input(b"abc");
    assert_eq!(input.apply_decoded(DecoderResult::new_ok(b"x\ny".to_vec())), Ok(()));
    assert_eq!(input.as_bytes(), b"x\ny");
    assert_eq!(input.lines_count(), 2);
    let error = InputError::new_decoding_error("no".to_string());
    assert_eq!(input.apply_decoded(DecoderResult::new_err(error.clone())), Err(error));
    assert_eq!(input.as_bytes(), b"x\ny");
}

#[test]
fn decoded_input_walks_the_lines_it_was_given() {
    let mut decoded = DecodedInput::named("foo");
    decoded.set_bytes(b"abcdef".to_vec());
    decoded.set_lines(vec![SourceLine::new(0, 2, false), SourceLine::new(2, 6, true)]);
    assert_eq!(decoded.len(), 6);
    assert_eq!(decoded.line_col_for_pos(0), Some((0, 0)));
    assert_eq!(decoded.line_col_for_pos(1), Some((0, 1)));
    assert_eq!(decoded.line_col_for_pos(2), Some((1, 0)));
    assert_eq!(decoded.line_col_for_pos(5), Some((1, 3)));
    assert_eq!(decoded.line_col_for_pos(6), Some((1, 4)));
    assert_eq!(decoded.line_col_for_pos(7), None);
    assert_eq!(decoded.byte_at(5), Some(b'f'));
    assert_eq!(decoded.byte_at(6), None);
    assert_eq!(decoded.substr_at(2, 4), Some(&b"cd"[..]));
    assert_eq!(decoded.substr_at(2, 7), None);
    decoded.update(b"x".to_vec(), vec![SourceLine::new(0, 1, true)]);
    assert_eq!(decoded.line_col_for_pos(1), Some((0, 1)));
}

#[test]
fn source_line_length() {
    assert_eq!(SourceLine::new(3, 10, false).len(), 7);
    assert_eq!(SourceLine::new(3, 3, true).len(), 0);
}

#[test]
fn loc_parts() {
    let loc = Loc::new(3, 10);
    assert_eq!(loc.begin(), 3);
    assert_eq!(loc.end(), 10);
    assert_eq!(loc.size(), 7);
    assert_eq!(format!("{:?}", loc), "3...10");
}

#[test]
fn comment_that_begins_with_hash_is_inline() {
    let input = input(b"x = 1 # note\n=begin\ndoc\n=end\n");
    let comment = Comment::new(Loc::new(6, 12), &input);
    assert_eq!(comment.kind, CommentType::Inline);
    assert_eq!(comment.location, Loc::new(6, 12));
    assert_eq!(Comment::new(Loc::new(6, 7), &input).kind, CommentType::Inline);
}

#[test]
fn comment_that_begins_with_begin_is_document() {
    let input = input(b"x = 1 # note\n=begin\ndoc\n=end\n");
    assert_eq!(Comment::new(Loc::new(13, 28), &input).kind, CommentType::Document);
    assert_eq!(Comment::new(Loc::new(13, 19), &input).kind, CommentType::Document);
}

#[test]
fn any_other_comment_is_unknown() {
    let input = input(b"x = 1 # note\n=begin\ndoc\n=end\n");
    assert_eq!(Comment::new(Loc::new(0, 5), &input).kind, CommentType::Unknown);
    assert_eq!(Comment::new(Loc::new(13, 18), &input).kind, CommentType::Unknown);
    assert_eq!(Comment::new(Loc::new(6, 6), &input).kind, CommentType::Unknown);
    assert_eq!(Comment::new(Loc::new(7, 6), &input).kind, CommentType::Unknown);
    assert_eq!(Comment::new(Loc::new(6, 100), &input).kind, CommentType::Unknown);
    assert_eq!(
        Comment::make(Loc::new(0, 1), CommentType::document()),
        Comment { location: Loc::new(0, 1), kind: CommentType::Document }
    );
    assert_eq!(CommentType::unknown(), CommentType::Unknown);
}
