use lib_ruby_parser::diagnostic::{Diagnostic, DiagnosticMessage, ErrorLevel};
use lib_ruby_parser::lexer::buffer::Lexer;
use lib_ruby_parser::lexer::directives::ByteClass;
use lib_ruby_parser::loc::Loc;
use lib_ruby_parser::source::decoder::{CustomDecoder, Decoder, DecoderResult, InputError};
use lib_ruby_parser::source::magic_comment::{MagicComment, MagicCommentKind};

fn lexer(source: &[u8]) -> Lexer {
    Lexer::new(source.to_vec(), "(eval)", None)
}

fn magic(kind: MagicCommentKind, key: (usize, usize), value: (usize, usize)) -> MagicComment {
    MagicComment {
        kind,
        key_l: Loc { begin: key.0, end: key.1 },
        value_l: Loc { begin: value.0, end: value.1 },
    }
}

/// Scans the comment that fills the line of `source` which begins at `start`.
fn scan_line(lexer: &mut Lexer, source: &[u8], start: usize) -> bool {
    let end = source[start..]
        .iter()
        .position(|b| *b == b'\n')
        .map(|at| start + at + 1)
        .unwrap_or(source.len());
    assert_eq!(source[start], b'#');
    lexer.parser_magic_comment(start + 1, end - start - 1)
}

#[test]
fn test_magic_comment() {
    let fixture = b"# encoding: utf-8\n\
# frozen_string_literal: true\n\
# coding: utf-8\n\
# shareable_constant_value: literal\n\
# warn_indent: true";
    let mut lexer = lexer(fixture);
    for start in [0, 18, 48, 64, 100] {
        assert!(scan_line(&mut lexer, fixture, start));
    }
    let magic_comments = lexer.magic_comments;
    assert_eq!(
        magic_comments,
        vec![
            MagicComment {
                kind: MagicCommentKind::Encoding,
                key_l: Loc { begin: 2, end: 10 },
                value_l: Loc { begin: 12, end: 17 },
            },
            MagicComment {
                kind: MagicCommentKind::FrozenStringLiteral,
                key_l: Loc { begin: 20, end: 41 },
                value_l: Loc { begin: 43, end: 47 },
            },
            MagicComment {
                kind: MagicCommentKind::Encoding,
                key_l: Loc { begin: 50, end: 56 },
                value_l: Loc { begin: 58, end: 63 },
            },
            MagicComment {
                kind: MagicCommentKind::ShareableConstantValue,
                key_l: Loc { begin: 66, end: 90 },
                value_l: Loc { begin: 92, end: 99 },
            },
            MagicComment {
                kind: MagicCommentKind::WarnIndent,
                key_l: Loc {
                    begin: 102,
                    end: 113
                },
                value_l: Loc {
                    begin: 115,
                    end: 119
                },
            },
        ]
    );
    assert!(lexer.diagnostics.is_empty());
    assert_eq!(lexer.buffer.input.as_bytes(), fixture);
}

#[test]
fn encoding_comment_is_recorded_with_its_ranges() {
    let source = b"# encoding: us-ascii\n3 + 3";
    let mut lexer = lexer(source);
    let complete = lexer.parser_magic_comment(1, 20);
    assert!(complete);
    assert_eq!(
        lexer.magic_comments,
        vec![magic(MagicCommentKind::Encoding, (2, 10), (12, 20))]
    );
    assert_eq!(&source[2..10], b"encoding");
    assert_eq!(&source[12..20], b"us-ascii");
}

#[test]
fn unsupported_encoding_is_reported_and_bytes_stay() {
    let source = b"# encoding: koi8-r\nx = 1";
    let mut lexer = lexer(source);
    lexer.parser_magic_comment(1, 18);
    assert_eq!(
        lexer.diagnostics,
        vec![Diagnostic {
            level: ErrorLevel::Error,
            message: DiagnosticMessage::UnsupportedEncoding { encoding: "koi8-r".to_string() },
            loc: Loc { begin: 12, end: 18 },
        }]
    );
    assert_eq!(lexer.buffer.input.as_bytes(), source);
    assert_eq!(lexer.buffer.input.lines_count(), 2);
    assert_eq!(lexer.magic_comments, vec![magic(MagicCommentKind::Encoding, (2, 10), (12, 18))]);
}

#[test]
fn scan_finds_what_parsing_records() {
    let lexer = lexer(b"# encoding: koi8-r\nx = 1");
    let (found, complete) = lexer.scan_magic_comment(1, 18);
    assert!(complete);
    assert_eq!(found, vec![magic(MagicCommentKind::Encoding, (2, 10), (12, 18))]);
    assert!(lexer.magic_comments.is_empty());
    assert!(lexer.diagnostics.is_empty());
}

#[test]
fn scanning_twice_gives_the_same() {
    let lexer = lexer(b"# -*- coding: utf-8; warn_indent: true -*-\n");
    assert_eq!(lexer.scan_magic_comment(1, 42), lexer.scan_magic_comment(1, 42));
}

#[test]
fn pairs_between_markers() {
    let source = b"# -*- coding: utf-8; warn_indent: true -*-\n";
    let mut lexer = lexer(source);
    assert!(lexer.parser_magic_comment(1, 42));
    assert_eq!(
        lexer.magic_comments,
        vec![
            magic(MagicCommentKind::Encoding, (6, 12), (14, 19)),
            magic(MagicCommentKind::WarnIndent, (21, 32), (34, 38)),
        ]
    );
    assert!(lexer.diagnostics.is_empty());
}

#[test]
fn between_markers_a_word_without_a_colon_is_passed_over() {
    let source = b"# -*- ruby; warn_indent: true -*-\n";
    let mut lexer = lexer(source);
    assert!(lexer.parser_magic_comment(1, source.len() - 1));
    assert_eq!(lexer.magic_comments, vec![magic(MagicCommentKind::WarnIndent, (12, 23), (25, 29))]);
}

#[test]
fn a_first_marker_without_a_second_is_no_magic_comment() {
    let source = b"# -*- coding: utf-8\n";
    let mut lexer = lexer(source);
    assert!(!lexer.parser_magic_comment(1, source.len() - 1));
    assert!(lexer.magic_comments.is_empty());
}

#[test]
fn quoted_value() {
    let source = b"# encoding: \"utf-8\"\n";
    let mut lexer = lexer(source);
    assert!(lexer.parser_magic_comment(1, 19));
    assert_eq!(lexer.magic_comments, vec![magic(MagicCommentKind::Encoding, (2, 10), (13, 18))]);
}

#[test]
fn quoted_value_with_an_escaped_quote() {
    let source = b"# warn_indent: \"a\\\"b\"\n";
    let mut lexer = lexer(source);
    assert!(lexer.parser_magic_comment(1, source.len() - 1));
    assert_eq!(lexer.magic_comments, vec![magic(MagicCommentKind::WarnIndent, (2, 13), (16, 20))]);
    assert_eq!(&source[16..20], b"a\\\"b");
}

#[test]
fn quoted_value_that_is_not_closed_runs_to_the_end() {
    let source = b"# warn_indent: \"true";
    let mut lexer = lexer(source);
    assert!(lexer.parser_magic_comment(1, source.len() - 1));
    assert_eq!(lexer.magic_comments, vec![magic(MagicCommentKind::WarnIndent, (2, 13), (16, 20))]);
    let source = b"# warn_indent: \"tru\\";
    let mut lexer = self::lexer(source);
    assert!(lexer.parser_magic_comment(1, source.len() - 1));
    assert_eq!(lexer.magic_comments, vec![magic(MagicCommentKind::WarnIndent, (2, 13), (16, 20))]);
}

#[test]
fn dashes_in_a_key_count_as_underscores() {
    let source = b"# frozen-string-literal: true\n";
    let mut lexer = lexer(source);
    assert!(lexer.parser_magic_comment(1, source.len() - 1));
    assert_eq!(
        lexer.magic_comments,
        vec![magic(MagicCommentKind::FrozenStringLiteral, (2, 23), (25, 29))]
    );
}

#[test]
fn unknown_key_is_read_and_not_recorded() {
    let source = b"# foo: bar\n";
    let mut lexer = lexer(source);
    assert!(lexer.parser_magic_comment(1, source.len() - 1));
    assert!(lexer.magic_comments.is_empty());
    assert!(lexer.diagnostics.is_empty());
}

#[test]
fn keys_are_compared_letter_for_letter() {
    let source = b"# Encoding: koi8-r\n";
    let mut lexer = lexer(source);
    assert!(lexer.parser_magic_comment(1, source.len() - 1));
    assert!(lexer.magic_comments.is_empty());
    assert!(lexer.diagnostics.is_empty());
}

#[test]
fn ordinary_comments_are_ignored_in_silence() {
    for source in [
        &b"# just a note here\n"[..],
        &b"# encoding: utf-8 and more\n"[..],
        &b"# a: b\n"[..],
        &b"#\n"[..],
        &b"# TODO: fix; this: later\n"[..],
    ] {
        let mut lexer = lexer(source);
        assert!(!lexer.parser_magic_comment(1, source.len() - 1));
        assert!(lexer.magic_comments.is_empty());
        assert!(lexer.diagnostics.is_empty());
        assert_eq!(lexer.buffer.input.as_bytes(), source);
    }
}

#[test]
fn a_range_past_the_end_of_the_source_is_cut_off() {
    let source = b"# warn_indent: true";
    let mut lexer = lexer(source);
    assert!(lexer.parser_magic_comment(1, 1000));
    assert_eq!(lexer.magic_comments, vec![magic(MagicCommentKind::WarnIndent, (2, 13), (15, 19))]);
    assert!(lexer.parser_magic_comment(1000, 1000));
    assert!(lexer.parser_magic_comment(usize::MAX, usize::MAX));
    assert_eq!(lexer.magic_comments.len(), 1);
}

#[test]
fn marker_is_found_where_it_stands_first() {
    let lexer = lexer(b"ab-*-cd-*-");
    assert_eq!(lexer.magic_comment_marker(0, 10), 5);
    assert_eq!(lexer.magic_comment_marker(2, 8), 5);
    assert_eq!(lexer.magic_comment_marker(3, 7), 10);
    assert_eq!(lexer.magic_comment_marker(5, 5), 10);
    assert_eq!(lexer.magic_comment_marker(0, 5), 5);
}

#[test]
fn marker_must_lie_inside_the_range() {
    let lexer = lexer(b"ab-*-cd-*-");
    assert_eq!(lexer.magic_comment_marker(0, 4), 0);
    assert_eq!(lexer.magic_comment_marker(3, 6), 0);
    assert_eq!(lexer.magic_comment_marker(6, 3), 0);
    assert_eq!(lexer.magic_comment_marker(0, 0), 0);
    assert_eq!(lexer.magic_comment_marker(20, 5), 0);
    assert_eq!(lexer.magic_comment_marker(usize::MAX, usize::MAX), 0);
    assert_eq!(self::lexer(b"a - * - b -* *- --").magic_comment_marker(0, 18), 0);
    assert_eq!(self::lexer(b"-**-*--*").magic_comment_marker(0, 8), 6);
    assert_eq!(self::lexer(b"*-*-").magic_comment_marker(0, 4), 4);
    assert_eq!(self::lexer(b"--*-").magic_comment_marker(0, 4), 4);
}

#[test]
fn comment_at_top_of_file() {
    let mut lexer = lexer(b"  # encoding: utf-8\nx");
    lexer.buffer.line_count = 1;
    lexer.buffer.pbeg = 0;
    lexer.buffer.pcur = 3;
    assert!(lexer.comment_at_top());
    lexer.buffer.line_count = 2;
    assert!(!lexer.comment_at_top());
    lexer.has_shebang = true;
    assert!(lexer.comment_at_top());
    lexer.buffer.line_count = 1;
    assert!(!lexer.comment_at_top());
}

#[test]
fn comment_behind_code_is_not_at_top() {
    let mut lexer = lexer(b"x # encoding: utf-8\n");
    lexer.buffer.line_count = 1;
    lexer.buffer.pbeg = 0;
    lexer.buffer.pcur = 3;
    assert!(!lexer.comment_at_top());
    lexer.buffer.pcur = 1;
    assert!(lexer.comment_at_top());
    lexer.buffer.pcur = 100;
    assert!(!lexer.comment_at_top());
}

#[test]
fn plain_form_names_the_encoding() {
    let source = b"# vim: set fileencoding=koi8-r :\n";
    let mut lexer = lexer(source);
    assert_eq!(lexer.find_file_encoding(1, 33), Some(Loc { begin: 24, end: 30 }));
    assert_eq!(lexer.find_coding(1, 33), Some((23, true)));
    assert_eq!(lexer.find_name_begin(23, 33, true), Some(24));
    assert_eq!(lexer.find_name_end(24, 33), 30);
    lexer.set_file_encoding(1, 33);
    assert_eq!(
        lexer.diagnostics,
        vec![Diagnostic {
            level: ErrorLevel::Error,
            message: DiagnosticMessage::UnsupportedEncoding { encoding: "koi8-r".to_string() },
            loc: Loc { begin: 24, end: 30 },
        }]
    );
    assert!(lexer.magic_comments.is_empty());
    assert_eq!(lexer.buffer.input.as_bytes(), source);
}

#[test]
fn plain_form_with_a_colon() {
    let lexer = lexer(b"# coding: utf-8\n");
    assert_eq!(lexer.find_file_encoding(1, 16), Some(Loc { begin: 10, end: 15 }));
    let mut lexer = lexer;
    lexer.set_file_encoding(1, 16);
    assert!(lexer.diagnostics.is_empty());
}

#[test]
fn plain_form_with_white_space_before_the_separator() {
    let lexer = lexer(b"# coding : utf-8\n");
    assert_eq!(lexer.find_coding(1, 17), Some((8, false)));
    assert_eq!(lexer.find_file_encoding(1, 17), Some(Loc { begin: 11, end: 16 }));
    // the byte right behind the separator is passed over
    let lexer = self::lexer(b"# coding :utf-8\n");
    assert_eq!(lexer.find_file_encoding(1, 16), Some(Loc { begin: 11, end: 15 }));
}

#[test]
fn plain_form_needs_the_word_and_a_separator() {
    for source in [
        &b"# hello world, nothing here\n"[..],
        &b"# coding utf-8\n"[..],
        &b"# Coding: utf-8\n"[..],
        &b"# decoding:\n"[..],
        &b"# cod\n"[..],
        &b""[..],
    ] {
        let mut lexer = lexer(source);
        assert_eq!(lexer.find_file_encoding(1, source.len()), None);
        lexer.set_file_encoding(1, source.len());
        assert!(lexer.diagnostics.is_empty());
        assert_eq!(lexer.buffer.input.as_bytes(), source);
    }
    let lexer = lexer(b"# coding: utf-8\n");
    assert_eq!(lexer.find_file_encoding(10, 1), None);
    assert_eq!(lexer.find_file_encoding(1, 7), None);
}

#[test]
fn skipping_by_class() {
    let lexer = lexer(b"  ab: \"c d\"; e");
    assert_eq!(lexer.skip(0, 14, ByteClass::Space), 2);
    assert_eq!(lexer.skip(0, 1, ByteClass::Space), 1);
    assert_eq!(lexer.skip(2, 14, ByteClass::Key), 4);
    assert_eq!(lexer.skip(4, 14, ByteClass::Lead), 7);
    assert_eq!(lexer.skip(7, 14, ByteClass::Value), 8);
    assert_eq!(lexer.skip(11, 14, ByteClass::Trailer), 13);
    assert_eq!(lexer.skip(13, 100, ByteClass::Key), 14);
    assert_eq!(lexer.skip(20, 10, ByteClass::Key), 20);
    assert_eq!(lexer.skip_quoted(7, 14), 10);
    assert_eq!(lexer.skip_quoted(7, 9), 9);
    assert!(lexer.key_is(2, 4, "ab"));
    assert!(!lexer.key_is(2, 4, "ac"));
    assert!(!lexer.key_is(2, 5, "ab"));
    assert!(lexer.text_is(2, 4, "ab"));
    assert!(!lexer.text_is(2, 4, "abc"));
    assert_eq!(lexer.key_kind(2, 4), None);
    assert_eq!(lexer.char_at(2), Some(b'a'));
    assert_eq!(lexer.char_at(14), None);
}

struct Latin1;

impl CustomDecoder for Latin1 {
    fn decode(&self, encoding: String, input: Vec<u8>) -> DecoderResult {
        if encoding == "latin-1" {
            let text: String = input.iter().map(|b| *b as char).collect();
            DecoderResult::new_ok(text.into_bytes())
        } else {
            DecoderResult::new_err(InputError::new_decoding_error(format!("no {}", encoding)))
        }
    }
}

#[test]
fn decoder_replaces_the_source() {
    let source = b"# encoding: latin-1\n\"\xe9\"";
    let mut lexer = Lexer::new(source.to_vec(), "(eval)", Some(Decoder::new(Box::new(Latin1))));
    assert!(lexer.parser_magic_comment(1, 19));
    assert!(lexer.diagnostics.is_empty());
    assert_eq!(lexer.buffer.input.as_bytes(), "# encoding: latin-1\n\"\u{e9}\"".as_bytes());
    assert_eq!(lexer.buffer.input.lines_count(), 2);
    assert_eq!(lexer.magic_comments, vec![magic(MagicCommentKind::Encoding, (2, 10), (12, 19))]);
}

#[test]
fn failure_of_the_decoder_is_reported() {
    let source = b"# encoding: koi8-r\n";
    let mut lexer = Lexer::new(source.to_vec(), "(eval)", Some(Decoder::new(Box::new(Latin1))));
    assert!(lexer.parser_magic_comment(1, 18));
    assert_eq!(
        lexer.diagnostics,
        vec![Diagnostic {
            level: ErrorLevel::Error,
            message: DiagnosticMessage::DecodingError { message: "no koi8-r".to_string() },
            loc: Loc { begin: 12, end: 18 },
        }]
    );
    assert_eq!(lexer.buffer.input.as_bytes(), source);
}

#[test]
fn encoding_name_that_is_not_utf8_is_reported() {
    let source = b"# encoding: \xff\xfe\n";
    let mut lexer = lexer(source);
    assert!(lexer.parser_magic_comment(1, source.len() - 1));
    assert_eq!(
        lexer.diagnostics,
        vec![Diagnostic {
            level: ErrorLevel::Error,
            message: DiagnosticMessage::InvalidEncodingName {},
            loc: Loc { begin: 12, end: 14 },
        }]
    );
    assert_eq!(lexer.buffer.input.as_bytes(), source);
}

#[test]
fn apply_encoding_outside_the_source_does_nothing() {
    let source = b"# encoding: koi8-r\n";
    let mut lexer = lexer(source);
    lexer.apply_encoding(Loc { begin: 12, end: 100 });
    lexer.apply_encoding(Loc { begin: 14, end: 12 });
    assert!(lexer.diagnostics.is_empty());
    lexer.apply_encoding(Loc { begin: 12, end: 18 });
    assert_eq!(lexer.diagnostics.len(), 1);
    lexer.encoding_decided(Ok(()), Loc { begin: 0, end: 1 });
    assert_eq!(lexer.diagnostics.len(), 1);
    lexer.encoding_decided(
        Err(InputError::DecodingError("x".to_string())),
        Loc { begin: 0, end: 1 },
    );
    lexer.report(DiagnosticMessage::AliasNthRef {}, Loc { begin: 2, end: 3 });
    assert_eq!(
        lexer.diagnostics[1..],
        [
            Diagnostic {
                level: ErrorLevel::Error,
                message: DiagnosticMessage::DecodingError { message: "x".to_string() },
                loc: Loc { begin: 0, end: 1 },
            },
            Diagnostic {
                level: ErrorLevel::Error,
                message: DiagnosticMessage::AliasNthRef {},
                loc: Loc { begin: 2, end: 3 },
            },
        ]
    );
}

#[test]
fn diagnostic_parts() {
    let diagnostic = Diagnostic::new(
        ErrorLevel::warning(),
        DiagnosticMessage::from_input_error(InputError::UnsupportedEncoding("x".to_string())),
        Loc::new(1, 2),
    );
    assert_eq!(diagnostic.level, ErrorLevel::Warning);
    assert_eq!(diagnostic.level.name(), "warning");
    assert_eq!(ErrorLevel::error().name(), "error");
    assert_eq!(
        diagnostic.message,
        DiagnosticMessage::UnsupportedEncoding { encoding: "x".to_string() }
    );
    assert_eq!(
        format!("{:?}", diagnostic),
        "Diagnostic { level: warning, message: UnsupportedEncoding { encoding: \"x\" }, loc: 1...2 }"
    );
    assert_eq!(MagicCommentKind::encoding(), MagicCommentKind::Encoding);
    assert_eq!(MagicCommentKind::frozen_string_literal(), MagicCommentKind::FrozenStringLiteral);
    assert_eq!(
        MagicCommentKind::shareable_constant_value(),
        MagicCommentKind::ShareableConstantValue
    );
}

fn at_comment(source: &[u8], line_count: usize) -> Lexer {
    let mut lexer = lexer(source);
    lexer.buffer.line_count = line_count;
    lexer.buffer.pbeg = 0;
    lexer.buffer.pcur = source.iter().position(|b| *b == b'#').unwrap() + 1;
    lexer.buffer.pend = source.iter().position(|b| *b == b'\n').unwrap() + 1;
    lexer
}

#[test]
fn comment_at_top_is_read_as_magic_comment() {
    let source = b"# encoding: koi8-r\nx = 1";
    let mut lexer = at_comment(source, 1);
    assert!(lexer.read_comment());
    assert_eq!(lexer.magic_comments, vec![magic(MagicCommentKind::Encoding, (2, 10), (12, 18))]);
    assert_eq!(
        lexer.diagnostics,
        vec![Diagnostic {
            level: ErrorLevel::Error,
            message: DiagnosticMessage::UnsupportedEncoding { encoding: "koi8-r".to_string() },
            loc: Loc { begin: 12, end: 18 },
        }]
    );
    assert_eq!(lexer.buffer.input.as_bytes(), source);
}

#[test]
fn comment_at_top_that_is_no_magic_comment_may_name_an_encoding() {
    let source = b"# vim: set fileencoding=koi8-r :\nx = 1";
    let mut lexer = at_comment(source, 1);
    assert!(lexer.read_comment());
    assert!(lexer.magic_comments.is_empty());
    assert_eq!(
        lexer.diagnostics,
        vec![Diagnostic {
            level: ErrorLevel::Error,
            message: DiagnosticMessage::UnsupportedEncoding { encoding: "koi8-r".to_string() },
            loc: Loc { begin: 24, end: 30 },
        }]
    );
}

#[test]
fn comment_behind_a_shebang_line_is_at_top() {
    let source = b"# frozen_string_literal: true\nx = 1";
    let mut lexer = at_comment(source, 2);
    assert!(!lexer.read_comment());
    assert!(lexer.magic_comments.is_empty());
    lexer.has_shebang = true;
    assert!(lexer.read_comment());
    assert_eq!(
        lexer.magic_comments,
        vec![magic(MagicCommentKind::FrozenStringLiteral, (2, 23), (25, 29))]
    );
}

#[test]
fn comments_further_down_are_not_read() {
    for source in [&b"# encoding: koi8-r\nx = 1"[..], &b"x = 1 # encoding: koi8-r\n"[..]] {
        let line_count = if source[0] == b'#' { 3 } else { 1 };
        let mut lexer = at_comment(source, line_count);
        assert!(!lexer.read_comment());
        assert!(lexer.magic_comments.is_empty());
        assert!(lexer.diagnostics.is_empty());
        assert_eq!(lexer.buffer.input.as_bytes(), source);
    }
}

#[test]
fn plain_form_takes_a_name_that_ends_with_the_range() {
    let lexer = lexer(b" coding: koi8-r");
    assert_eq!(lexer.find_file_encoding(0, 15), Some(Loc { begin: 9, end: 15 }));
    assert_eq!(lexer.find_name_end(9, 15), 15);
    let mut lexer = lexer;
    lexer.set_file_encoding(0, 15);
    assert_eq!(
        lexer.diagnostics,
        vec![Diagnostic {
            level: ErrorLevel::Error,
            message: DiagnosticMessage::UnsupportedEncoding { encoding: "koi8-r".to_string() },
            loc: Loc { begin: 9, end: 15 },
        }]
    );
    assert_eq!(lexer.buffer.input.as_bytes(), b" coding: koi8-r");
}

#[test]
fn plain_form_takes_no_byte_behind_the_range() {
    let lexer = lexer(b"# coding: x-_-");
    assert_eq!(lexer.find_file_encoding(1, 12), Some(Loc { begin: 10, end: 12 }));
    assert_eq!(lexer.find_file_encoding(1, 14), Some(Loc { begin: 10, end: 14 }));
    assert_eq!(lexer.find_name_end(10, 11), 11);
    assert_eq!(lexer.find_name_end(10, 10), 10);
    assert_eq!(lexer.find_name_end(10, 100), 14);
    assert_eq!(lexer.find_name_end(12, 10), 12);
    let lexer = self::lexer(b"# coding: utf-8!x\n");
    assert_eq!(lexer.find_file_encoding(1, 18), Some(Loc { begin: 10, end: 15 }));
}

#[test]
fn the_decoder_stays_when_the_bytes_are_set_anew() {
    let mut lexer =
        Lexer::new(b"first".to_vec(), "(eval)", Some(Decoder::new(Box::new(Latin1))));
    lexer.buffer.input.set_bytes(b"# encoding: latin-1\n\"\xe9\"".to_vec());
    lexer.buffer.input.set_bytes(b"# encoding: latin-1\n\"\xe8\"".to_vec());
    assert!(lexer.parser_magic_comment(1, 19));
    assert!(lexer.diagnostics.is_empty());
    assert_eq!(lexer.buffer.input.as_bytes(), "# encoding: latin-1\n\"\u{e8}\"".as_bytes());
}
