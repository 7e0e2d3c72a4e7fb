use stant_lexer::token::{Diagnostic, Span, Token, TokenKind};
use stant_lexer::Lexer;

/// Runs a whole lexing session over `src` and collects the
/// consumer-visible tokens: every token the driver hands back whose kind
/// is not the `Empty` sentinel.
fn lex_tokens(src: &str) -> Vec<Token> {
    let alloc = oxc_allocator::Allocator::default();
    let mut lexer = Lexer::new(&alloc, src);
    let mut tokens = Vec::new();
    while !lexer.is_at_end() {
        let tok = lexer.next_token();
        tokens.push(tok);
    }
    tokens.into_iter().filter(|t| t.kind != TokenKind::Empty).collect()
}

fn lex_kinds(src: &str) -> Vec<TokenKind> {
    lex_tokens(src).iter().map(|t| t.kind).collect()
}

#[test]
fn test_lexer_empty() {
    assert_eq!(lex_kinds(""), vec![]);
}

#[test]
fn test_lexer_plain_identifier() {
    assert_eq!(
        lex_kinds("hello swift people"),
        vec![TokenKind::Identifier, TokenKind::Identifier, TokenKind::Identifier]
    );
}

#[test]
fn test_lexer_plain_identifier_with_quoted_identifier() {
    assert_eq!(
        lex_kinds("hello `swift` people"),
        vec![TokenKind::Identifier, TokenKind::Identifier, TokenKind::Identifier]
    );
}

#[test]
fn test_lexer_multiple_quoted_identifier() {
    assert_eq!(
        lex_kinds("`hello` `swift` `people`"),
        vec![TokenKind::Identifier, TokenKind::Identifier, TokenKind::Identifier]
    );
}

#[test]
fn test_lexer_keyword() {
    assert_eq!(lex_kinds("await As"), vec![TokenKind::Await, TokenKind::As]);
}

#[test]
fn test_lexer_keyword_with_identifier() {
    assert_eq!(
        lex_kinds("await As hello"),
        vec![TokenKind::Await, TokenKind::As, TokenKind::Identifier]
    );
}

#[test]
fn test_lexer_keyword_prefixes_are_identifiers() {
    // None of these match a keyword spelling exactly, and `shaw` is
    // quoted, so all four are plain identifiers.
    assert_eq!(
        lex_kinds("apple axe `shaw` app"),
        vec![
            TokenKind::Identifier,
            TokenKind::Identifier,
            TokenKind::Identifier,
            TokenKind::Identifier
        ]
    );
}

#[test]
fn test_operator_disambiguation() {
    assert_eq!(lex_kinds("+"), vec![TokenKind::Plus]);
    assert_eq!(lex_kinds("+="), vec![TokenKind::PlusEq]);
    assert_eq!(
        lex_kinds("a += b"),
        vec![TokenKind::Identifier, TokenKind::PlusEq, TokenKind::Identifier]
    );
    // `+` followed by anything but `=` stays a one-byte operator.
    assert_eq!(lex_kinds("+x"), vec![TokenKind::Plus, TokenKind::Identifier]);
}

#[test]
fn test_keyword_match_is_exact_and_case_sensitive() {
    // A strict prefix or extension of a keyword is an identifier.
    assert_eq!(lex_kinds("awai"), vec![TokenKind::Identifier]);
    assert_eq!(lex_kinds("awaits"), vec![TokenKind::Identifier]);
    // Casing matters in both directions: `As` is the keyword, `as` and
    // `Await` are not.
    assert_eq!(lex_kinds("as"), vec![TokenKind::Identifier]);
    assert_eq!(lex_kinds("Await"), vec![TokenKind::Identifier]);
    assert_eq!(lex_kinds("AS"), vec![TokenKind::Identifier]);
}

#[test]
fn test_quoted_keyword_stays_identifier() {
    // Quoting is the escape mechanism: a quoted keyword spelling is
    // never reclassified.
    assert_eq!(lex_kinds("`await` await"), vec![TokenKind::Identifier, TokenKind::Await]);
    assert_eq!(lex_kinds("`As`"), vec![TokenKind::Identifier]);
}

#[test]
fn test_spans_recover_token_text() {
    let src = "await +hello";
    let alloc = oxc_allocator::Allocator::default();
    let mut lexer = Lexer::new(&alloc, src);
    let mut texts: Vec<String> = Vec::new();
    while !lexer.is_at_end() {
        let tok = lexer.next_token();
        if tok.kind != TokenKind::Empty {
            let text = &src[tok.span.start..tok.span.end];
            texts.push(text.to_string());
        }
    }
    assert_eq!(texts, vec!["await".to_string(), "+".to_string(), "hello".to_string()]);
}

#[test]
fn test_concatenated_spans_reproduce_input() {
    // Coverage: the spans of all tokens, Empty ones included, tile the
    // buffer, so concatenating every span's text reproduces the input.
    let src = "hello `swift`+= people \u{00e9};";
    let alloc = oxc_allocator::Allocator::default();
    let mut lexer = Lexer::new(&alloc, src);
    let mut all: Vec<u8> = Vec::new();
    let mut visible: Vec<u8> = Vec::new();
    while !lexer.is_at_end() {
        let tok = lexer.next_token();
        let text = &src.as_bytes()[tok.span.start..tok.span.end];
        all.extend_from_slice(text);
        if tok.kind != TokenKind::Empty {
            visible.extend_from_slice(text);
        }
    }
    assert_eq!(all, src.as_bytes().to_vec());
    // What the visible tokens drop is exactly the whitespace and the
    // skipped bytes (here: spaces, the non-ASCII character, and the
    // unrecognized `;`).
    assert_eq!(visible, b"hello`swift`+=people".to_vec());
}

#[test]
fn test_exact_spans() {
    let src = "await As";
    let alloc = oxc_allocator::Allocator::default();
    let mut lexer = Lexer::new(&alloc, src);
    let t0 = lexer.next_token();
    assert_eq!(t0.kind, TokenKind::Await);
    assert_eq!((t0.span.start, t0.span.end), (0, 5));
    let t1 = lexer.next_token();
    assert_eq!(t1.kind, TokenKind::Empty);
    assert_eq!((t1.span.start, t1.span.end), (5, 6));
    let t2 = lexer.next_token();
    assert_eq!(t2.kind, TokenKind::As);
    assert_eq!((t2.span.start, t2.span.end), (6, 8));
    assert!(lexer.is_at_end());
}

#[test]
fn test_two_sessions_agree() {
    // Idempotence: two independent sessions over the same buffer yield
    // identical token sequences, spans included.
    let src = "await `As` ++= _x $y 0z;";
    let alloc = oxc_allocator::Allocator::default();
    let mut first = Vec::new();
    let mut lexer = Lexer::new(&alloc, src);
    while !lexer.is_at_end() {
        first.push(lexer.next_token());
    }
    let mut second = Vec::new();
    let mut lexer = Lexer::new(&alloc, src);
    while !lexer.is_at_end() {
        second.push(lexer.next_token());
    }
    assert_eq!(first, second);
}

#[test]
fn test_span_starts_monotonic() {
    let src = "`q` await;; As += x \u{00fc}";
    let alloc = oxc_allocator::Allocator::default();
    let mut lexer = Lexer::new(&alloc, src);
    let mut prev_start = 0;
    while !lexer.is_at_end() {
        let tok = lexer.next_token();
        assert!(tok.span.start <= tok.span.end);
        assert!(prev_start <= tok.span.start);
        prev_start = tok.span.start;
    }
}

#[test]
fn test_identifier_with_underscore_dollar_digits() {
    assert_eq!(lex_kinds("_under score9"), vec![TokenKind::Identifier, TokenKind::Identifier]);
    let toks = lex_tokens("$x 123abc");
    assert_eq!(
        toks.iter().map(|t| t.kind).collect::<Vec<_>>(),
        vec![TokenKind::Identifier, TokenKind::Identifier]
    );
    assert_eq!((toks[0].span.start, toks[0].span.end), (0, 2));
    assert_eq!((toks[1].span.start, toks[1].span.end), (3, 9));
}

#[test]
fn test_unrecognized_byte_reported_and_skipped() {
    let src = "a;b";
    let alloc = oxc_allocator::Allocator::default();
    let mut lexer = Lexer::new(&alloc, src);
    let mut kinds = Vec::new();
    while !lexer.is_at_end() {
        let tok = lexer.next_token();
        if tok.kind != TokenKind::Empty {
            kinds.push(tok.kind);
        }
    }
    assert_eq!(kinds, vec![TokenKind::Identifier, TokenKind::Identifier]);
    assert_eq!(lexer.diagnostics, vec![Diagnostic::UnrecognizedByte { pos: 1, byte: b';' }]);
}

#[test]
fn test_stray_nul_reported_and_skipped() {
    let src = "a\u{0}b";
    let alloc = oxc_allocator::Allocator::default();
    let mut lexer = Lexer::new(&alloc, src);
    let mut kinds = Vec::new();
    while !lexer.is_at_end() {
        let tok = lexer.next_token();
        if tok.kind != TokenKind::Empty {
            kinds.push(tok.kind);
        }
    }
    assert_eq!(kinds, vec![TokenKind::Identifier, TokenKind::Identifier]);
    assert_eq!(lexer.diagnostics, vec![Diagnostic::UnrecognizedByte { pos: 1, byte: 0 }]);
}

#[test]
fn test_unterminated_quoted_identifier() {
    let src = "`abc";
    let alloc = oxc_allocator::Allocator::default();
    let mut lexer = Lexer::new(&alloc, src);
    let tok = lexer.next_token();
    // The malformed token is still an identifier over what was
    // consumed; nothing past the end of the buffer is read.
    assert_eq!(tok.kind, TokenKind::Identifier);
    assert_eq!((tok.span.start, tok.span.end), (0, 4));
    assert!(lexer.is_at_end());
    assert_eq!(lexer.diagnostics, vec![Diagnostic::UnterminatedQuotedIdentifier { start: 0 }]);
}

#[test]
fn test_non_ascii_placeholder_consumes_one_byte() {
    // Each byte of a multi-byte sequence is consumed singly, with no
    // classification and no diagnostic: an acknowledged gap, not an
    // error.
    let src = "\u{00e9}";
    let alloc = oxc_allocator::Allocator::default();
    let mut lexer = Lexer::new(&alloc, src);
    let t0 = lexer.next_token();
    assert_eq!(t0.kind, TokenKind::Empty);
    assert_eq!((t0.span.start, t0.span.end), (0, 1));
    let t1 = lexer.next_token();
    assert_eq!(t1.kind, TokenKind::Empty);
    assert_eq!((t1.span.start, t1.span.end), (1, 2));
    assert!(lexer.is_at_end());
    assert_eq!(lexer.diagnostics, vec![]);
}

#[test]
fn test_next_eq_and_peek() {
    let alloc = oxc_allocator::Allocator::default();
    let mut lexer = Lexer::new(&alloc, "+=");
    assert_eq!(lexer.read_byte(), b'+');
    assert_eq!(lexer.peek(), b'=');
    assert!(lexer.next_eq('='));
    assert!(!lexer.next_eq('='));
    // At the last byte there is no lookahead byte: no match, no motion.
    let mut lexer = Lexer::new(&alloc, "+");
    assert!(!lexer.next_eq('='));
    assert!(!lexer.is_at_end());
}

#[test]
fn test_token_as_str_of_scratch_token() {
    let alloc = oxc_allocator::Allocator::default();
    let lexer = Lexer::new(&alloc, "abc");
    // The scratch token starts as the Empty sentinel with a zero span.
    assert_eq!(lexer.token, Token::new());
    assert_eq!(lexer.token_as_str(), Vec::<u8>::new());
}

#[test]
fn test_exhausted_session_returns_empty_token() {
    let alloc = oxc_allocator::Allocator::default();
    let mut lexer = Lexer::new(&alloc, "a");
    let t0 = lexer.next_token();
    assert_eq!(t0.kind, TokenKind::Identifier);
    assert!(lexer.is_at_end());
    let t1 = lexer.next_token();
    assert_eq!(t1.kind, TokenKind::Empty);
    assert_eq!((t1.span.start, t1.span.end), (1, 1));
}

#[test]
fn test_quoted_identifier_consumes_one_closing_byte() {
    // The closing byte is consumed unconditionally: it is intended to
    // be the matching backtick, and the span includes it.
    let toks = lex_tokens("`ab`");
    assert_eq!(toks.len(), 1);
    assert_eq!(toks[0].kind, TokenKind::Identifier);
    assert_eq!((toks[0].span.start, toks[0].span.end), (0, 4));
    // An underscore does not continue the quoted run: the `_` here is
    // consumed as the closing byte.
    let toks = lex_tokens("`ab_c`");
    assert_eq!(toks[0].kind, TokenKind::Identifier);
    assert_eq!((toks[0].span.start, toks[0].span.end), (0, 4));
}

#[test]
fn test_remaining_tokens_collects_whole_session() {
    let src = "await As hello";
    let alloc = oxc_allocator::Allocator::default();

    // Collecting in one call and pulling token by token are the same
    // session, so they must produce the same sequence.
    let mut collected = Lexer::new(&alloc, src);
    let tokens = collected.remaining_tokens();
    assert!(collected.is_at_end());

    let mut pulled = Lexer::new(&alloc, src);
    let mut one_by_one = Vec::new();
    while !pulled.is_at_end() {
        one_by_one.push(pulled.next_token());
    }
    assert_eq!(tokens, one_by_one);

    let kinds: Vec<TokenKind> =
        tokens.iter().map(|t| t.kind).filter(|k| *k != TokenKind::Empty).collect();
    assert_eq!(kinds, vec![TokenKind::Await, TokenKind::As, TokenKind::Identifier]);
}

#[test]
fn test_default_values() {
    assert_eq!(TokenKind::default(), TokenKind::Empty);
    assert_eq!(Span::default(), Span { start: 0, end: 0 });
    assert_eq!(Token::default(), Token::new());
}
