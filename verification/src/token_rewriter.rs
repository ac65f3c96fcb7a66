//! The hook through which a caller may rewrite the tokens that the parser
//! sees.

use vstd::prelude::*;
use crate::held::Held;
use crate::lex_state::LexState;
use crate::token::Token;

verus! {

/// What is to become of a token that went through the rewriter.
#[derive(Debug, Clone, Copy, PartialEq, Eq, Structural)]
pub enum RewriteAction {
    /// The token is left out: the parser asks for the next one.
    Drop,
    /// The token is handed to the parser.
    Keep,
}

/// What is to become of the lexer's mode after a token went through the
/// rewriter.
#[derive(Debug, Clone, Copy, PartialEq, Eq, Structural)]
pub enum LexStateAction {
    /// The mode is set to these bits.
    SetTo(i32),
    /// The mode stays.
    Keep,
}

/// What a rewriter returns.
#[derive(Debug, Clone, PartialEq)]
pub struct TokenRewriterResult {
    /// The token, rewritten or not.
    pub rewritten_token: Box<Token>,
    /// Whether the parser gets the token.
    pub token_action: RewriteAction,
    /// Whether the lexer's mode changes.
    pub lex_state_action: LexStateAction,
}

/// A rewriter supplied by the caller of the parser. An implementation may
/// say in `rewrites` which decisions it makes; one that says nothing may
/// make any.
pub trait TokenRewrite {
    /// True when `result` is a decision that this rewriter may make of
    /// `token`, read from the source `input`. Unless an implementation says
    /// otherwise, every decision is.
    open spec fn rewrites(
        &self,
        token: Box<Token>,
        input: &[u8],
        result: TokenRewriterResult,
    ) -> bool {
        true
    }

    /// Looks at `token`, read from the source `input`, and decides.
    fn rewrite(&self, token: Box<Token>, input: &[u8]) -> (r: TokenRewriterResult)
        ensures
            self.rewrites(token, input, r),
    ;
}

/// A caller-supplied rewriter, boxed.
pub struct TokenRewriter {
    f: Held<Box<dyn TokenRewrite>>,
}

/// The lexer's mode after a rewriter's decision.
pub open spec fn state_after(action: LexStateAction, state: LexState) -> LexState {
    match action {
        LexStateAction::SetTo(value) => LexState { value },
        LexStateAction::Keep => state,
    }
}

impl TokenRewriter {
    /// True when `result` is a decision that the rewriter held may make of
    /// `token`, read from the source `input`, as the rewriter's own
    /// `rewrites` says.
    pub closed spec fn rewrites(
        &self,
        token: Box<Token>,
        input: &[u8],
        result: TokenRewriterResult,
    ) -> bool {
        self.f.inner.rewrites(token, input, result)
    }

    /// Wraps a rewriter: what is returned holds `f`, so that it makes the
    /// decisions that `f` makes.
    pub fn new(f: Box<dyn TokenRewrite>) -> (r: TokenRewriter)
        ensures
            forall|token: Box<Token>, input: &[u8], result: TokenRewriterResult|
                #[trigger] r.rewrites(token, input, result) == f.rewrites(token, input, result),
    {
        let ghost given = f;
        let held = Held::new(f);
        let r = TokenRewriter { f: held };
        assert(r.f == held);
        assert(r.f.inner == given);
        r
    }

    /// Runs the rewriter held on `token`, read from the source `input`, and
    /// returns its decision.
    pub fn call(&self, token: Box<Token>, input: &[u8]) -> (r: TokenRewriterResult)
        ensures
            self.rewrites(token, input, r),
    {
        self.f.inner.rewrite(token, input)
    }
}

/// What becomes of a rewriter's decision: the token for the parser, or `None`
/// when the token is dropped, and the lexer's mode from then on.
pub open spec fn decided(decision: TokenRewriterResult, state: LexState) -> (
    Option<Box<Token>>,
    LexState,
) {
    (
        match decision.token_action {
            RewriteAction::Keep => Some(decision.rewritten_token),
            RewriteAction::Drop => None,
        },
        state_after(decision.lex_state_action, state),
    )
}

/// Takes a rewriter's decision: the token for the parser, or `None` when the
/// token is dropped, and the lexer's mode from then on.
pub fn decide(decision: TokenRewriterResult, state: LexState) -> (r: (Option<Box<Token>>, LexState))
    ensures
        r == decided(decision, state),
{
    let TokenRewriterResult { rewritten_token, token_action, lex_state_action } = decision;
    let state = match lex_state_action {
        LexStateAction::SetTo(value) => LexState { value },
        LexStateAction::Keep => state,
    };
    let token = match token_action {
        RewriteAction::Keep => Some(rewritten_token),
        RewriteAction::Drop => None,
    };
    (token, state)
}

/// Passes a token that the lexer has just read through the rewriter, if
/// there is one, before the parser sees it. Without a rewriter the token and
/// the mode go on unchanged; with one, they are what `decided` makes of a
/// decision of the rewriter on this token.
pub fn rewrite_token(
    rewriter: &Option<TokenRewriter>,
    token: Box<Token>,
    input: &[u8],
    state: LexState,
) -> (r: (Option<Box<Token>>, LexState))
    ensures
        match *rewriter {
            Some(rewriter) => exists|decision: TokenRewriterResult|
                #[trigger] rewriter.rewrites(token, input, decision) && r == decided(
                    decision,
                    state,
                ),
            None => r == (Some(token), state),
        },
{
    match rewriter {
        Some(rewriter) => {
            let decision = rewriter.call(token, input);
            assert(rewriter.rewrites(token, input, decision));
            decide(decision, state)
        },
        None => (Some(token), state),
    }
}

} // verus!
