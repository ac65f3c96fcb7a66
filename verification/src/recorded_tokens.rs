//! The list of tokens that a parse records, if it is asked to.

use vstd::prelude::*;
use crate::token::{Token, TokenView};

verus! {

/// What the tokens of `tokens` hold, one for one.
pub open spec fn token_views(tokens: Seq<Token>) -> Seq<TokenView> {
    Seq::new(tokens.len(), |i: int| tokens[i]@)
}

/// The tokens that the parser has consumed, kept only when recording is on.
/// With recording off there is no list, so nothing is ever stored.
pub enum RecordedTokens {
    /// Recording is off.
    Off,
    /// Recording is on, and these are the tokens so far.
    On(Vec<Token>),
}

impl View for RecordedTokens {
    type V = Seq<TokenView>;

    open spec fn view(&self) -> Seq<TokenView> {
        match self {
            RecordedTokens::Off => Seq::empty(),
            RecordedTokens::On(tokens) => token_views(tokens@),
        }
    }
}

impl RecordedTokens {
    /// Whether tokens are recorded.
    pub open spec fn recording(&self) -> bool {
        self is On
    }

    /// An empty record, with recording on or off.
    pub fn new(record_tokens: bool) -> (r: RecordedTokens)
        ensures
            r.recording() == record_tokens,
            r@.len() == 0,
    {
        if record_tokens {
            RecordedTokens::On(Vec::new())
        } else {
            RecordedTokens::Off
        }
    }

    /// Offers a token that the parser has consumed: a copy of it is put at
    /// the end of the list when recording is on, and nothing happens when
    /// it is off.
    pub fn record(&mut self, token: &Token)
        ensures
            final(self).recording() == old(self).recording(),
            final(self)@ == if old(self).recording() {
                old(self)@.push(token@)
            } else {
                old(self)@
            },
    {
        match self {
            RecordedTokens::Off => {},
            RecordedTokens::On(tokens) => {
                let ghost before = tokens@;
                tokens.push(token.clone());
                assert(token_views(tokens@) =~= token_views(before).push(token@));
            },
        }
    }

    /// Gives the list up: the tokens that were recorded, in their order, and
    /// none when recording was off.
    pub fn into_tokens(self) -> (r: Vec<Token>)
        ensures
            token_views(r@) == self@,
            !self.recording() ==> r@.len() == 0,
    {
        match self {
            RecordedTokens::Off => {
                let none: Vec<Token> = Vec::new();
                assert(token_views(none@) =~= Seq::<TokenView>::empty());
                none
            },
            RecordedTokens::On(tokens) => tokens,
        }
    }
}

/// With recording off, the list that a record gives up is empty, whatever
/// the record was offered since it was made.
pub proof fn lemma_off_stays_empty(before: RecordedTokens, after: RecordedTokens)
    requires
        !before.recording(),
        after.recording() == before.recording(),
    ensures
        after@.len() == 0,
{
}

} // verus!
