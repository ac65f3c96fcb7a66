//! Tokens: what the lexer hands to the parser.

use vstd::prelude::*;
use vstd::string::StringExecFns;
use crate::bytes::{lossy_text, Bytes};
use crate::fmt_support::write_text;
use crate::lex_state::LexState;
use crate::loc::Loc;
use crate::text::{debug_quoted, decimal, decimal_text, quoted};

verus! {

/// The code of the first keyword terminal.
pub const FIRST_KEYWORD: i32 = 258;

/// The code of the last keyword terminal.
pub const LAST_KEYWORD: i32 = 306;

/// The name of the keyword terminal with code `token_type`; `None` for any
/// other code.
pub open spec fn keyword_name(token_type: i32) -> Option<&'static str> {
    if token_type == 258 {
        Some("kCLASS")
    } else if token_type == 259 {
        Some("kMODULE")
    } else if token_type == 260 {
        Some("kDEF")
    } else if token_type == 261 {
        Some("kUNDEF")
    } else if token_type == 262 {
        Some("kBEGIN")
    } else if token_type == 263 {
        Some("kRESCUE")
    } else if token_type == 264 {
        Some("kENSURE")
    } else if token_type == 265 {
        Some("kEND")
    } else if token_type == 266 {
        Some("kIF")
    } else if token_type == 267 {
        Some("kUNLESS")
    } else if token_type == 268 {
        Some("kTHEN")
    } else if token_type == 269 {
        Some("kELSIF")
    } else if token_type == 270 {
        Some("kELSE")
    } else if token_type == 271 {
        Some("kCASE")
    } else if token_type == 272 {
        Some("kWHEN")
    } else if token_type == 273 {
        Some("kWHILE")
    } else if token_type == 274 {
        Some("kUNTIL")
    } else if token_type == 275 {
        Some("kFOR")
    } else if token_type == 276 {
        Some("kBREAK")
    } else if token_type == 277 {
        Some("kNEXT")
    } else if token_type == 278 {
        Some("kREDO")
    } else if token_type == 279 {
        Some("kRETRY")
    } else if token_type == 280 {
        Some("kIN")
    } else if token_type == 281 {
        Some("kDO")
    } else if token_type == 282 {
        Some("kDO_COND")
    } else if token_type == 283 {
        Some("kDO_BLOCK")
    } else if token_type == 284 {
        Some("kDO_LAMBDA")
    } else if token_type == 285 {
        Some("kRETURN")
    } else if token_type == 286 {
        Some("kYIELD")
    } else if token_type == 287 {
        Some("kSUPER")
    } else if token_type == 288 {
        Some("kSELF")
    } else if token_type == 289 {
        Some("kNIL")
    } else if token_type == 290 {
        Some("kTRUE")
    } else if token_type == 291 {
        Some("kFALSE")
    } else if token_type == 292 {
        Some("kAND")
    } else if token_type == 293 {
        Some("kOR")
    } else if token_type == 294 {
        Some("kNOT")
    } else if token_type == 295 {
        Some("kIF_MOD")
    } else if token_type == 296 {
        Some("kUNLESS_MOD")
    } else if token_type == 297 {
        Some("kWHILE_MOD")
    } else if token_type == 298 {
        Some("kUNTIL_MOD")
    } else if token_type == 299 {
        Some("kRESCUE_MOD")
    } else if token_type == 300 {
        Some("kALIAS")
    } else if token_type == 301 {
        Some("kDEFINED")
    } else if token_type == 302 {
        Some("klBEGIN")
    } else if token_type == 303 {
        Some("klEND")
    } else if token_type == 304 {
        Some("k__LINE__")
    } else if token_type == 305 {
        Some("k__FILE__")
    } else if token_type == 306 {
        Some("k__ENCODING__")
    } else {
        None
    }
}

/// How a token's terminal is shown: a keyword by its name, any other
/// terminal by its code.
pub open spec fn label_of(token_type: i32) -> Seq<char> {
    match keyword_name(token_type) {
        Some(name) => name@,
        None => decimal(token_type as int),
    }
}

/// A token: a terminal of the grammar with the place it was read from.
pub struct Token {
    /// The code of the terminal.
    pub token_type: i32,
    /// The text of the token. A rewriter may replace it.
    pub token_value: Bytes,
    /// The range that the token was read from.
    pub loc: Loc,
    /// The lexer's mode before it read the token.
    pub lex_state_before: LexState,
    /// The lexer's mode after it read the token.
    pub lex_state_after: LexState,
}

/// What a token holds, with the bytes of its value in place of the value.
pub struct TokenView {
    /// The code of the terminal.
    pub token_type: i32,
    /// The bytes of the value.
    pub token_value: Seq<u8>,
    /// The range that the token was read from.
    pub loc: Loc,
    /// The lexer's mode before it read the token.
    pub lex_state_before: LexState,
    /// The lexer's mode after it read the token.
    pub lex_state_after: LexState,
}

impl View for Token {
    type V = TokenView;

    open spec fn view(&self) -> TokenView {
        TokenView {
            token_type: self.token_type,
            token_value: self.token_value@,
            loc: self.loc,
            lex_state_before: self.lex_state_before,
            lex_state_after: self.lex_state_after,
        }
    }
}

impl Token {
    /// Makes a token from its parts.
    pub fn new(
        token_type: i32,
        token_value: Bytes,
        loc: Loc,
        lex_state_before: LexState,
        lex_state_after: LexState,
    ) -> (r: Token)
        ensures
            r == (Token { token_type, token_value, loc, lex_state_before, lex_state_after }),
    {
        Token { token_type, token_value, loc, lex_state_before, lex_state_after }
    }

    /// The code of the terminal.
    pub fn token_type(&self) -> (r: i32)
        ensures
            r == self.token_type,
    {
        self.token_type
    }

    /// The text of the token.
    pub fn token_value(&self) -> (r: &Bytes)
        ensures
            *r == self.token_value,
    {
        &self.token_value
    }

    /// Replaces the text of the token. The range stays what it was: it says
    /// where the token was read, whatever its text is made to be.
    pub fn set_token_value(&mut self, token_value: Bytes)
        ensures
            *final(self) == (Token { token_value, ..*old(self) }),
    {
        self.token_value = token_value;
    }

    /// Gives the text of the token up.
    pub fn into_token_value(self) -> (r: Bytes)
        ensures
            r == self.token_value,
    {
        self.token_value
    }

    /// The range that the token was read from.
    pub fn loc(&self) -> (r: &Loc)
        ensures
            *r == self.loc,
    {
        &self.loc
    }

    /// The lexer's mode before it read the token.
    pub fn lex_state_before(&self) -> (r: LexState)
        ensures
            r == self.lex_state_before,
    {
        self.lex_state_before
    }

    /// The lexer's mode after it read the token.
    pub fn lex_state_after(&self) -> (r: LexState)
        ensures
            r == self.lex_state_after,
    {
        self.lex_state_after
    }

    /// The name of the token's terminal, if it is a keyword.
    pub fn token_name(&self) -> (r: Option<&'static str>)
        ensures
            r == keyword_name(self.token_type),
            r is Some <==> FIRST_KEYWORD <= self.token_type <= LAST_KEYWORD,
    {
        let token_type: i32 = self.token_type;
        if token_type == 258 {
            Some("kCLASS")
        } else if token_type == 259 {
            Some("kMODULE")
        } else if token_type == 260 {
            Some("kDEF")
        } else if token_type == 261 {
            Some("kUNDEF")
        } else if token_type == 262 {
            Some("kBEGIN")
        } else if token_type == 263 {
            Some("kRESCUE")
        } else if token_type == 264 {
            Some("kENSURE")
        } else if token_type == 265 {
            Some("kEND")
        } else if token_type == 266 {
            Some("kIF")
        } else if token_type == 267 {
            Some("kUNLESS")
        } else if token_type == 268 {
            Some("kTHEN")
        } else if token_type == 269 {
            Some("kELSIF")
        } else if token_type == 270 {
            Some("kELSE")
        } else if token_type == 271 {
            Some("kCASE")
        } else if token_type == 272 {
            Some("kWHEN")
        } else if token_type == 273 {
            Some("kWHILE")
        } else if token_type == 274 {
            Some("kUNTIL")
        } else if token_type == 275 {
            Some("kFOR")
        } else if token_type == 276 {
            Some("kBREAK")
        } else if token_type == 277 {
            Some("kNEXT")
        } else if token_type == 278 {
            Some("kREDO")
        } else if token_type == 279 {
            Some("kRETRY")
        } else if token_type == 280 {
            Some("kIN")
        } else if token_type == 281 {
            Some("kDO")
        } else if token_type == 282 {
            Some("kDO_COND")
        } else if token_type == 283 {
            Some("kDO_BLOCK")
        } else if token_type == 284 {
            Some("kDO_LAMBDA")
        } else if token_type == 285 {
            Some("kRETURN")
        } else if token_type == 286 {
            Some("kYIELD")
        } else if token_type == 287 {
            Some("kSUPER")
        } else if token_type == 288 {
            Some("kSELF")
        } else if token_type == 289 {
            Some("kNIL")
        } else if token_type == 290 {
            Some("kTRUE")
        } else if token_type == 291 {
            Some("kFALSE")
        } else if token_type == 292 {
            Some("kAND")
        } else if token_type == 293 {
            Some("kOR")
        } else if token_type == 294 {
            Some("kNOT")
        } else if token_type == 295 {
            Some("kIF_MOD")
        } else if token_type == 296 {
            Some("kUNLESS_MOD")
        } else if token_type == 297 {
            Some("kWHILE_MOD")
        } else if token_type == 298 {
            Some("kUNTIL_MOD")
        } else if token_type == 299 {
            Some("kRESCUE_MOD")
        } else if token_type == 300 {
            Some("kALIAS")
        } else if token_type == 301 {
            Some("kDEFINED")
        } else if token_type == 302 {
            Some("klBEGIN")
        } else if token_type == 303 {
            Some("klEND")
        } else if token_type == 304 {
            Some("k__LINE__")
        } else if token_type == 305 {
            Some("k__FILE__")
        } else if token_type == 306 {
            Some("k__ENCODING__")
        } else {
            None
        }
    }
}

/// How a token is shown, given how its text is shown: between square
/// brackets its label, the text, and its range.
pub open spec fn token_text_with(token: TokenView, value_shown: Seq<char>) -> Seq<char> {
    "["@ + label_of(token.token_type) + ", "@ + value_shown + ", "@ + token.loc.shown() + "]"@
}

/// How a token is shown: between square brackets its label, its text
/// between quotes, and its range.
pub open spec fn token_text(token: TokenView) -> Seq<char> {
    token_text_with(token, quoted(lossy_text(token.token_value)))
}

impl Token {
    /// The token as text, given its text as it is to be shown:
    /// `[label, text, begin...end]`.
    pub fn text_with(&self, value_shown: &str) -> (r: String)
        ensures
            r@ == token_text_with(self@, value_shown@),
    {
        let mut out = String::from_str("[");
        let label = self.label();
        out.append(label.as_str());
        out.append(", ");
        out.append(value_shown);
        out.append(", ");
        let loc = self.loc.debug_text();
        out.append(loc.as_str());
        out.append("]");
        assert(out@ =~= token_text_with(self@, value_shown@));
        out
    }

    /// The token as text, as `token_text` says: `[label, "text", begin...end]`,
    /// the text read as `to_string_lossy` reads it and shown between quotes.
    pub fn debug_text(&self) -> (r: String)
        ensures
            r@ == token_text(self@),
    {
        let text = self.token_value.to_string_lossy();
        let shown = debug_quoted(text.as_str());
        self.text_with(shown.as_str())
    }

    /// How the token's terminal is shown, as `label_of` says.
    pub fn label(&self) -> (r: String)
        ensures
            r@ == label_of(self.token_type),
    {
        match self.token_name() {
            Some(name) => name.to_owned(),
            None => decimal_text(self.token_type as i64),
        }
    }
}

impl Clone for Token {
    /// A copy that holds the same as the token.
    fn clone(&self) -> (r: Token)
        ensures
            r@ == self@,
    {
        Token {
            token_type: self.token_type,
            token_value: self.token_value.clone(),
            loc: self.loc,
            lex_state_before: self.lex_state_before,
            lex_state_after: self.lex_state_after,
        }
    }
}

impl PartialEq for Token {
    /// True exactly when the two tokens hold the same.
    fn eq(&self, other: &Token) -> (r: bool) {
        self.token_type == other.token_type && self.token_value.same_bytes(&other.token_value)
            && self.loc == other.loc && self.lex_state_before == other.lex_state_before
            && self.lex_state_after == other.lex_state_after
    }
}

impl vstd::std_specs::cmp::PartialEqSpecImpl for Token {
    open spec fn obeys_eq_spec() -> bool {
        true
    }

    open spec fn eq_spec(&self, other: &Token) -> bool {
        self@ == other@
    }
}

impl core::fmt::Debug for Token {
    /// Writes the text that `debug_text` gives.
    fn fmt(&self, f: &mut core::fmt::Formatter<'_>) -> core::fmt::Result {
        let text = self.debug_text();
        write_text(f, text.as_str())
    }
}

} // verus!
