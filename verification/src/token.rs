//! The tokens the grammar produces: instruction mnemonics and the decimal or
//! hexadecimal literals that follow `PUSH` instructions.

use crate::chars::{is_dec_digit, is_hex_digit};
use crate::hexnum::{bytes_hex_of, canon_hex_digits, dec_val, pow2_256};
use crate::opcode::Opcode;
use vstd::prelude::*;

verus! {

/// One token of a contract listing. An instruction token keeps the lexeme as
/// it stood in the source, so that errors can name it; literal tokens keep
/// their full text, prefix included.
#[derive(Clone, Debug, PartialEq, Eq)]
pub enum Token {
    /// An instruction mnemonic: its kind and its source spelling.
    Instruction(Opcode, String),
    /// A run of decimal digits.
    Number(String),
    /// A `0x`-prefixed run of hexadecimal digits.
    HexNumber(String),
}

/// The mathematical shadow of a token, over character sequences.
#[verifier::ext_equal]
pub enum TokenView {
    Instruction(Opcode, Seq<char>),
    Number(Seq<char>),
    HexNumber(Seq<char>),
}

impl View for Token {
    type V = TokenView;

    open spec fn view(&self) -> TokenView {
        match self {
            Token::Instruction(op, s) => TokenView::Instruction(*op, s@),
            Token::Number(s) => TokenView::Number(s@),
            Token::HexNumber(s) => TokenView::HexNumber(s@),
        }
    }
}

/// The source text of a token.
pub open spec fn token_text(t: TokenView) -> Seq<char> {
    match t {
        TokenView::Instruction(_, s) => s,
        TokenView::Number(s) => s,
        TokenView::HexNumber(s) => s,
    }
}

/// Whether a token is a literal operand.
pub open spec fn is_literal(t: TokenView) -> bool {
    match t {
        TokenView::Instruction(_, _) => false,
        TokenView::Number(_) => true,
        TokenView::HexNumber(_) => true,
    }
}

/// A well-formed token, as the grammar produces them: a number is a nonempty
/// run of decimal digits whose value fits in 256 bits, and a hex number is
/// `0x` followed by at least one hexadecimal digit.
pub open spec fn token_wf(t: TokenView) -> bool {
    match t {
        TokenView::Instruction(_, _) => true,
        TokenView::Number(s) => s.len() > 0 && (forall|i: int|
            0 <= i < s.len() ==> is_dec_digit(#[trigger] s[i])) && dec_val(s) < pow2_256(),
        TokenView::HexNumber(s) => s.len() >= 3 && s[0] == '0' && s[1] == 'x' && (forall|i: int|
            2 <= i < s.len() ==> is_hex_digit(#[trigger] s[i])),
    }
}

/// The whole-byte uppercase hexadecimal rendering of a literal operand: for a
/// decimal literal the rendering of its value, for a hexadecimal literal its
/// digits uppercased; both widened by one `'0'` to an even digit count.
pub open spec fn lit_hex(t: TokenView) -> Seq<char> {
    match t {
        TokenView::Instruction(_, _) => Seq::empty(),
        TokenView::Number(s) => bytes_hex_of(dec_val(s)),
        TokenView::HexNumber(s) => canon_hex_digits(s.skip(2)),
    }
}

/// The byte width of a literal operand: the whole bytes its rendering fills.
pub open spec fn lit_width(t: TokenView) -> nat {
    lit_hex(t).len() / 2
}

impl Token {
    /// The source text of the token.
    pub fn text(&self) -> (r: String)
        ensures
            r@ == token_text(self@),
    {
        match self {
            Token::Instruction(_, s) => s.clone(),
            Token::Number(s) => s.clone(),
            Token::HexNumber(s) => s.clone(),
        }
    }
}

/// The views of a sequence of tokens.
pub open spec fn token_views(ts: Seq<Token>) -> Seq<TokenView> {
    ts.map_values(|t: Token| t@)
}

} // verus!
