//! The parser's own error taxonomy. It mirrors [`crate::evmm_error::EVMMError`]
//! variant for variant; the parser itself only ever reports `ParseError`.

use crate::evmm_error::{error_message, ErrorView, EVMMError};
use crate::hexnum::usize_to_string;
use vstd::prelude::*;

verus! {

/// Why parsing a contract failed.
#[derive(Clone, Debug, PartialEq, Eq)]
pub enum EVMMParserError {
    /// The input does not conform to the grammar; holds the first
    /// unrecognized lexeme.
    ParseError(String),
    /// A `PUSH` instruction stood at the end of the input with no operand.
    ExpectedInstruction(),
    /// The token after a `PUSH` was not a literal, or a literal stood where
    /// an instruction was expected; holds the offending lexeme.
    UnexpectedInstruction(String),
    /// A `PUSH` operand was wider than the instruction allows: the mnemonic,
    /// the literal text, and the literal's byte width.
    ValueTooBigForPushInstruction(String, String, usize),
    /// The tracked stack held fewer values than an instruction needs: the
    /// mnemonic, the depth required, and the depth at hand.
    NotEnoughValuesOnStack(String, usize, usize),
}

impl View for EVMMParserError {
    type V = ErrorView;

    open spec fn view(&self) -> ErrorView {
        match self {
            EVMMParserError::ParseError(s) => ErrorView::ParseError(s@),
            EVMMParserError::ExpectedInstruction() => ErrorView::ExpectedInstruction,
            EVMMParserError::UnexpectedInstruction(s) => ErrorView::UnexpectedInstruction(s@),
            EVMMParserError::ValueTooBigForPushInstruction(m, v, w) => {
                ErrorView::ValueTooBigForPushInstruction(m@, v@, *w as nat)
            },
            EVMMParserError::NotEnoughValuesOnStack(m, r, d) => {
                ErrorView::NotEnoughValuesOnStack(m@, *r as nat, *d as nat)
            },
        }
    }
}

impl EVMMParserError {
    /// Carries the error over into the assembler's taxonomy unchanged.
    pub fn into_evmm_error(self) -> (r: EVMMError)
        ensures
            r@ == self@,
    {
        match self {
            EVMMParserError::ParseError(s) => EVMMError::ParseError(s),
            EVMMParserError::ExpectedInstruction() => EVMMError::ExpectedInstruction(),
            EVMMParserError::UnexpectedInstruction(s) => EVMMError::UnexpectedInstruction(s),
            EVMMParserError::ValueTooBigForPushInstruction(m, v, w) => {
                EVMMError::ValueTooBigForPushInstruction(m, v, w)
            },
            EVMMParserError::NotEnoughValuesOnStack(m, r, d) => {
                EVMMError::NotEnoughValuesOnStack(m, r, d)
            },
        }
    }

    /// Renders the error as its user-visible message.
    pub fn message(&self) -> (r: String)
        ensures
            r@ == error_message(self@),
    {
        let mut out = String::new();
        match self {
            EVMMParserError::ParseError(lex) => {
                out.append("Error when parsing file. Unrecognized lexeme: ");
                out.append("\"");
                out.append(lex.as_str());
                out.append("\"");
            },
            EVMMParserError::ExpectedInstruction() => {
                out.append("Expected instruction but none was found");
            },
            EVMMParserError::UnexpectedInstruction(lex) => {
                out.append("Unexpected instruction: ");
                out.append("\"");
                out.append(lex.as_str());
                out.append("\"");
            },
            EVMMParserError::ValueTooBigForPushInstruction(m, v, w) => {
                out.append("Value is too large for PUSH instruction. Instruction: ");
                out.append("\"");
                out.append(m.as_str());
                out.append("\"");
                out.append(". Value: ");
                out.append("\"");
                out.append(v.as_str());
                out.append("\"");
                out.append(". Value byte size: ");
                let ws = usize_to_string(*w);
                out.append(ws.as_str());
            },
            EVMMParserError::NotEnoughValuesOnStack(m, r, d) => {
                out.append("Not enough values on the stack. Instruction: ");
                out.append("\"");
                out.append(m.as_str());
                out.append("\"");
                out.append(". Stack size: ");
                let ds = usize_to_string(*d);
                out.append(ds.as_str());
                out.append(". Stack Size Needed: ");
                let rs = usize_to_string(*r);
                out.append(rs.as_str());
            },
        }
        proof {
            assert(out@ =~= error_message(self@));
        }
        out
    }
}

} // verus!
