//! The error taxonomy of the assembler. Every failure is fatal and is
//! returned as a value; the first error aborts the assembly of a contract.

use crate::hexnum::{dec_str_of, usize_to_string};
use vstd::prelude::*;

verus! {

/// Why an assembly call failed.
#[derive(Clone, Debug, PartialEq, Eq)]
pub enum EVMMError {
    /// The input does not conform to the grammar; holds the first
    /// unrecognized lexeme.
    ParseError(String),
    /// A `PUSH` instruction stood at the end of the input with no operand.
    ExpectedInstruction(),
    /// The token after a `PUSH` was not a literal, or a literal stood where
    /// an instruction was expected; holds the offending lexeme.
    UnexpectedInstruction(String),
    /// A `PUSH` operand was wider than the instruction allows: the mnemonic,
    /// the literal text, and the literal's byte width.
    ValueTooBigForPushInstruction(String, String, usize),
    /// The tracked stack held fewer values than an instruction needs: the
    /// mnemonic, the depth required, and the depth at hand.
    NotEnoughValuesOnStack(String, usize, usize),
}

/// The mathematical shadow of an error, over character sequences.
#[verifier::ext_equal]
pub enum ErrorView {
    ParseError(Seq<char>),
    ExpectedInstruction,
    UnexpectedInstruction(Seq<char>),
    ValueTooBigForPushInstruction(Seq<char>, Seq<char>, nat),
    NotEnoughValuesOnStack(Seq<char>, nat, nat),
}

impl View for EVMMError {
    type V = ErrorView;

    open spec fn view(&self) -> ErrorView {
        match self {
            EVMMError::ParseError(s) => ErrorView::ParseError(s@),
            EVMMError::ExpectedInstruction() => ErrorView::ExpectedInstruction,
            EVMMError::UnexpectedInstruction(s) => ErrorView::UnexpectedInstruction(s@),
            EVMMError::ValueTooBigForPushInstruction(m, v, w) => {
                ErrorView::ValueTooBigForPushInstruction(m@, v@, *w as nat)
            },
            EVMMError::NotEnoughValuesOnStack(m, r, d) => {
                ErrorView::NotEnoughValuesOnStack(m@, *r as nat, *d as nat)
            },
        }
    }
}

/// A piece of text in straight quotes.
pub open spec fn quoted(s: Seq<char>) -> Seq<char> {
    "\""@ + s + "\""@
}

/// The user-visible description of an error: it names the offending mnemonic
/// or literal and, for stack errors, both the required and the actual depth.
pub open spec fn error_message(e: ErrorView) -> Seq<char> {
    match e {
        ErrorView::ParseError(lex) => "Error when parsing file. Unrecognized lexeme: "@ + quoted(
            lex,
        ),
        ErrorView::ExpectedInstruction => "Expected instruction but none was found"@,
        ErrorView::UnexpectedInstruction(lex) => "Unexpected instruction: "@ + quoted(lex),
        ErrorView::ValueTooBigForPushInstruction(m, v, w) => {
            "Value is too large for PUSH instruction. Instruction: "@ + quoted(m) + ". Value: "@
                + quoted(v) + ". Value byte size: "@ + dec_str_of(w)
        },
        ErrorView::NotEnoughValuesOnStack(m, r, d) => {
            "Not enough values on the stack. Instruction: "@ + quoted(m) + ". Stack size: "@
                + dec_str_of(d) + ". Stack Size Needed: "@ + dec_str_of(r)
        },
    }
}

impl EVMMError {
    /// Renders the error as its user-visible message.
    pub fn message(&self) -> (r: String)
        ensures
            r@ == error_message(self@),
    {
        let mut out = String::new();
        match self {
            EVMMError::ParseError(lex) => {
                out.append("Error when parsing file. Unrecognized lexeme: ");
                out.append("\"");
                out.append(lex.as_str());
                out.append("\"");
            },
            EVMMError::ExpectedInstruction() => {
                out.append("Expected instruction but none was found");
            },
            EVMMError::UnexpectedInstruction(lex) => {
                out.append("Unexpected instruction: ");
                out.append("\"");
                out.append(lex.as_str());
                out.append("\"");
            },
            EVMMError::ValueTooBigForPushInstruction(m, v, w) => {
                out.append("Value is too large for PUSH instruction. Instruction: ");
                out.append("\"");
                out.append(m.as_str());
                out.append("\"");
                out.append(". Value: ");
                out.append("\"");
                out.append(v.as_str());
                out.append("\"");
                out.append(". Value byte size: ");
                let ws = usize_to_string(*w);
                out.append(ws.as_str());
            },
            EVMMError::NotEnoughValuesOnStack(m, r, d) => {
                out.append("Not enough values on the stack. Instruction: ");
                out.append("\"");
                out.append(m.as_str());
                out.append("\"");
                out.append(". Stack size: ");
                let ds = usize_to_string(*d);
                out.append(ds.as_str());
                out.append(". Stack Size Needed: ");
                let rs = usize_to_string(*r);
                out.append(rs.as_str());
            },
        }
        proof {
            assert(out@ =~= error_message(self@));
        }
        out
    }
}

} // verus!
