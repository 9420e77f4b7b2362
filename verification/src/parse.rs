//! The grammar: a tolerant tokenizer for contract listings.
//!
//! Whitespace separates lexemes and is discarded, as are line comments from
//! `//` to the end of the line. Every remaining maximal run of characters
//! must be a mnemonic (case-insensitive), a run of decimal digits naming a
//! 256-bit value, or `0x` followed by hexadecimal digits; anything else is a
//! parse error naming that run.

use crate::chars::{is_dec_digit, is_dec_digit_char, is_hex_digit, is_hex_digit_char, is_space,
    is_space_char};
use crate::evmm_error::ErrorView;
use crate::hexnum::{dec_str_fits, dec_val, pow2_256};
use crate::opcode::{lookup_mnemonic, mnemonic_of};
use crate::parser_error::EVMMParserError;
use crate::token::{token_views, token_wf, Token, TokenView};
use vstd::prelude::*;

verus! {

/// Whether a line comment starts at position `i`.
pub open spec fn comment_start(s: Seq<char>, i: int) -> bool {
    i + 1 < s.len() && s[i] == '/' && s[i + 1] == '/'
}

/// Whether the lexeme running through position `i` ends there.
pub open spec fn lex_stop(s: Seq<char>, i: int) -> bool {
    is_space(s[i]) || comment_start(s, i)
}

/// The position just past the lexeme that runs through position `i`.
pub open spec fn run_end(s: Seq<char>, i: int) -> int
    decreases s.len() - i,
{
    if i < 0 || i >= s.len() {
        s.len() as int
    } else if lex_stop(s, i) {
        i
    } else {
        run_end(s, i + 1)
    }
}

proof fn lemma_run_end_bounds(s: Seq<char>, i: int)
    requires
        0 <= i <= s.len(),
    ensures
        i <= run_end(s, i) <= s.len(),
    decreases s.len() - i,
{
    if i < s.len() && !lex_stop(s, i) {
        lemma_run_end_bounds(s, i + 1);
    }
}

/// The position of the newline that ends the line holding position `i`, or
/// the input's end.
pub open spec fn line_end(s: Seq<char>, i: int) -> int
    decreases s.len() - i,
{
    if i < 0 || i >= s.len() {
        s.len() as int
    } else if s[i] == '\n' {
        i
    } else {
        line_end(s, i + 1)
    }
}

proof fn lemma_line_end_bounds(s: Seq<char>, i: int)
    requires
        0 <= i <= s.len(),
    ensures
        i <= line_end(s, i) <= s.len(),
    decreases s.len() - i,
{
    if i < s.len() && s[i] != '\n' {
        lemma_line_end_bounds(s, i + 1);
    }
}

/// What a single lexeme is: a run of decimal digits naming a 256-bit value,
/// a `0x`-prefixed run of hexadecimal digits, or a mnemonic. A run of digits
/// whose value overflows 256 bits is no token at all.
pub open spec fn classify(lex: Seq<char>) -> Option<TokenView> {
    if lex.len() > 0 && (forall|i: int| 0 <= i < lex.len() ==> is_dec_digit(#[trigger] lex[i])) {
        if dec_val(lex) < pow2_256() {
            Some(TokenView::Number(lex))
        } else {
            None
        }
    } else if lex.len() >= 3 && lex[0] == '0' && lex[1] == 'x' && (forall|i: int|
        2 <= i < lex.len() ==> is_hex_digit(#[trigger] lex[i])) {
        Some(TokenView::HexNumber(lex))
    } else {
        match mnemonic_of(lex) {
            Some(op) => Some(TokenView::Instruction(op, lex)),
            None => None,
        }
    }
}

/// Every token the grammar classifies is well formed.
pub proof fn lemma_classify_wf(lex: Seq<char>)
    ensures
        classify(lex) matches Some(t) ==> token_wf(t),
{
}

/// The token stream of the input from position `i` on: the sequence of
/// classified lexemes, or the first unrecognized lexeme as a parse error.
pub open spec fn tokenize_from(s: Seq<char>, i: int) -> Result<Seq<TokenView>, ErrorView>
    decreases s.len() - i,
    via tokenize_from_decreases
{
    if i < 0 || i >= s.len() {
        Ok(Seq::empty())
    } else if is_space(s[i]) {
        tokenize_from(s, i + 1)
    } else if comment_start(s, i) {
        tokenize_from(s, line_end(s, i))
    } else {
        let j = run_end(s, i);
        match classify(s.subrange(i, j)) {
            Some(t) => match tokenize_from(s, j) {
                Ok(rest) => Ok(seq![t] + rest),
                Err(e) => Err(e),
            },
            None => Err(ErrorView::ParseError(s.subrange(i, j))),
        }
    }
}

#[via_fn]
proof fn tokenize_from_decreases(s: Seq<char>, i: int) {
    if 0 <= i && i < s.len() {
        if is_space(s[i]) {
        } else if comment_start(s, i) {
            lemma_line_end_bounds(s, i + 1);
        } else {
            lemma_run_end_bounds(s, i + 1);
        }
    }
}

/// Every token of a tokenized input is well formed.
pub proof fn lemma_tokenize_wf(s: Seq<char>, i: int)
    ensures
        tokenize_from(s, i) matches Ok(ts) ==> forall|k: int|
            0 <= k < ts.len() ==> token_wf(#[trigger] ts[k]),
    decreases s.len() - i,
{
    if i < 0 || i >= s.len() {
    } else if is_space(s[i]) {
        lemma_tokenize_wf(s, i + 1);
    } else if comment_start(s, i) {
        lemma_line_end_bounds(s, i + 1);
        lemma_tokenize_wf(s, line_end(s, i));
    } else {
        lemma_run_end_bounds(s, i + 1);
        let j = run_end(s, i);
        lemma_classify_wf(s.subrange(i, j));
        lemma_tokenize_wf(s, j);
    }
}

spec fn tokenize_cont(pre: Seq<TokenView>, r: Result<Seq<TokenView>, ErrorView>) -> Result<
    Seq<TokenView>,
    ErrorView,
> {
    match r {
        Ok(ts) => Ok(pre + ts),
        Err(e) => Err(e),
    }
}

fn lex_stop_at(s: &str, j: usize, n: usize) -> (b: bool)
    requires
        n == s@.len(),
        j < n,
    ensures
        b == lex_stop(s@, j as int),
{
    let c = s.get_char(j);
    is_space_char(c) || (c == '/' && j + 1 < n && s.get_char(j + 1) == '/')
}

fn classify_lexeme(lex: &str) -> (r: Option<Token>)
    ensures
        match (r, classify(lex@)) {
            (Some(t), Some(tv)) => t@ == tv && token_wf(tv),
            (None, None) => true,
            _ => false,
        },
{
    proof {
        lemma_classify_wf(lex@);
    }
    let n = lex.unicode_len();
    let mut all_dec = true;
    let mut k: usize = 0;
    while k < n
        invariant
            0 <= k <= n,
            n == lex@.len(),
            all_dec == (forall|i: int| 0 <= i < k ==> is_dec_digit(#[trigger] lex@[i])),
        decreases n - k,
    {
        if !is_dec_digit_char(lex.get_char(k)) {
            all_dec = false;
        }
        k = k + 1;
    }
    if n > 0 && all_dec {
        if dec_str_fits(lex) {
            Some(Token::Number(lex.to_owned()))
        } else {
            None
        }
    } else {
        let is_hex = if n >= 3 && lex.get_char(0) == '0' && lex.get_char(1) == 'x' {
            let mut h: usize = 2;
            let mut ok = true;
            while h < n
                invariant
                    2 <= h <= n,
                    n == lex@.len(),
                    ok == (forall|i: int| 2 <= i < h ==> is_hex_digit(#[trigger] lex@[i])),
                decreases n - h,
            {
                if !is_hex_digit_char(lex.get_char(h)) {
                    ok = false;
                }
                h = h + 1;
            }
            ok
        } else {
            false
        };
        if is_hex {
            Some(Token::HexNumber(lex.to_owned()))
        } else {
            match lookup_mnemonic(lex) {
                Some(op) => Some(Token::Instruction(op, lex.to_owned())),
                None => None,
            }
        }
    }
}

/// The type that owns the grammar; [`EVMMParser::parse`] is the tokenizer.
pub struct EVMMParser;

impl EVMMParser {
    /// Tokenizes a contract listing, or reports the first unrecognized
    /// lexeme.
    pub fn parse(unparsed_file: &str) -> (r: Result<Vec<Token>, EVMMParserError>)
        ensures
            match (r, tokenize_from(unparsed_file@, 0)) {
                (Ok(v), Ok(ts)) => token_views(v@) == ts,
                (Err(e), Err(ev)) => e@ == ev,
                _ => false,
            },
            r matches Ok(v) ==> forall|k: int|
                0 <= k < v@.len() ==> token_wf(#[trigger] v@[k]@),
    {
        let s = unparsed_file;
        let ghost target = tokenize_from(s@, 0);
        let n = s.unicode_len();
        let mut i: usize = 0;
        let mut out: Vec<Token> = Vec::new();
        proof {
            assert(token_views(out@) =~= Seq::<TokenView>::empty());
        }
        while i < n
            invariant
                0 <= i <= n,
                n == s@.len(),
                s@ == unparsed_file@,
                target == tokenize_from(s@, 0),
                tokenize_cont(token_views(out@), tokenize_from(s@, i as int)) == target,
                forall|k: int| 0 <= k < out@.len() ==> token_wf(#[trigger] out@[k]@),
            decreases n - i,
        {
            let c = s.get_char(i);
            if is_space_char(c) {
                i = i + 1;
            } else if c == '/' && i + 1 < n && s.get_char(i + 1) == '/' {
                let mut j: usize = i;
                while j < n && s.get_char(j) != '\n'
                    invariant
                        i <= j <= n,
                        n == s@.len(),
                        line_end(s@, i as int) == line_end(s@, j as int),
                    decreases n - j,
                {
                    j = j + 1;
                }
                proof {
                    assert(line_end(s@, i as int) == j as int);
                }
                i = j;
            } else {
                proof {
                    assert(!lex_stop(s@, i as int));
                }
                let mut j: usize = i + 1;
                while j < n && !lex_stop_at(s, j, n)
                    invariant
                        i < j <= n,
                        n == s@.len(),
                        run_end(s@, i as int) == run_end(s@, j as int),
                    decreases n - j,
                {
                    j = j + 1;
                }
                proof {
                    assert(run_end(s@, i as int) == j as int);
                }
                let lex = s.substring_char(i, j);
                match classify_lexeme(lex) {
                    Some(tok) => {
                        proof {
                            assert(lex@ =~= s@.subrange(i as int, j as int));
                            let prev = token_views(out@);
                            let t = tok@;
                            assert(token_views(out@.push(tok)) =~= prev.push(t));
                            match tokenize_from(s@, j as int) {
                                Ok(rest) => {
                                    assert(tokenize_from(s@, i as int) == Ok::<_, ErrorView>(
                                        seq![t] + rest));
                                    assert(prev + (seq![t] + rest) =~= prev.push(t) + rest);
                                },
                                Err(e) => {},
                            }
                        }
                        out.push(tok);
                        i = j;
                    },
                    None => {
                        proof {
                            assert(lex@ =~= s@.subrange(i as int, j as int));
                        }
                        return Err(EVMMParserError::ParseError(lex.to_owned()));
                    },
                }
            }
        }
        proof {
            assert(tokenize_from(s@, i as int) == Ok::<Seq<TokenView>, ErrorView>(Seq::empty()));
            assert(token_views(out@) + Seq::<TokenView>::empty() =~= token_views(out@));
        }
        Ok(out)
    }
}

/// Tokenizes a contract listing, or reports the first unrecognized lexeme.
pub fn parse_file(unparsed_file: &str) -> (r: Result<Vec<Token>, EVMMParserError>)
    ensures
        match (r, tokenize_from(unparsed_file@, 0)) {
            (Ok(v), Ok(ts)) => token_views(v@) == ts,
            (Err(e), Err(ev)) => e@ == ev,
            _ => false,
        },
        r matches Ok(v) ==> forall|k: int| 0 <= k < v@.len() ==> token_wf(#[trigger] v@[k]@),
{
    EVMMParser::parse(unparsed_file)
}

} // verus!
