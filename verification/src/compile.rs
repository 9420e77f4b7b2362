//! The assembler driver: a single pass over the token stream that checks
//! stack-depth preconditions, emits opcode bytes, and validates, pads and
//! emits `PUSH` operands.
//!
//! [`run_from`] is the mathematical assembler; [`compile_instructions`] is
//! the executable one, proved to agree with it.

use crate::chars::{is_upper_hex, lemma_upper_hex_digit, upper_char, upper_seq};
use crate::evmm_error::{ErrorView, EVMMError};
use crate::hexnum::{append_upper_hex, append_zero_bytes, bytes_hex_of, canon_hex_digits,
    dec_digits_to_bytes_hex, dec_val, hex_of, pad_zeros};
use crate::opcode::{compile_instruction, is_push, lemma_op_hex_wf, lemma_op_stack_effect,
    op_hex, op_min_depth, op_pops, op_pushes, opcode_is_push, opcode_push_width,
    opcode_stack_effect, push_width, Opcode};
use crate::token::{is_literal, lit_hex, lit_width, token_text, token_views, token_wf, Token,
    TokenView};
use vstd::prelude::*;

verus! {

/// The mathematical assembler: the bytecode of the token stream from
/// position `i` on, starting from the given tracked stack depth, or the
/// first error. Literal tokens may stand only as `PUSH` operands; every
/// instruction demands its minimum depth before it is emitted; a `PUSH`
/// operand must fit the instruction's width and is left-padded to exactly
/// that width.
pub open spec fn run_from(toks: Seq<TokenView>, i: int, depth: nat) -> Result<Seq<char>, ErrorView>
    decreases toks.len() - i,
{
    if i < 0 || i >= toks.len() {
        Ok(Seq::empty())
    } else {
        match toks[i] {
            TokenView::Number(s) => Err(ErrorView::UnexpectedInstruction(s)),
            TokenView::HexNumber(s) => Err(ErrorView::UnexpectedInstruction(s)),
            TokenView::Instruction(op, text) => {
                if is_push(op) {
                    if i + 1 >= toks.len() {
                        Err(ErrorView::ExpectedInstruction)
                    } else {
                        match toks[i + 1] {
                            TokenView::Instruction(_, t2) => {
                                Err(ErrorView::UnexpectedInstruction(t2))
                            },
                            lit => {
                                let w = lit_width(lit);
                                let n = push_width(op);
                                if w > n {
                                    Err(ErrorView::ValueTooBigForPushInstruction(
                                        text,
                                        token_text(lit),
                                        w,
                                    ))
                                } else {
                                    match run_from(toks, i + 2, depth + 1) {
                                        Ok(rest) => Ok(
                                            op_hex(op) + pad_zeros((n - w) as nat) + lit_hex(lit)
                                                + rest,
                                        ),
                                        Err(e) => Err(e),
                                    }
                                }
                            },
                        }
                    }
                } else {
                    let need = op_min_depth(op);
                    if depth < need {
                        Err(ErrorView::NotEnoughValuesOnStack(text, need, depth))
                    } else {
                        match run_from(
                            toks,
                            i + 1,
                            (depth - op_pops(op) + op_pushes(op)) as nat,
                        ) {
                            Ok(rest) => Ok(op_hex(op) + rest),
                            Err(e) => Err(e),
                        }
                    }
                }
            },
        }
    }
}

spec fn run_cont(pre: Seq<char>, r: Result<Seq<char>, ErrorView>) -> Result<Seq<char>, ErrorView> {
    match r {
        Ok(bc) => Ok(pre + bc),
        Err(e) => Err(e),
    }
}

/// Renders a literal operand as its whole-byte uppercase hexadecimal string:
/// the `0x` prefix stripped and the digits uppercased for a hexadecimal
/// literal, the value's own rendering for a decimal one. An instruction
/// token is no literal and is refused.
pub fn convert_to_hex_number_and_strip_prefix(value: &Token) -> (r: Result<String, EVMMError>)
    requires
        token_wf(value@),
    ensures
        match value@ {
            TokenView::Instruction(_, t) => r matches Err(e) && e@
                == ErrorView::UnexpectedInstruction(t),
            _ => r matches Ok(h) && h@ == lit_hex(value@),
        },
{
    match value {
        Token::Number(s) => Ok(dec_digits_to_bytes_hex(s.as_str())),
        Token::HexNumber(s) => {
            let n = s.as_str().unicode_len();
            let mut out = String::new();
            if (n - 2) % 2 == 1 {
                out.append("0");
            }
            proof {
                reveal_strlit("0");
                assert(out@ =~= if (s@.len() - 2) % 2 == 1 {
                    seq!['0']
                } else {
                    Seq::<char>::empty()
                });
            }
            let ghost pfx = out@;
            let mut k: usize = 2;
            while k < n
                invariant
                    2 <= k <= n,
                    n == s@.len(),
                    token_wf(TokenView::HexNumber(s@)),
                    out@ == pfx + upper_seq(s@.subrange(2, k as int)),
                decreases n - k,
            {
                let c = s.as_str().get_char(k);
                append_upper_hex(&mut out, c);
                proof {
                    assert(upper_seq(s@.subrange(2, k + 1)) =~= upper_seq(
                        s@.subrange(2, k as int),
                    ).push(upper_char(s@[k as int])));
                    assert(out@ =~= pfx + upper_seq(s@.subrange(2, k + 1)));
                }
                k = k + 1;
            }
            proof {
                assert(s@.subrange(2, n as int) =~= s@.skip(2));
                assert(out@ =~= canon_hex_digits(s@.skip(2)));
            }
            Ok(out)
        },
        Token::Instruction(_, t) => Err(EVMMError::UnexpectedInstruction(t.clone())),
    }
}

/// Every literal renders to a whole number of byte pairs.
pub proof fn lemma_lit_hex_even(t: TokenView)
    ensures
        lit_hex(t).len() % 2 == 0,
        lit_hex(t).len() == 2 * lit_width(t),
{
}

/// The byte width of a literal: the whole bytes its rendering fills, which
/// for a hexadecimal literal is its digit count halved and rounded up, and
/// for a decimal literal the least number of bytes holding its value.
pub fn get_byte_size(instruction: &Token) -> (r: Result<usize, EVMMError>)
    requires
        token_wf(instruction@),
    ensures
        match instruction@ {
            TokenView::Instruction(_, t) => r matches Err(e) && e@
                == ErrorView::UnexpectedInstruction(t),
            _ => r matches Ok(w) && w == lit_width(instruction@),
        },
{
    match convert_to_hex_number_and_strip_prefix(instruction) {
        Ok(h) => Ok(h.as_str().unicode_len() / 2),
        Err(e) => Err(e),
    }
}

/// Validates the token that follows a `PUSH{n}` instruction and renders the
/// operand to emit: the literal's rendering, left-padded with zero bytes to
/// exactly `n` bytes. A missing token, a non-literal token, and a literal
/// wider than `n` bytes are the three failures.
pub fn validate_proceeding_push_instruction(
    push_instruction: &Token,
    optional_next_instruction: Option<&Token>,
    expected_size: usize,
) -> (r: Result<String, EVMMError>)
    requires
        optional_next_instruction matches Some(t) ==> token_wf(t@),
    ensures
        match optional_next_instruction {
            None => r matches Err(e) && e@ == ErrorView::ExpectedInstruction,
            Some(next) => match next@ {
                TokenView::Instruction(_, t2) => r matches Err(e) && e@
                    == ErrorView::UnexpectedInstruction(t2),
                lit => {
                    if lit_width(lit) > expected_size {
                        r matches Err(e) && e@ == ErrorView::ValueTooBigForPushInstruction(
                            token_text(push_instruction@),
                            token_text(lit),
                            lit_width(lit),
                        )
                    } else {
                        r matches Ok(h) && h@ == pad_zeros((expected_size - lit_width(lit)) as nat)
                            + lit_hex(lit)
                    }
                },
            },
        },
{
    match optional_next_instruction {
        None => Err(EVMMError::ExpectedInstruction()),
        Some(next) => match next {
            Token::Instruction(_, t2) => Err(EVMMError::UnexpectedInstruction(t2.clone())),
            _ => {
                let h = match convert_to_hex_number_and_strip_prefix(next) {
                    Ok(h) => h,
                    Err(e) => {
                        // a well-formed literal always renders
                        proof {
                            assert(false);
                        }
                        return Err(e);
                    },
                };
                let value_byte_size = h.as_str().unicode_len() / 2;
                if value_byte_size > expected_size {
                    Err(EVMMError::ValueTooBigForPushInstruction(
                        push_instruction.text(),
                        next.text(),
                        value_byte_size,
                    ))
                } else {
                    let mut out = String::new();
                    append_zero_bytes(&mut out, expected_size - value_byte_size);
                    out.append(h.as_str());
                    Ok(out)
                }
            },
        },
    }
}

/// The single-pass assembler: walks the token stream once, appending to the
/// given bytecode string, and agrees exactly with [`run_from`] on both the
/// produced bytecode and the first error.
pub fn compile_instructions(instructions: &Vec<Token>, contract_bytecode: String) -> (r: Result<
    String,
    EVMMError,
>)
    requires
        forall|k: int| 0 <= k < instructions@.len() ==> token_wf(#[trigger] instructions@[k]@),
    ensures
        ({
            let res = run_from(token_views(instructions@), 0, 0);
            match (r, res) {
                (Ok(s), Ok(bc)) => s@ == contract_bytecode@ + bc,
                (Err(e), Err(ev)) => e@ == ev,
                _ => false,
            }
        }),
{
    let ghost toks = token_views(instructions@);
    let ghost target = run_cont(contract_bytecode@, run_from(toks, 0, 0));
    let n = instructions.len();
    let mut out = contract_bytecode;
    let mut i: usize = 0;
    let mut depth: usize = 0;
    while i < n
        invariant
            0 <= i <= n,
            depth <= i,
            n == instructions@.len(),
            toks == token_views(instructions@),
            target == run_cont(contract_bytecode@, run_from(toks, 0, 0)),
            forall|k: int| 0 <= k < instructions@.len() ==> token_wf(#[trigger] instructions@[k]@),
            run_cont(out@, run_from(toks, i as int, depth as nat)) == target,
        decreases n - i,
    {
        proof {
            assert(toks[i as int] == instructions@[i as int]@);
        }
        let t = &instructions[i];
        match t {
            Token::Number(s) => {
                proof {
                    assert(target == Err::<Seq<char>, ErrorView>(
                        ErrorView::UnexpectedInstruction(s@)));
                }
                return Err(EVMMError::UnexpectedInstruction(s.clone()));
            },
            Token::HexNumber(s) => {
                proof {
                    assert(target == Err::<Seq<char>, ErrorView>(
                        ErrorView::UnexpectedInstruction(s@)));
                }
                return Err(EVMMError::UnexpectedInstruction(s.clone()));
            },
            Token::Instruction(op, text) => {
                let op = *op;
                if opcode_is_push(op) {
                    let width = opcode_push_width(op);
                    proof {
                        if i + 1 < n {
                            assert(toks[i + 1] == instructions@[i + 1]@);
                        }
                    }
                    let next: Option<&Token> = if i + 1 < n {
                        Some(&instructions[i + 1])
                    } else {
                        None
                    };
                    match validate_proceeding_push_instruction(t, next, width) {
                        Ok(operand) => {
                            let ghost out0 = out@;
                            let ghost lit = toks[i + 1];
                            let ghost w = lit_width(lit);
                            let opx = compile_instruction(op);
                            out.append(opx.as_str());
                            out.append(operand.as_str());
                            proof {
                                assert(is_literal(lit));
                                assert(w <= push_width(op));
                                match run_from(toks, i + 2, (depth + 1) as nat) {
                                    Ok(rest) => {
                                        assert(run_from(toks, i as int, depth as nat) == Ok::<
                                            Seq<char>,
                                            ErrorView,
                                        >(
                                            op_hex(op) + pad_zeros((push_width(op) - w) as nat)
                                                + lit_hex(lit) + rest,
                                        ));
                                        assert(out0 + (op_hex(op) + pad_zeros(
                                            (push_width(op) - w) as nat,
                                        ) + lit_hex(lit) + rest) =~= out@ + rest);
                                    },
                                    Err(e) => {},
                                }
                            }
                            depth = depth + 1;
                            i = i + 2;
                        },
                        Err(e) => {
                            proof {
                                assert(target == Err::<Seq<char>, ErrorView>(e@));
                            }
                            return Err(e);
                        },
                    }
                } else {
                    let effect = opcode_stack_effect(op);
                    let pops = effect.0;
                    let pushes = effect.1;
                    let need = effect.2;
                    proof {
                        lemma_op_stack_effect(op);
                    }
                    if depth < need {
                        proof {
                            assert(target == Err::<Seq<char>, ErrorView>(
                                ErrorView::NotEnoughValuesOnStack(
                                    text@,
                                    need as nat,
                                    depth as nat,
                                ),
                            ));
                        }
                        return Err(EVMMError::NotEnoughValuesOnStack(text.clone(), need, depth));
                    }
                    let ghost out0 = out@;
                    let opx = compile_instruction(op);
                    out.append(opx.as_str());
                    proof {
                        let d2 = (depth - pops + pushes) as nat;
                        match run_from(toks, i + 1, d2) {
                            Ok(rest) => {
                                assert(run_from(toks, i as int, depth as nat) == Ok::<
                                    Seq<char>,
                                    ErrorView,
                                >(op_hex(op) + rest));
                                assert(out0 + (op_hex(op) + rest) =~= out@ + rest);
                            },
                            Err(e) => {},
                        }
                    }
                    depth = depth - pops + pushes;
                    i = i + 1;
                }
            },
        }
    }
    proof {
        assert(run_from(toks, i as int, depth as nat) == Ok::<Seq<char>, ErrorView>(Seq::empty()));
        assert(out@ + Seq::<char>::empty() =~= out@);
    }
    Ok(out)
}


/// Whether a token is an instruction token of the given kind.
pub open spec fn is_instruction_of(t: TokenView, k: Opcode) -> bool {
    match t {
        TokenView::Instruction(op, _) => op == k,
        _ => false,
    }
}

/// Whether `suffix` is the tail of `s`.
pub open spec fn ends_with(s: Seq<char>, suffix: Seq<char>) -> bool {
    s.len() >= suffix.len() && s.subrange(s.len() - suffix.len(), s.len() as int) == suffix
}

/// The opcode table shows in the output: when an accepted token stream ends
/// with an occurrence of a non-`PUSH` instruction kind `k`, the bytecode
/// ends with that kind's two hex characters.
pub proof fn lemma_last_opcode_ends_output(
    toks: Seq<TokenView>,
    i: int,
    depth: nat,
    k: Opcode,
)
    requires
        0 <= i < toks.len(),
        run_from(toks, i, depth) is Ok,
        is_instruction_of(toks.last(), k),
        !is_push(k),
    ensures
        ends_with(run_from(toks, i, depth)->Ok_0, op_hex(k)),
    decreases toks.len() - i,
{
    let out = run_from(toks, i, depth)->Ok_0;
    lemma_op_hex_wf(k);
    match toks[i] {
        TokenView::Instruction(op, text) => {
            if i == toks.len() - 1 {
                assert(op == k);
                assert(!is_push(op));
                let d2 = (depth - op_pops(op) + op_pushes(op)) as nat;
                assert(run_from(toks, i + 1, d2) == Ok::<Seq<char>, ErrorView>(Seq::empty()));
                assert(out =~= op_hex(k) + Seq::<char>::empty());
                assert(out.subrange(out.len() - 2, out.len() as int) =~= op_hex(k));
            } else {
                if is_push(op) {
                    match toks[i + 1] {
                        TokenView::Instruction(_, _) => {
                            assert(false);
                        },
                        lit => {
                            assert(i + 1 < toks.len() - 1);
                            lemma_last_opcode_ends_output(toks, i + 2, depth + 1, k);
                            let rest = run_from(toks, i + 2, depth + 1)->Ok_0;
                            let w = lit_width(lit);
                            let nn = push_width(op);
                            let a = op_hex(op) + pad_zeros((nn - w) as nat) + lit_hex(lit);
                            assert(out =~= a + rest);
                            assert(out.subrange(out.len() - 2, out.len() as int) =~= rest.subrange(
                                rest.len() - 2,
                                rest.len() as int,
                            ));
                        },
                    }
                } else {
                    let d2 = (depth - op_pops(op) + op_pushes(op)) as nat;
                    lemma_last_opcode_ends_output(toks, i + 1, d2, k);
                    let rest = run_from(toks, i + 1, d2)->Ok_0;
                    assert(out =~= op_hex(op) + rest);
                    assert(out.subrange(out.len() - 2, out.len() as int) =~= rest.subrange(
                        rest.len() - 2,
                        rest.len() as int,
                    ));
                }
            }
        },
        _ => {
            assert(false);
        },
    }
}


/// The opcode table shows at every emission: when an accepted token stream
/// starts with an instruction of kind `k`, of any kind `PUSH` included, the
/// bytecode starts with that kind's two hex characters.
pub proof fn lemma_opcode_starts_emission(toks: Seq<TokenView>, i: int, depth: nat, k: Opcode)
    requires
        0 <= i < toks.len(),
        is_instruction_of(toks[i], k),
        run_from(toks, i, depth) is Ok,
    ensures
        run_from(toks, i, depth)->Ok_0.len() >= 2,
        run_from(toks, i, depth)->Ok_0.subrange(0, 2) == op_hex(k),
{
    let out = run_from(toks, i, depth)->Ok_0;
    lemma_op_hex_wf(k);
    match toks[i] {
        TokenView::Instruction(op, text) => {
            if is_push(op) {
                match toks[i + 1] {
                    TokenView::Instruction(_, _) => {
                        assert(false);
                    },
                    lit => {
                        let w = lit_width(lit);
                        let nn = push_width(op);
                        match run_from(toks, i + 2, depth + 1) {
                            Ok(rest) => {
                                assert(out =~= op_hex(k) + (pad_zeros((nn - w) as nat) + lit_hex(
                                    lit,
                                ) + rest));
                                assert(out.subrange(0, 2) =~= op_hex(k));
                            },
                            Err(e) => {
                                assert(false);
                            },
                        }
                    },
                }
            } else {
                match run_from(toks, i + 1, (depth - op_pops(op) + op_pushes(op)) as nat) {
                    Ok(rest) => {
                        assert(out =~= op_hex(k) + rest);
                        assert(out.subrange(0, 2) =~= op_hex(k));
                    },
                    Err(e) => {
                        assert(false);
                    },
                }
            }
        },
        _ => {
            assert(false);
        },
    }
}

/// Each accepted `PUSH{n}` emission adds exactly `2 + 2n` characters to the
/// output: two for the opcode and two per operand byte.
pub proof fn lemma_push_emission_length(toks: Seq<TokenView>, i: int, depth: nat, k: Opcode)
    requires
        0 <= i < toks.len(),
        is_instruction_of(toks[i], k),
        is_push(k),
        run_from(toks, i, depth) is Ok,
    ensures
        run_from(toks, i + 2, depth + 1) is Ok,
        run_from(toks, i, depth)->Ok_0.len() == 2 + 2 * push_width(k) + run_from(
            toks,
            i + 2,
            depth + 1,
        )->Ok_0.len(),
{
    lemma_op_hex_wf(k);
    match toks[i + 1] {
        TokenView::Instruction(_, _) => {
            assert(false);
        },
        lit => {
            lemma_lit_hex_even(lit);
            let w = lit_width(lit);
            let nn = push_width(k);
            assert(pad_zeros((nn - w) as nat).len() == 2 * (nn - w));
        },
    }
}

/// The depth condition that holds along an accepted stream: before every
/// emitted instruction, the tracked depth is at least what it pops.
pub open spec fn depth_safe(toks: Seq<TokenView>, i: int, depth: nat) -> bool
    decreases toks.len() - i,
{
    if i < 0 || i >= toks.len() {
        true
    } else {
        match toks[i] {
            TokenView::Instruction(op, _) => {
                if is_push(op) {
                    if i + 1 < toks.len() {
                        depth >= op_pops(op) && depth_safe(toks, i + 2, depth + 1)
                    } else {
                        depth >= op_pops(op)
                    }
                } else {
                    depth >= op_pops(op) && depth_safe(
                        toks,
                        i + 1,
                        (depth - op_pops(op) + op_pushes(op)) as nat,
                    )
                }
            },
            _ => true,
        }
    }
}

/// On every accepted stream the tracked depth never goes below an emitted
/// instruction's pops: the assembler checks each instruction's minimum
/// depth, which is never less than what it pops.
pub proof fn lemma_accepted_depth_safe(toks: Seq<TokenView>, i: int, depth: nat)
    requires
        run_from(toks, i, depth) is Ok,
    ensures
        depth_safe(toks, i, depth),
    decreases toks.len() - i,
{
    if 0 <= i && i < toks.len() {
        match toks[i] {
            TokenView::Instruction(op, _) => {
                lemma_op_stack_effect(op);
                if is_push(op) {
                    match toks[i + 1] {
                        TokenView::Instruction(_, _) => {
                            assert(false);
                        },
                        lit => {
                            lemma_accepted_depth_safe(toks, i + 2, depth + 1);
                        },
                    }
                } else {
                    lemma_accepted_depth_safe(
                        toks,
                        i + 1,
                        (depth - op_pops(op) + op_pushes(op)) as nat,
                    );
                }
            },
            _ => {
                assert(false);
            },
        }
    }
}

/// An uppercase-hex rendering of whole bytes: even length, hex digits only.
pub open spec fn is_hex_output(s: Seq<char>) -> bool {
    s.len() % 2 == 0 && (forall|i: int| 0 <= i < s.len() ==> is_upper_hex(#[trigger] s[i]))
}

proof fn lemma_hex_output_concat(a: Seq<char>, b: Seq<char>)
    requires
        is_hex_output(a),
        is_hex_output(b),
    ensures
        is_hex_output(a + b),
{
    assert forall|j: int| 0 <= j < (a + b).len() implies is_upper_hex(#[trigger] (a + b)[j]) by {
        if j < a.len() {
            assert((a + b)[j] == a[j]);
        } else {
            assert((a + b)[j] == b[j - a.len()]);
        }
    }
}

proof fn lemma_pad_hex_output(m: nat)
    ensures
        is_hex_output(pad_zeros(m)),
{
    assert forall|j: int| 0 <= j < pad_zeros(m).len() implies is_upper_hex(
        #[trigger] pad_zeros(m)[j],
    ) by {
        assert(pad_zeros(m)[j] == '0');
    }
}

proof fn lemma_op_hex_output(op: Opcode)
    ensures
        is_hex_output(op_hex(op)),
{
    lemma_op_hex_wf(op);
    assert forall|j: int| 0 <= j < op_hex(op).len() implies is_upper_hex(
        #[trigger] op_hex(op)[j],
    ) by {
        assert(j == 0 || j == 1);
    }
}

/// A well-formed literal renders to whole bytes of uppercase hex digits.
pub proof fn lemma_lit_hex_wf(t: TokenView)
    requires
        token_wf(t),
        is_literal(t),
    ensures
        is_hex_output(lit_hex(t)),
{
    lemma_lit_hex_even(t);
    match t {
        TokenView::Number(s) => {
            let v = dec_val(s);
            crate::hexnum::lemma_hex_of_wf(v);
            assert forall|j: int| 0 <= j < bytes_hex_of(v).len() implies is_upper_hex(
                #[trigger] bytes_hex_of(v)[j],
            ) by {
                if hex_of(v).len() % 2 == 1 {
                    if j == 0 {
                        assert(bytes_hex_of(v)[0] == '0');
                    } else {
                        assert(bytes_hex_of(v)[j] == hex_of(v)[j - 1]);
                    }
                } else {
                    assert(bytes_hex_of(v)[j] == hex_of(v)[j]);
                }
            }
        },
        TokenView::HexNumber(s) => {
            let d = s.skip(2);
            assert(forall|j: int| 0 <= j < d.len() ==> #[trigger] d[j] == s[j + 2]);
            assert forall|j: int| 0 <= j < canon_hex_digits(d).len() implies is_upper_hex(
                #[trigger] canon_hex_digits(d)[j],
            ) by {
                if d.len() % 2 == 1 {
                    if j == 0 {
                        assert(canon_hex_digits(d)[0] == '0');
                    } else {
                        assert(canon_hex_digits(d)[j] == upper_seq(d)[j - 1]);
                        assert(upper_seq(d)[j - 1] == upper_char(d[j - 1]));
                        lemma_upper_hex_digit(d[j - 1]);
                    }
                } else {
                    assert(canon_hex_digits(d)[j] == upper_char(d[j]));
                    lemma_upper_hex_digit(d[j]);
                }
            }
        },
        _ => {},
    }
}

/// The bytecode of an accepted well-formed stream holds only the characters
/// `0` through `9` and `A` through `F`, and has even length: two characters
/// to a byte.
pub proof fn lemma_output_hex(toks: Seq<TokenView>, i: int, depth: nat)
    requires
        forall|k: int| 0 <= k < toks.len() ==> token_wf(#[trigger] toks[k]),
        run_from(toks, i, depth) is Ok,
    ensures
        is_hex_output(run_from(toks, i, depth)->Ok_0),
    decreases toks.len() - i,
{
    if 0 <= i && i < toks.len() {
        match toks[i] {
            TokenView::Instruction(op, _) => {
                lemma_op_hex_output(op);
                if is_push(op) {
                    match toks[i + 1] {
                        TokenView::Instruction(_, _) => {
                            assert(false);
                        },
                        lit => {
                            let w = lit_width(lit);
                            let nn = push_width(op);
                            lemma_lit_hex_wf(lit);
                            lemma_pad_hex_output((nn - w) as nat);
                            lemma_output_hex(toks, i + 2, depth + 1);
                            let rest = run_from(toks, i + 2, depth + 1)->Ok_0;
                            lemma_hex_output_concat(op_hex(op), pad_zeros((nn - w) as nat));
                            lemma_hex_output_concat(
                                op_hex(op) + pad_zeros((nn - w) as nat),
                                lit_hex(lit),
                            );
                            lemma_hex_output_concat(
                                op_hex(op) + pad_zeros((nn - w) as nat) + lit_hex(lit),
                                rest,
                            );
                        },
                    }
                } else {
                    let d2 = (depth - op_pops(op) + op_pushes(op)) as nat;
                    lemma_output_hex(toks, i + 1, d2);
                    let rest = run_from(toks, i + 1, d2)->Ok_0;
                    lemma_hex_output_concat(op_hex(op), rest);
                }
            },
            _ => {
                assert(false);
            },
        }
    }
}

/// Encoding a hexadecimal literal with an even digit count returns exactly
/// its digits, uppercased: the rendering strips the prefix and changes
/// nothing else.
pub proof fn lemma_even_hex_literal_encodes_as_its_digits(s: Seq<char>)
    requires
        s.len() >= 2,
        s[0] == '0',
        s[1] == 'x',
        (s.len() - 2) % 2 == 0,
    ensures
        lit_hex(TokenView::HexNumber(s)) == upper_seq(s.skip(2)),
{
    assert(s.skip(2).len() % 2 == 0);
}

/// Padding a literal's rendering to the literal's own byte width changes
/// nothing: the padding is empty.
pub proof fn lemma_pad_to_own_width(t: TokenView)
    requires
        is_literal(t),
    ensures
        pad_zeros((lit_width(t) - lit_width(t)) as nat) + lit_hex(t) == lit_hex(t),
{
    assert(pad_zeros(0) =~= Seq::<char>::empty());
    assert(pad_zeros(0) + lit_hex(t) =~= lit_hex(t));
}

/// The decimal literal `0` has byte width zero: its rendering is empty, so
/// a `PUSH{n}` of it emits `n` zero bytes of padding alone.
pub proof fn lemma_zero_has_byte_width_zero()
    ensures
        lit_width(TokenView::Number("0"@)) == 0,
{
    reveal_strlit("0");
    assert("0"@ =~= seq!['0']);
    assert(seq!['0'].drop_last() =~= Seq::<char>::empty());
    assert(dec_val(Seq::<char>::empty()) == 0);
    assert(dec_val(seq!['0']) == 0);
    assert(hex_of(0) =~= Seq::<char>::empty());
    assert(bytes_hex_of(0).len() == 0);
}

} // verus!
