//! Whole contracts: the text of a `.evmm` file in, the bytecode of an
//! `.evmasm` file out. Reading and writing the files themselves is the
//! caller's business; everything here is pure text to text.

use crate::compile::{compile_instructions, is_hex_output, lemma_output_hex, run_from};
use crate::evmm_error::{ErrorView, EVMMError};
use crate::parse::{lemma_tokenize_wf, parse_file, tokenize_from};
use crate::token::token_views;
use vstd::prelude::*;

verus! {

/// One contract listing to assemble: the file's name and its text.
#[derive(Clone, Debug, PartialEq, Eq)]
pub struct EVMMFile {
    pub file_name: String,
    pub file_contents: String,
}

/// The mathematical shadow of an [`EVMMFile`].
#[verifier::ext_equal]
pub struct EVMMFileView {
    pub file_name: Seq<char>,
    pub file_contents: Seq<char>,
}

impl View for EVMMFile {
    type V = EVMMFileView;

    open spec fn view(&self) -> EVMMFileView {
        (EVMMFileView { file_name: self.file_name@, file_contents: self.file_contents@ })
    }
}

impl EVMMFile {
    /// Bundles a file name with the contract text it holds.
    pub fn new(file_name: String, file_contents: String) -> (r: EVMMFile)
        ensures
            r@ == (EVMMFileView { file_name: file_name@, file_contents: file_contents@ }),
    {
        EVMMFile { file_name, file_contents }
    }
}

/// One assembled contract: the output file's name and its bytecode.
#[derive(Clone, Debug, PartialEq, Eq)]
pub struct EVMASMFile {
    pub file_name: String,
    pub compiled_bytecode: String,
}

/// The mathematical shadow of an [`EVMASMFile`].
#[verifier::ext_equal]
pub struct EVMASMFileView {
    pub file_name: Seq<char>,
    pub compiled_bytecode: Seq<char>,
}

impl View for EVMASMFile {
    type V = EVMASMFileView;

    open spec fn view(&self) -> EVMASMFileView {
        (EVMASMFileView {
            file_name: self.file_name@,
            compiled_bytecode: self.compiled_bytecode@,
        })
    }
}

impl EVMASMFile {
    /// Bundles an output file name with the bytecode it will hold.
    pub fn new(file_name: String, compiled_bytecode: String) -> (r: EVMASMFile)
        ensures
            r@ == (EVMASMFileView {
                file_name: file_name@,
                compiled_bytecode: compiled_bytecode@,
            }),
    {
        EVMASMFile { file_name, compiled_bytecode }
    }
}

/// The bytecode of one contract text: tokenize, then assemble.
pub open spec fn assemble_text(text: Seq<char>) -> Result<Seq<char>, ErrorView> {
    match tokenize_from(text, 0) {
        Ok(toks) => run_from(toks, 0, 0),
        Err(e) => Err(e),
    }
}

/// Assembles one contract listing into its bytecode string.
pub fn compile_contract(contract: &str) -> (r: Result<String, EVMMError>)
    ensures
        match (r, assemble_text(contract@)) {
            (Ok(s), Ok(bc)) => s@ == bc,
            (Err(e), Err(ev)) => e@ == ev,
            _ => false,
        },
{
    match parse_file(contract) {
        Ok(tokens) => {
            let r = compile_instructions(&tokens, String::new());
            proof {
                match run_from(token_views(tokens@), 0, 0) {
                    Ok(bc) => {
                        assert(Seq::<char>::empty() + bc =~= bc);
                    },
                    Err(e) => {},
                }
            }
            r
        },
        Err(e) => Err(e.into_evmm_error()),
    }
}


/// The bytecode of any accepted contract text holds only the characters `0`
/// through `9` and `A` through `F`, and has even length.
pub proof fn lemma_assembled_output_hex(text: Seq<char>)
    requires
        assemble_text(text) is Ok,
    ensures
        is_hex_output(assemble_text(text)->Ok_0),
{
    match tokenize_from(text, 0) {
        Ok(toks) => {
            lemma_tokenize_wf(text, 0);
            lemma_output_hex(toks, 0, 0);
        },
        Err(e) => {},
    }
}

/// Whether a file name carries the `.evmm` extension.
pub open spec fn ends_with_evmm(name: Seq<char>) -> bool {
    name.len() >= 5 && name.subrange(name.len() - 5, name.len() as int) == ".evmm"@
}

/// The output file's name: the stem keeps its place, `.evmm` gives way to
/// `.evmasm`, with `_deploy` between stem and extension when deployment
/// bytecode was asked for.
pub open spec fn output_file_name(name: Seq<char>, deployment_bytecode: bool) -> Seq<char> {
    name.subrange(0, name.len() - 5) + if deployment_bytecode {
        "_deploy.evmasm"@
    } else {
        ".evmasm"@
    }
}

/// The views of a sequence of input files.
pub open spec fn file_views(fs: Seq<EVMMFile>) -> Seq<EVMMFileView> {
    fs.map_values(|f: EVMMFile| f@)
}

/// The views of a sequence of assembled files.
pub open spec fn asm_views(fs: Seq<EVMASMFile>) -> Seq<EVMASMFileView> {
    fs.map_values(|f: EVMASMFile| f@)
}

/// The assembled form of every file from position `i` on, in order, or the
/// first error.
pub open spec fn compile_files_from(
    files: Seq<EVMMFileView>,
    i: int,
    deployment_bytecode: bool,
) -> Result<Seq<EVMASMFileView>, ErrorView>
    decreases files.len() - i,
{
    if i < 0 || i >= files.len() {
        Ok(Seq::empty())
    } else {
        match assemble_text(files[i].file_contents) {
            Ok(bc) => match compile_files_from(files, i + 1, deployment_bytecode) {
                Ok(rest) => Ok(
                    seq![
                        (EVMASMFileView {
                            file_name: output_file_name(files[i].file_name, deployment_bytecode),
                            compiled_bytecode: bc,
                        }),
                    ] + rest,
                ),
                Err(e) => Err(e),
            },
            Err(e) => Err(e),
        }
    }
}

spec fn files_cont(
    pre: Seq<EVMASMFileView>,
    r: Result<Seq<EVMASMFileView>, ErrorView>,
) -> Result<Seq<EVMASMFileView>, ErrorView> {
    match r {
        Ok(fs) => Ok(pre + fs),
        Err(e) => Err(e),
    }
}

/// Assembles every given contract, in order, stopping at the first error.
/// Each output file keeps its input's stem and carries the `.evmasm`
/// extension, with `_deploy` before it when deployment bytecode was asked
/// for.
pub fn parse_and_compile_bytecode(evmm_files: Vec<EVMMFile>, deployment_bytecode: bool) -> (r:
    Result<Vec<EVMASMFile>, EVMMError>)
    requires
        forall|k: int|
            0 <= k < evmm_files@.len() ==> ends_with_evmm(#[trigger] evmm_files@[k]@.file_name),
    ensures
        match (r, compile_files_from(file_views(evmm_files@), 0, deployment_bytecode)) {
            (Ok(v), Ok(fs)) => asm_views(v@) == fs,
            (Err(e), Err(ev)) => e@ == ev,
            _ => false,
        },
{
    let ghost files = file_views(evmm_files@);
    let ghost target = compile_files_from(files, 0, deployment_bytecode);
    let n = evmm_files.len();
    let mut out: Vec<EVMASMFile> = Vec::new();
    let mut idx: usize = 0;
    proof {
        assert(asm_views(out@) =~= Seq::<EVMASMFileView>::empty());
    }
    while idx < n
        invariant
            0 <= idx <= n,
            n == evmm_files@.len(),
            files == file_views(evmm_files@),
            target == compile_files_from(files, 0, deployment_bytecode),
            forall|k: int|
                0 <= k < evmm_files@.len() ==> ends_with_evmm(
                    #[trigger] evmm_files@[k]@.file_name,
                ),
            files_cont(asm_views(out@), compile_files_from(files, idx as int, deployment_bytecode))
                == target,
        decreases n - idx,
    {
        proof {
            assert(files[idx as int] == evmm_files@[idx as int]@);
        }
        let evmm_file = &evmm_files[idx];
        let compiled_bytecode = match compile_contract(evmm_file.file_contents.as_str()) {
            Ok(bc) => bc,
            Err(e) => {
                proof {
                    assert(target == Err::<Seq<EVMASMFileView>, ErrorView>(e@));
                }
                return Err(e);
            },
        };
        let name_len = evmm_file.file_name.as_str().unicode_len();
        let stem = evmm_file.file_name.as_str().substring_char(0, name_len - 5);
        let mut evmasm_file_name = stem.to_owned();
        if deployment_bytecode {
            evmasm_file_name.append("_deploy.evmasm");
        } else {
            evmasm_file_name.append(".evmasm");
        }
        let compiled_file = EVMASMFile::new(evmasm_file_name, compiled_bytecode);
        proof {
            let fv = (EVMASMFileView {
                file_name: output_file_name(files[idx as int].file_name, deployment_bytecode),
                compiled_bytecode: compiled_file@.compiled_bytecode,
            });
            assert(compiled_file@ =~= fv);
            assert(asm_views(out@.push(compiled_file)) =~= asm_views(out@).push(compiled_file@));
            match compile_files_from(files, idx + 1, deployment_bytecode) {
                Ok(rest) => {
                    assert(asm_views(out@) + (seq![fv] + rest) =~= asm_views(out@).push(
                        compiled_file@,
                    ) + rest);
                },
                Err(e) => {},
            }
        }
        out.push(compiled_file);
        idx = idx + 1;
    }
    proof {
        assert(compile_files_from(files, idx as int, deployment_bytecode) == Ok::<
            Seq<EVMASMFileView>,
            ErrorView,
        >(Seq::empty()));
        assert(asm_views(out@) + Seq::<EVMASMFileView>::empty() =~= asm_views(out@));
    }
    Ok(out)
}

} // verus!
