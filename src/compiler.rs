//! Translating whole modules: the loop that feeds parsed instructions to
//! the code generator.
use vstd::prelude::*;
use crate::code_writer::{CodeWriter, WriterView, init_stack_code, step_spec};
use crate::instruction::{Instruction, LineError, TranslateError};
use crate::parser::{Parser, decoded, next_instruction};

verus! {

/// The file argument of a command line `program file ...`.
pub fn parse_filename(configs: &[String]) -> (r: Result<&String, &'static str>)
    ensures
        configs@.len() >= 2 ==> (r matches Ok(f) && *f == configs@[1]),
        configs@.len() < 2 ==> r is Err,
{
    if configs.len() < 2 {
        return Err("missing filename argument");
    }
    Ok(&configs[1])
}

/// Whether translating `lines`, from line position `from` on, into a writer
/// in state `w` may end in `r`: each instruction line is decoded and
/// translated in turn, and the first error stops it, with its line number.
pub open spec fn translates(
    lines: Seq<String>,
    from: int,
    w: WriterView,
    r: Result<WriterView, LineError>,
) -> bool
    decreases lines.len() - from,
{
    let j = next_instruction(lines, from);
    if from < 0 || j >= lines.len() {
        r == Ok::<WriterView, LineError>(w)
    } else if j < from {
        false
    } else {
        exists|d: Result<Instruction, TranslateError>|
            #![trigger decoded(lines[j], d)]
            decoded(lines[j], d) && match d {
                Err(e) => r == Err::<WriterView, LineError>(LineError { line: (j + 1) as usize, text: lines[j], error: e }),
                Ok(i) => match step_spec(w, i) {
                    Err(e) => r == Err::<WriterView, LineError>(LineError { line: (j + 1) as usize, text: lines[j], error: e }),
                    Ok(w1) => translates(lines, j + 1, w1, r),
                },
            }
    }
}

proof fn lemma_next_instruction_bounds(lines: Seq<String>, from: int)
    requires
        0 <= from,
    ensures
        from <= next_instruction(lines, from) <= lines.len() || (from > lines.len() && next_instruction(lines, from) == lines.len()),
    decreases lines.len() - from,
{
    if from < lines.len() && crate::parser::is_skipped(lines[from]@) {
        lemma_next_instruction_bounds(lines, from + 1);
    }
}

/// Translates every instruction of the parser's lines, from the first, with
/// `code_writer`; in `test` mode the pointer set-up of a test harness comes
/// first.
pub fn compile_vm_code(parser: Parser, code_writer: CodeWriter, test: bool) -> (r: Result<CodeWriter, LineError>)
    requires
        parser.contents@.len() < usize::MAX,
    ensures
        ({
            let w0 = if test {
                WriterView { code: code_writer@.code + init_stack_code(), ..code_writer@ }
            } else {
                code_writer@
            };
            match r {
                Ok(w) => translates(parser.contents@, 0, w0, Ok(w@)),
                Err(e) => translates(parser.contents@, 0, w0, Err(e)),
            }
        }),
{
    let mut reader = parser;
    let mut writer = code_writer;
    if test {
        writer.init_stack();
    }
    let ghost w0 = writer@;
    let ghost lines = reader.contents@;
    reader.currentLine = 0;
    while reader.hasMoreLines()
        invariant
            reader.contents@ == lines,
            lines == parser.contents@,
            w0 == (if test { WriterView { code: code_writer@.code + init_stack_code(), ..code_writer@ } } else { code_writer@ }),
            lines.len() < usize::MAX,
            reader.currentLine <= lines.len(),
            forall|res: Result<WriterView, LineError>|
                translates(lines, reader.currentLine as int, writer@, res) ==> #[trigger] translates(lines, 0, w0, res),
        decreases lines.len() - reader.currentLine,
    {
        let ghost before = writer@;
        let ghost from = reader.currentLine as int;
        reader.advance();
        let ghost j = next_instruction(lines, from);
        proof {
            lemma_next_instruction_bounds(lines, from);
        }
        let d = reader.instruction();
        let ghost dg = d;
        match d {
            Err(e) => {
                let err = LineError { line: reader.currentLine, text: reader.current_instruction(), error: e };
                assert(translates(lines, from, before, Err(err))) by {
                    assert(decoded(lines[j], dg));
                }
                return Err(err);
            },
            Ok(i) => {
                let step = writer.write_instruction(&i);
                match step {
                    Err(e) => {
                        let err = LineError { line: reader.currentLine, text: reader.current_instruction(), error: e };
                        assert(translates(lines, from, before, Err(err))) by {
                            assert(decoded(lines[j], dg));
                        }
                                return Err(err);
                    },
                    Ok(()) => {
                        assert forall|res: Result<WriterView, LineError>|
                            translates(lines, reader.currentLine as int, writer@, res) implies
                            #[trigger] translates(lines, 0, w0, res) by {
                            assert(decoded(lines[j], dg));
                            assert(translates(lines, from, before, res));
                        }
                    },
                }
            },
        }
    }
    proof {
        assert(translates(lines, reader.currentLine as int, writer@, Ok(writer@)));
    }
    Ok(writer)
}

} // verus!
