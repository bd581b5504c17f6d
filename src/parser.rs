//! Reading VM source lines: skipping blanks and comments, and classifying
//! each instruction.
#![allow(non_snake_case)]
use vstd::prelude::*;
use crate::instruction::{
    ArithOp, Instruction, ParseError, Segment, SegmentError, TranslateError, arith_named, segment_named,
};
use crate::text::{is_comment, parse_number, parse_u16, split_tokens, text_is, tokens};

verus! {

/// The kind of a VM command.
#[derive(Clone, Copy, Debug, PartialEq, Eq, Structural)]
pub enum CommandKind {
    Push,
    Pop,
    Arithmetic,
    Label,
    Goto,
    IfGoto,
    Function,
    Call,
    Return,
}

/// The kind of the command on a line, by its first token; a line of one
/// token may also be an arithmetic mnemonic.
pub open spec fn command_kind(line: Seq<char>) -> Option<CommandKind> {
    let t = tokens(line);
    if t.len() == 0 {
        None
    } else if t[0] == "push"@ {
        Some(CommandKind::Push)
    } else if t[0] == "pop"@ {
        Some(CommandKind::Pop)
    } else if t[0] == "label"@ {
        Some(CommandKind::Label)
    } else if t[0] == "goto"@ {
        Some(CommandKind::Goto)
    } else if t[0] == "if-goto"@ {
        Some(CommandKind::IfGoto)
    } else if t[0] == "function"@ {
        Some(CommandKind::Function)
    } else if t[0] == "call"@ {
        Some(CommandKind::Call)
    } else if t[0] == "return"@ {
        Some(CommandKind::Return)
    } else if t.len() == 1 && arith_named(t[0]) is Some {
        Some(CommandKind::Arithmetic)
    } else {
        None
    }
}

/// The name by which `commandType` reports a kind.
pub open spec fn command_name(k: CommandKind) -> Seq<char> {
    match k {
        CommandKind::Push => "C_PUSH"@,
        CommandKind::Pop => "C_POP"@,
        CommandKind::Arithmetic => "C_ARITHMETIC"@,
        CommandKind::Label => "C_LABEL"@,
        CommandKind::Goto => "C_GOTO"@,
        CommandKind::IfGoto => "C_IFGOTO"@,
        CommandKind::Function => "C_FUNCTION"@,
        CommandKind::Call => "C_CALL"@,
        CommandKind::Return => "C_RETURN"@,
    }
}

/// How many operands follow the command word.
pub open spec fn operand_count(k: CommandKind) -> nat {
    match k {
        CommandKind::Push | CommandKind::Pop | CommandKind::Function | CommandKind::Call => 2,
        CommandKind::Label | CommandKind::Goto | CommandKind::IfGoto => 1,
        _ => 0,
    }
}

/// The first argument of a command: the mnemonic of an arithmetic
/// command, else the first operand.
pub open spec fn first_arg(line: Seq<char>) -> Option<Seq<char>> {
    let t = tokens(line);
    match command_kind(line) {
        Some(CommandKind::Arithmetic) => Some(t[0]),
        Some(CommandKind::Return) | None => None,
        Some(_) => if t.len() >= 2 { Some(t[1]) } else { None },
    }
}

/// The second argument of a command that has one.
pub open spec fn second_arg(line: Seq<char>) -> Option<Seq<char>> {
    let t = tokens(line);
    match command_kind(line) {
        Some(k) => if operand_count(k) == 2 && t.len() >= 3 { Some(t[2]) } else { None },
        None => None,
    }
}

/// Whether a line holds no instruction.
pub open spec fn is_skipped(line: Seq<char>) -> bool {
    line.len() == 0 || is_comment(line)
}

/// The position of the first line at or after `from` that holds an
/// instruction, or the number of lines if there is none.
pub open spec fn next_instruction(lines: Seq<String>, from: int) -> int
    decreases lines.len() - from,
{
    if from < 0 || from >= lines.len() {
        lines.len() as int
    } else if is_skipped(lines[from]@) {
        next_instruction(lines, from + 1)
    } else {
        from
    }
}

/// What `instruction` returns for a line: the classified instruction, or
/// the first thing wrong with it.
pub open spec fn decoded(line: String, r: Result<Instruction, TranslateError>) -> bool {
    let l = line@;
    let t = tokens(l);
    match command_kind(l) {
        None => r == Err::<Instruction, TranslateError>(TranslateError::Parse(ParseError::UnrecognizedCommand(line))),
        Some(k) => if t.len() != 1 + operand_count(k) {
            r == Err::<Instruction, TranslateError>(TranslateError::Parse(ParseError::MalformedOperands(line)))
        } else {
            match k {
                CommandKind::Push | CommandKind::Pop => match segment_named(t[1]) {
                    None => r == Err::<Instruction, TranslateError>(TranslateError::Segment(SegmentError::UnknownSegment)),
                    Some(seg) => match parse_u16(t[2]) {
                        None => r == Err::<Instruction, TranslateError>(
                            TranslateError::Parse(ParseError::MalformedOperands(line)),
                        ),
                        Some(n) => r == Ok::<Instruction, TranslateError>(
                            if k == CommandKind::Push { Instruction::Push(seg, n) } else { Instruction::Pop(seg, n) },
                        ),
                    },
                },
                CommandKind::Arithmetic => r == Ok::<Instruction, TranslateError>(Instruction::Arithmetic(arith_named(t[0])->0)),
                CommandKind::Label => r matches Ok(Instruction::Label(s)) && s@ == t[1],
                CommandKind::Goto => r matches Ok(Instruction::Goto(s)) && s@ == t[1],
                CommandKind::IfGoto => r matches Ok(Instruction::IfGoto(s)) && s@ == t[1],
                CommandKind::Function | CommandKind::Call => match parse_u16(t[2]) {
                    None => r == Err::<Instruction, TranslateError>(
                        TranslateError::Parse(ParseError::MalformedOperands(line)),
                    ),
                    Some(n) => if k == CommandKind::Function {
                        r matches Ok(Instruction::Function(s, m)) && s@ == t[1] && m == n
                    } else {
                        r matches Ok(Instruction::Call(s, m)) && s@ == t[1] && m == n
                    },
                },
                CommandKind::Return => r == Ok::<Instruction, TranslateError>(Instruction::Return),
            }
        },
    }
}

/// Walks the lines of one VM source module, one instruction at a time.
pub struct Parser {
    pub contents: Vec<String>,
    pub currentLine: usize,
    pub currentInstruction: String,
}

/// Whether `t` holds the tokens of `line`.
pub open spec fn holds_tokens(t: Seq<String>, line: Seq<char>) -> bool {
    t.len() == tokens(line).len() && forall|k: int| 0 <= k < t.len() ==> #[trigger] t[k]@ == tokens(line)[k]
}

fn kind_of(t: &Vec<String>, Ghost(line): Ghost<Seq<char>>) -> (r: Option<CommandKind>)
    requires
        holds_tokens(t@, line),
    ensures
        r == command_kind(line),
{
    if t.len() == 0 {
        return None;
    }
    let w = t[0].as_str();
    if text_is(w, "push") {
        Some(CommandKind::Push)
    } else if text_is(w, "pop") {
        Some(CommandKind::Pop)
    } else if text_is(w, "label") {
        Some(CommandKind::Label)
    } else if text_is(w, "goto") {
        Some(CommandKind::Goto)
    } else if text_is(w, "if-goto") {
        Some(CommandKind::IfGoto)
    } else if text_is(w, "function") {
        Some(CommandKind::Function)
    } else if text_is(w, "call") {
        Some(CommandKind::Call)
    } else if text_is(w, "return") {
        Some(CommandKind::Return)
    } else if t.len() == 1 && ArithOp::from_name(w).is_some() {
        Some(CommandKind::Arithmetic)
    } else {
        None
    }
}

fn kind_name(k: CommandKind) -> (r: &'static str)
    ensures
        r@ == command_name(k),
{
    match k {
        CommandKind::Push => "C_PUSH",
        CommandKind::Pop => "C_POP",
        CommandKind::Arithmetic => "C_ARITHMETIC",
        CommandKind::Label => "C_LABEL",
        CommandKind::Goto => "C_GOTO",
        CommandKind::IfGoto => "C_IFGOTO",
        CommandKind::Function => "C_FUNCTION",
        CommandKind::Call => "C_CALL",
        CommandKind::Return => "C_RETURN",
    }
}

fn is_skipped_line(line: &String) -> (r: bool)
    ensures
        r == is_skipped(line@),
{
    let s = line.as_str();
    let n = s.unicode_len();
    n == 0 || (n >= 2 && s.get_char(0) == '/' && s.get_char(1) == '/')
}

impl Parser {
    /// A parser over `code_lines`, standing on the first instruction.
    pub fn new(code_lines: Vec<String>) -> (r: Parser)
        ensures
            r.contents@ == code_lines@,
            ({
                let j = next_instruction(code_lines@, 0);
                if j < code_lines@.len() {
                    r.currentInstruction == code_lines@[j] && r.currentLine == j + 1
                } else {
                    r.currentInstruction@ == Seq::<char>::empty() && r.currentLine == code_lines@.len()
                }
            }),
    {
        let mut p = Parser { contents: code_lines, currentLine: 0, currentInstruction: String::new() };
        p.advance();
        p
    }

    /// The current instruction's text.
    pub fn current_instruction(&self) -> (r: String)
        ensures
            r == self.currentInstruction,
    {
        self.currentInstruction.clone()
    }

    fn next_index(&self) -> (r: usize)
        ensures
            r == next_instruction(self.contents@, self.currentLine as int),
    {
        let mut i = self.currentLine;
        if i >= self.contents.len() {
            return self.contents.len();
        }
        while i < self.contents.len() && is_skipped_line(&self.contents[i])
            invariant
                self.currentLine <= i <= self.contents@.len(),
                next_instruction(self.contents@, self.currentLine as int)
                    == next_instruction(self.contents@, i as int),
            decreases self.contents@.len() - i,
        {
            i = i + 1;
        }
        i
    }

    /// Whether an instruction follows the current one.
    pub fn hasMoreLines(&self) -> (r: bool)
        ensures
            r == (next_instruction(self.contents@, self.currentLine as int) < self.contents@.len()),
    {
        self.next_index() < self.contents.len()
    }

    /// Moves to the next instruction, past blank and comment lines. Where
    /// none is left, it moves to the end and keeps the current instruction.
    pub fn advance(&mut self)
        ensures
            final(self).contents == old(self).contents,
            ({
                let j = next_instruction(old(self).contents@, old(self).currentLine as int);
                if j < old(self).contents@.len() {
                    final(self).currentInstruction == old(self).contents@[j] && final(self).currentLine == j + 1
                } else {
                    final(self).currentInstruction == old(self).currentInstruction
                        && final(self).currentLine == old(self).contents@.len()
                }
            }),
    {
        let j = self.next_index();
        if j < self.contents.len() {
            self.currentInstruction = self.contents[j].clone();
            self.currentLine = j + 1;
        } else {
            self.currentLine = self.contents.len();
        }
    }

    /// The kind of the current instruction, by name (`C_PUSH`, ...).
    pub fn commandType(&self) -> (r: Result<&'static str, ParseError>)
        ensures
            match command_kind(self.currentInstruction@) {
                Some(k) => r matches Ok(s) && s@ == command_name(k),
                None => r == Err::<&'static str, ParseError>(ParseError::UnrecognizedCommand(self.currentInstruction)),
            },
    {
        let t = split_tokens(self.currentInstruction.as_str());
        match kind_of(&t, Ghost(self.currentInstruction@)) {
            Some(k) => Ok(kind_name(k)),
            None => Err(ParseError::UnrecognizedCommand(self.currentInstruction.clone())),
        }
    }

    /// The first argument of the current instruction.
    pub fn arg1(&self) -> (r: Option<String>)
        ensures
            match first_arg(self.currentInstruction@) {
                Some(a) => r matches Some(s) && s@ == a,
                None => r is None,
            },
    {
        let t = split_tokens(self.currentInstruction.as_str());
        match kind_of(&t, Ghost(self.currentInstruction@)) {
            Some(CommandKind::Arithmetic) => Some(t[0].clone()),
            Some(CommandKind::Return) | None => None,
            Some(_) => if t.len() >= 2 { Some(t[1].clone()) } else { None },
        }
    }

    /// The second argument of the current instruction.
    pub fn arg2(&self) -> (r: Option<String>)
        ensures
            match second_arg(self.currentInstruction@) {
                Some(a) => r matches Some(s) && s@ == a,
                None => r is None,
            },
    {
        let t = split_tokens(self.currentInstruction.as_str());
        match kind_of(&t, Ghost(self.currentInstruction@)) {
            Some(CommandKind::Push) | Some(CommandKind::Pop) | Some(CommandKind::Function) | Some(
                CommandKind::Call,
            ) => if t.len() >= 3 { Some(t[2].clone()) } else { None },
            _ => None,
        }
    }

    /// The current instruction, classified with its operands.
    pub fn instruction(&self) -> (r: Result<Instruction, TranslateError>)
        ensures
            decoded(self.currentInstruction, r),
    {
        let line = &self.currentInstruction;
        let t = split_tokens(line.as_str());
        let k = match kind_of(&t, Ghost(line@)) {
            Some(k) => k,
            None => return Err(TranslateError::Parse(ParseError::UnrecognizedCommand(line.clone()))),
        };
        let want: usize = match k {
            CommandKind::Push | CommandKind::Pop | CommandKind::Function | CommandKind::Call => 3,
            CommandKind::Label | CommandKind::Goto | CommandKind::IfGoto => 2,
            _ => 1,
        };
        if t.len() != want {
            return Err(TranslateError::Parse(ParseError::MalformedOperands(line.clone())));
        }
        match k {
            CommandKind::Push | CommandKind::Pop => {
                let seg = match Segment::from_name(t[1].as_str()) {
                    Some(s) => s,
                    None => return Err(TranslateError::Segment(SegmentError::UnknownSegment)),
                };
                let n = match parse_number(t[2].as_str()) {
                    Some(n) => n,
                    None => return Err(TranslateError::Parse(ParseError::MalformedOperands(line.clone()))),
                };
                if k == CommandKind::Push {
                    Ok(Instruction::Push(seg, n))
                } else {
                    Ok(Instruction::Pop(seg, n))
                }
            },
            CommandKind::Arithmetic => {
                let op = ArithOp::from_name(t[0].as_str());
                match op {
                    Some(op) => Ok(Instruction::Arithmetic(op)),
                    None => Err(TranslateError::Parse(ParseError::UnrecognizedCommand(line.clone()))),
                }
            },
            CommandKind::Label => Ok(Instruction::Label(t[1].clone())),
            CommandKind::Goto => Ok(Instruction::Goto(t[1].clone())),
            CommandKind::IfGoto => Ok(Instruction::IfGoto(t[1].clone())),
            CommandKind::Function | CommandKind::Call => {
                let n = match parse_number(t[2].as_str()) {
                    Some(n) => n,
                    None => return Err(TranslateError::Parse(ParseError::MalformedOperands(line.clone()))),
                };
                if k == CommandKind::Function {
                    Ok(Instruction::Function(t[1].clone(), n))
                } else {
                    Ok(Instruction::Call(t[1].clone(), n))
                }
            },
            CommandKind::Return => Ok(Instruction::Return),
        }
    }
}

} // verus!
