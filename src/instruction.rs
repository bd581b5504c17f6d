//! The VM instruction set, and the errors of translation.
use vstd::prelude::*;
use crate::text::text_is;

verus! {

/// A memory segment of the VM.
#[derive(Clone, Copy, Debug, PartialEq, Eq, Structural)]
pub enum Segment {
    Constant,
    Argument,
    Local,
    Static,
    This,
    That,
    Temp,
    Pointer,
}

/// An arithmetic or logical VM operation.
#[derive(Clone, Copy, Debug, PartialEq, Eq, Structural)]
pub enum ArithOp {
    Add,
    Sub,
    Neg,
    Eq,
    Gt,
    Lt,
    And,
    Or,
    Not,
}

/// Push or pop.
#[derive(Clone, Copy, Debug, PartialEq, Eq, Structural)]
pub enum StackCommand {
    Push,
    Pop,
}

/// One classified VM instruction.
#[derive(Clone, Debug, PartialEq, Eq)]
pub enum Instruction {
    Push(Segment, u16),
    Pop(Segment, u16),
    Arithmetic(ArithOp),
    Label(String),
    Goto(String),
    IfGoto(String),
    Function(String, u16),
    Call(String, u16),
    Return,
}

/// A source line that is not a well-formed instruction.
#[derive(Clone, Debug, PartialEq, Eq)]
pub enum ParseError {
    /// The line matches no command.
    UnrecognizedCommand(String),
    /// The command has the wrong number or kind of operands.
    MalformedOperands(String),
}

/// A segment access that cannot be translated.
#[derive(Clone, Copy, Debug, PartialEq, Eq, Structural)]
pub enum SegmentError {
    /// A `temp` index outside `0..=7`.
    IndexOutOfRange,
    /// A `pointer` index other than 0 or 1.
    InvalidPointerIndex,
    /// A segment name that names no segment.
    UnknownSegment,
    /// A pop into `constant`, which is not storage.
    NotWritable,
}

/// A misuse of the code generator.
#[derive(Clone, Copy, Debug, PartialEq, Eq, Structural)]
pub enum GenerationError {
    /// The bootstrap was requested after other code was emitted.
    BootstrapOutOfOrder,
    /// A label counter has reached its largest value.
    CounterOverflow,
    /// A `static` access before any module name was set.
    NoModule,
}

/// Any error of translation.
#[derive(Clone, Debug, PartialEq, Eq)]
pub enum TranslateError {
    Parse(ParseError),
    Segment(SegmentError),
    Generation(GenerationError),
}

/// An error of translation, with the number (from 1) and the text of the
/// source line where it arose.
#[derive(Clone, Debug, PartialEq, Eq)]
pub struct LineError {
    pub line: usize,
    pub text: String,
    pub error: TranslateError,
}

/// The segment that a segment name in source text denotes.
pub open spec fn segment_named(name: Seq<char>) -> Option<Segment> {
    if name == "constant"@ {
        Some(Segment::Constant)
    } else if name == "argument"@ {
        Some(Segment::Argument)
    } else if name == "local"@ {
        Some(Segment::Local)
    } else if name == "static"@ {
        Some(Segment::Static)
    } else if name == "this"@ {
        Some(Segment::This)
    } else if name == "that"@ {
        Some(Segment::That)
    } else if name == "temp"@ {
        Some(Segment::Temp)
    } else if name == "pointer"@ {
        Some(Segment::Pointer)
    } else {
        None
    }
}

/// The arithmetic operation that a mnemonic denotes.
pub open spec fn arith_named(name: Seq<char>) -> Option<ArithOp> {
    if name == "add"@ {
        Some(ArithOp::Add)
    } else if name == "sub"@ {
        Some(ArithOp::Sub)
    } else if name == "neg"@ {
        Some(ArithOp::Neg)
    } else if name == "eq"@ {
        Some(ArithOp::Eq)
    } else if name == "gt"@ {
        Some(ArithOp::Gt)
    } else if name == "lt"@ {
        Some(ArithOp::Lt)
    } else if name == "and"@ {
        Some(ArithOp::And)
    } else if name == "or"@ {
        Some(ArithOp::Or)
    } else if name == "not"@ {
        Some(ArithOp::Not)
    } else {
        None
    }
}

impl Segment {
    /// The segment that `name` names, if any.
    pub fn from_name(name: &str) -> (r: Option<Segment>)
        ensures
            r == segment_named(name@),
    {
        if text_is(name, "constant") {
            Some(Segment::Constant)
        } else if text_is(name, "argument") {
            Some(Segment::Argument)
        } else if text_is(name, "local") {
            Some(Segment::Local)
        } else if text_is(name, "static") {
            Some(Segment::Static)
        } else if text_is(name, "this") {
            Some(Segment::This)
        } else if text_is(name, "that") {
            Some(Segment::That)
        } else if text_is(name, "temp") {
            Some(Segment::Temp)
        } else if text_is(name, "pointer") {
            Some(Segment::Pointer)
        } else {
            None
        }
    }
}

impl ArithOp {
    /// The operation that the mnemonic `name` names, if any.
    pub fn from_name(name: &str) -> (r: Option<ArithOp>)
        ensures
            r == arith_named(name@),
    {
        if text_is(name, "add") {
            Some(ArithOp::Add)
        } else if text_is(name, "sub") {
            Some(ArithOp::Sub)
        } else if text_is(name, "neg") {
            Some(ArithOp::Neg)
        } else if text_is(name, "eq") {
            Some(ArithOp::Eq)
        } else if text_is(name, "gt") {
            Some(ArithOp::Gt)
        } else if text_is(name, "lt") {
            Some(ArithOp::Lt)
        } else if text_is(name, "and") {
            Some(ArithOp::And)
        } else if text_is(name, "or") {
            Some(ArithOp::Or)
        } else if text_is(name, "not") {
            Some(ArithOp::Not)
        } else {
            None
        }
    }
}

} // verus!
