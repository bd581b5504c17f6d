//! The code generator: one fixed assembly sequence per VM instruction.
use vstd::prelude::*;
use crate::assembly::{Addr, Asm, Comp, Cond, Dest, LabelName, Reg, asm_text};
use crate::instruction::{ArithOp, GenerationError, Instruction, Segment, SegmentError, StackCommand, TranslateError};

verus! {

/// Memory locations that have a fixed base address when translating for a
/// test harness, which sets up no bootstrap.
#[derive(Clone, Copy, Debug, PartialEq, Eq, Structural, Hash)]
pub enum MemoryLocation {
    Constant,
    Argument,
    Local,
    Static,
    This,
    That,
    Pointer,
    Index,
    Stack,
}

impl MemoryLocation {
    pub open spec fn spec_base_address(self) -> u16 {
        match self {
            MemoryLocation::Constant => 0,
            MemoryLocation::Argument => 756,
            MemoryLocation::Local => 456,
            MemoryLocation::Static => 3,
            MemoryLocation::This => 1056,
            MemoryLocation::That => 1356,
            MemoryLocation::Pointer => 5,
            MemoryLocation::Index => 6,
            MemoryLocation::Stack => 256,
        }
    }

    /// The base address of this location in a test set-up.
    #[verifier::when_used_as_spec(spec_base_address)]
    pub fn base_address(self) -> (r: u16)
        ensures
            r == self.spec_base_address(),
    {
        match self {
            MemoryLocation::Constant => 0,
            MemoryLocation::Argument => 756,
            MemoryLocation::Local => 456,
            MemoryLocation::Static => 3,
            MemoryLocation::This => 1056,
            MemoryLocation::That => 1356,
            MemoryLocation::Pointer => 5,
            MemoryLocation::Index => 6,
            MemoryLocation::Stack => 256,
        }
    }
}

/// The address the stack pointer is set to by the bootstrap.
pub const STACK_BASE: u16 = 256;

/// The first of the eight `temp` cells.
pub const TEMP_BASE: u16 = 5;

/// The entry function that the bootstrap calls.
pub open spec fn entry_name() -> Seq<char> {
    seq!['S', 'y', 's', '.', 'i', 'n', 'i', 't']
}

// ---- the emitted sequences ----

pub open spec fn at_reg(r: Reg) -> Asm {
    Asm::At(Addr::Reg(r))
}

pub open spec fn assign(d: Dest, c: Comp) -> Asm {
    Asm::Assign(d, c)
}

/// Pushes the D register: `*SP = D; SP++`.
pub open spec fn push_d() -> Seq<Asm> {
    seq![at_reg(Reg::SP), assign(Dest::A, Comp::M), assign(Dest::M, Comp::D), at_reg(Reg::SP), assign(Dest::M, Comp::MPlusOne)]
}

/// The base pointer of a segment that is addressed through one.
pub open spec fn base_reg(seg: Segment) -> Reg {
    match seg {
        Segment::Argument => Reg::ARG,
        Segment::Local => Reg::LCL,
        Segment::This => Reg::THIS,
        _ => Reg::THAT,
    }
}

/// The cell that `pointer 0` / `pointer 1` denotes.
pub open spec fn pointer_reg(index: u16) -> Reg {
    if index == 0 { Reg::THIS } else { Reg::THAT }
}

/// Loads into D the value that a push of `seg index` pushes.
pub open spec fn load_code(seg: Segment, index: u16, module: String) -> Seq<Asm> {
    match seg {
        Segment::Constant => seq![Asm::At(Addr::Num(index)), assign(Dest::D, Comp::A)],
        Segment::Static => seq![Asm::At(Addr::Static(module, index)), assign(Dest::D, Comp::M)],
        Segment::Temp => seq![
            Asm::At(Addr::Num(index)), assign(Dest::D, Comp::A),
            Asm::At(Addr::Num(TEMP_BASE)), assign(Dest::A, Comp::DPlusA),
            assign(Dest::D, Comp::M),
        ],
        Segment::Pointer => seq![at_reg(pointer_reg(index)), assign(Dest::D, Comp::M)],
        _ => seq![
            Asm::At(Addr::Num(index)), assign(Dest::D, Comp::A),
            at_reg(base_reg(seg)), assign(Dest::A, Comp::DPlusM),
            assign(Dest::D, Comp::M),
        ],
    }
}

/// The code of `push constant value`.
pub open spec fn push_const_code(value: u16) -> Seq<Asm> {
    seq![Asm::At(Addr::Num(value)), assign(Dest::D, Comp::A)] + push_d()
}

/// The code of `push seg index`.
pub open spec fn push_code(seg: Segment, index: u16, module: String) -> Seq<Asm> {
    load_code(seg, index, module) + push_d()
}

/// Reads the cell that SP points at into D.
pub open spec fn pop_d() -> Seq<Asm> {
    seq![at_reg(Reg::SP), assign(Dest::A, Comp::M), assign(Dest::D, Comp::M)]
}

/// Stores D through the address held in R13.
pub open spec fn store_via_r13() -> Seq<Asm> {
    seq![at_reg(Reg::R13), assign(Dest::A, Comp::M), assign(Dest::M, Comp::D)]
}

/// The code of `pop seg index`, for a writable segment.
pub open spec fn pop_code(seg: Segment, index: u16, module: String) -> Seq<Asm> {
    let dec_sp = seq![at_reg(Reg::SP), assign(Dest::M, Comp::MMinusOne)];
    match seg {
        Segment::Static => dec_sp + pop_d() + seq![Asm::At(Addr::Static(module, index)), assign(Dest::M, Comp::D)],
        Segment::Pointer => dec_sp + pop_d() + seq![at_reg(pointer_reg(index)), assign(Dest::M, Comp::D)],
        Segment::Temp => dec_sp + seq![
            Asm::At(Addr::Num(index)), assign(Dest::D, Comp::A),
            Asm::At(Addr::Num(TEMP_BASE)), assign(Dest::D, Comp::DPlusA),
            at_reg(Reg::R13), assign(Dest::M, Comp::D),
        ] + pop_d() + store_via_r13(),
        _ => dec_sp + seq![
            Asm::At(Addr::Num(index)), assign(Dest::D, Comp::A),
            at_reg(base_reg(seg)), assign(Dest::D, Comp::DPlusM),
            at_reg(Reg::R13), assign(Dest::M, Comp::D),
        ] + pop_d() + store_via_r13(),
    }
}

/// Why `push seg index` cannot be translated, if it cannot.
pub open spec fn push_error(seg: Segment, index: u16, module: Option<String>) -> Option<TranslateError> {
    if seg == Segment::Temp && index > 7 {
        Some(TranslateError::Segment(SegmentError::IndexOutOfRange))
    } else if seg == Segment::Pointer && index > 1 {
        Some(TranslateError::Segment(SegmentError::InvalidPointerIndex))
    } else if seg == Segment::Static && module is None {
        Some(TranslateError::Generation(GenerationError::NoModule))
    } else {
        None
    }
}

/// Why `pop seg index` cannot be translated, if it cannot.
pub open spec fn pop_error(seg: Segment, index: u16, module: Option<String>) -> Option<TranslateError> {
    if seg == Segment::Constant {
        Some(TranslateError::Segment(SegmentError::NotWritable))
    } else {
        push_error(seg, index, module)
    }
}

/// Replaces the two stack tops by `left comp right`, for `comp` one of
/// `D+M`, `M-D`, `D&M`, `D|M` with D the right operand.
pub open spec fn binary_code(c: Comp) -> Seq<Asm> {
    seq![
        at_reg(Reg::SP), assign(Dest::M, Comp::MMinusOne),
        at_reg(Reg::SP), assign(Dest::A, Comp::M), assign(Dest::D, Comp::M),
        at_reg(Reg::SP), assign(Dest::A, Comp::MMinusOne),
        assign(Dest::D, c), assign(Dest::M, Comp::D),
    ]
}

/// Replaces the stack top in place.
pub open spec fn unary_code(c: Comp) -> Seq<Asm> {
    seq![at_reg(Reg::SP), assign(Dest::A, Comp::MMinusOne), assign(Dest::M, c)]
}

/// A comparison numbered `n`: computes `diff` into D, jumps to `TRUE_n`
/// when `cond` holds of it, and writes true or false over the left operand.
pub open spec fn compare_code(n: u64, diff: Comp, cond: Cond) -> Seq<Asm> {
    seq![
        at_reg(Reg::SP), assign(Dest::M, Comp::MMinusOne),
        at_reg(Reg::SP), assign(Dest::A, Comp::M), assign(Dest::D, Comp::M),
        at_reg(Reg::SP), assign(Dest::A, Comp::MMinusOne),
        assign(Dest::D, diff),
        Asm::At(Addr::Label(LabelName::True(n))), Asm::Jump(Comp::D, cond),
        at_reg(Reg::SP), assign(Dest::M, Comp::MMinusOne), assign(Dest::A, Comp::M), assign(Dest::M, Comp::Zero),
        Asm::At(Addr::Label(LabelName::Continue(n))), Asm::Jump(Comp::Zero, Cond::JMP),
        Asm::Label(LabelName::True(n)),
        at_reg(Reg::SP), assign(Dest::M, Comp::MMinusOne), assign(Dest::A, Comp::M), assign(Dest::M, Comp::MinusOne),
        Asm::Label(LabelName::Continue(n)),
        at_reg(Reg::SP), assign(Dest::M, Comp::MPlusOne),
    ]
}

pub open spec fn is_comparison(op: ArithOp) -> bool {
    op == ArithOp::Eq || op == ArithOp::Gt || op == ArithOp::Lt
}

/// The code of an arithmetic operation; `n` numbers a comparison's labels.
pub open spec fn arithmetic_code(op: ArithOp, n: u64) -> Seq<Asm> {
    match op {
        ArithOp::Add => binary_code(Comp::DPlusM),
        ArithOp::Sub => binary_code(Comp::MMinusD),
        ArithOp::And => binary_code(Comp::DAndM),
        ArithOp::Or => binary_code(Comp::DOrM),
        ArithOp::Neg => unary_code(Comp::NegM),
        ArithOp::Not => unary_code(Comp::NotM),
        ArithOp::Eq => compare_code(n, Comp::MMinusD, Cond::JEQ),
        ArithOp::Gt => compare_code(n, Comp::MMinusD, Cond::JGT),
        ArithOp::Lt => compare_code(n, Comp::DMinusM, Cond::JGT),
    }
}

pub open spec fn label_code(name: String) -> Seq<Asm> {
    seq![Asm::Label(LabelName::User(name))]
}

pub open spec fn goto_code(name: String) -> Seq<Asm> {
    seq![Asm::At(Addr::Label(LabelName::User(name))), Asm::Jump(Comp::Zero, Cond::JMP)]
}

/// Pops the stack top and jumps to `name` if it is not zero.
pub open spec fn if_goto_code(name: String) -> Seq<Asm> {
    seq![
        at_reg(Reg::SP), assign(Dest::AM, Comp::MMinusOne), assign(Dest::D, Comp::M),
        Asm::At(Addr::Label(LabelName::User(name))), Asm::Jump(Comp::D, Cond::JNE),
    ]
}

/// `k` pushes of the constant 0.
pub open spec fn zero_locals(k: nat) -> Seq<Asm>
    decreases k,
{
    if k == 0 {
        Seq::empty()
    } else {
        zero_locals((k - 1) as nat) + push_const_code(0)
    }
}

pub open spec fn function_code(name: String, n_locals: u16) -> Seq<Asm> {
    label_code(name) + zero_locals(n_locals as nat)
}

/// Pushes the value of a pointer cell.
pub open spec fn push_reg(r: Reg) -> Seq<Asm> {
    seq![at_reg(r), assign(Dest::D, Comp::M)] + push_d()
}

/// Points ARG at the first of `n_args` arguments below the five saved
/// cells, and LCL at the stack top.
pub open spec fn set_frame_code(n_args: u16) -> Seq<Asm> {
    seq![
        at_reg(Reg::SP), assign(Dest::D, Comp::M),
        Asm::At(Addr::Num(5)), assign(Dest::D, Comp::DMinusA),
        Asm::At(Addr::Num(n_args)), assign(Dest::D, Comp::DMinusA),
        at_reg(Reg::ARG), assign(Dest::M, Comp::D),
        at_reg(Reg::SP), assign(Dest::D, Comp::M),
        at_reg(Reg::LCL), assign(Dest::M, Comp::D),
    ]
}

/// Pushes the return address of the call numbered `n`.
pub open spec fn push_return_address(name: String, n: u64) -> Seq<Asm> {
    seq![Asm::At(Addr::Label(LabelName::Return(name, n))), assign(Dest::D, Comp::A)] + push_d()
}

/// The part of a call before its jump: saves the caller's frame and sets
/// up the callee's.
pub open spec fn call_frame_code(name: String, n_args: u16, n: u64) -> Seq<Asm> {
    push_return_address(name, n) + push_reg(Reg::LCL) + push_reg(Reg::ARG) + push_reg(Reg::THIS)
    + push_reg(Reg::THAT) + set_frame_code(n_args)
}

/// The calling sequence of the call numbered `n`.
pub open spec fn call_code(name: String, n_args: u16, n: u64) -> Seq<Asm> {
    call_frame_code(name, n_args, n) + goto_code(name) + seq![Asm::Label(LabelName::Return(name, n))]
}

/// Restores one pointer cell from the next lower frame slot.
pub open spec fn restore_code(r: Reg) -> Seq<Asm> {
    seq![at_reg(Reg::R13), assign(Dest::AM, Comp::MMinusOne), assign(Dest::D, Comp::M), at_reg(r), assign(Dest::M, Comp::D)]
}

/// The first part of a return: keeps the frame address in R13 and the
/// return address in R14.
pub open spec fn save_frame_code() -> Seq<Asm> {
    seq![
        at_reg(Reg::LCL), assign(Dest::D, Comp::M), at_reg(Reg::R13), assign(Dest::M, Comp::D),
        Asm::At(Addr::Num(5)), assign(Dest::A, Comp::DMinusA), assign(Dest::D, Comp::M),
        at_reg(Reg::R14), assign(Dest::M, Comp::D),
    ]
}

/// Moves the return value to the caller's first argument slot, and the
/// stack pointer just above it.
pub open spec fn move_result_code() -> Seq<Asm> {
    seq![
        at_reg(Reg::SP), assign(Dest::AM, Comp::MMinusOne), assign(Dest::D, Comp::M),
        at_reg(Reg::ARG), assign(Dest::A, Comp::M), assign(Dest::M, Comp::D),
        at_reg(Reg::ARG), assign(Dest::D, Comp::MPlusOne), at_reg(Reg::SP), assign(Dest::M, Comp::D),
    ]
}

/// The return sequence.
pub open spec fn return_code() -> Seq<Asm> {
    save_frame_code() + move_result_code()
    + restore_code(Reg::THAT) + restore_code(Reg::THIS) + restore_code(Reg::ARG) + restore_code(Reg::LCL)
    + seq![at_reg(Reg::R14), assign(Dest::A, Comp::M), Asm::Jump(Comp::Zero, Cond::JMP)]
}

/// Sets SP to the stack base; the call of the entry function follows.
pub open spec fn init_sp_code() -> Seq<Asm> {
    seq![Asm::At(Addr::Num(STACK_BASE)), assign(Dest::D, Comp::A), at_reg(Reg::SP), assign(Dest::M, Comp::D)]
}

/// Sets a pointer cell to the base address of a location.
pub open spec fn set_base_code(r: Reg, loc: MemoryLocation) -> Seq<Asm> {
    seq![Asm::At(Addr::Num(loc.spec_base_address())), assign(Dest::D, Comp::A), at_reg(r), assign(Dest::M, Comp::D)]
}

/// The pointer set-up of a test harness.
pub open spec fn init_stack_code() -> Seq<Asm> {
    set_base_code(Reg::SP, MemoryLocation::Stack) + set_base_code(Reg::LCL, MemoryLocation::Local)
    + set_base_code(Reg::ARG, MemoryLocation::Argument) + set_base_code(Reg::THIS, MemoryLocation::This)
    + set_base_code(Reg::THAT, MemoryLocation::That)
}

// ---- the generator ----

/// What a code writer holds: the code emitted so far, the current module,
/// and the counters that number comparison and return labels.
pub struct WriterView {
    pub code: Seq<Asm>,
    pub module: Option<String>,
    pub compares: u64,
    pub calls: u64,
}

/// What translating one instruction does to a writer: the writer after it,
/// or the error that stops it.
pub open spec fn step_spec(w: WriterView, i: Instruction) -> Result<WriterView, TranslateError> {
    match i {
        Instruction::Push(seg, n) => match push_error(seg, n, w.module) {
            Some(e) => Err(e),
            None => Ok(WriterView { code: w.code + push_code(seg, n, w.module->0), ..w }),
        },
        Instruction::Pop(seg, n) => match pop_error(seg, n, w.module) {
            Some(e) => Err(e),
            None => Ok(WriterView { code: w.code + pop_code(seg, n, w.module->0), ..w }),
        },
        Instruction::Arithmetic(op) => if is_comparison(op) && w.compares == u64::MAX {
            Err(TranslateError::Generation(GenerationError::CounterOverflow))
        } else {
            Ok(WriterView {
                code: w.code + arithmetic_code(op, w.compares),
                compares: if is_comparison(op) { (w.compares + 1) as u64 } else { w.compares },
                ..w
            })
        },
        Instruction::Label(s) => Ok(WriterView { code: w.code + label_code(s), ..w }),
        Instruction::Goto(s) => Ok(WriterView { code: w.code + goto_code(s), ..w }),
        Instruction::IfGoto(s) => Ok(WriterView { code: w.code + if_goto_code(s), ..w }),
        Instruction::Function(s, k) => Ok(WriterView { code: w.code + function_code(s, k), ..w }),
        Instruction::Call(s, k) => if w.calls == u64::MAX {
            Err(TranslateError::Generation(GenerationError::CounterOverflow))
        } else {
            Ok(WriterView { code: w.code + call_code(s, k, w.calls), calls: (w.calls + 1) as u64, ..w })
        },
        Instruction::Return => Ok(WriterView { code: w.code + return_code(), ..w }),
    }
}

/// Translates VM instructions into assembly, one at a time, in order.
pub struct CodeWriter {
    code: Vec<Asm>,
    filename: Option<String>,
    label_number: u64,
    state: u64,
}

impl View for CodeWriter {
    type V = WriterView;

    closed spec fn view(&self) -> WriterView {
        WriterView { code: self.code@, module: self.filename, compares: self.state, calls: self.label_number }
    }
}


fn push_d_exec() -> (r: Vec<Asm>)
    ensures
        r@ == push_d(),
{
    vec![
        Asm::At(Addr::Reg(Reg::SP)), Asm::Assign(Dest::A, Comp::M), Asm::Assign(Dest::M, Comp::D),
        Asm::At(Addr::Reg(Reg::SP)), Asm::Assign(Dest::M, Comp::MPlusOne),
    ]
}

fn pop_d_exec() -> (r: Vec<Asm>)
    ensures
        r@ == pop_d(),
{
    vec![Asm::At(Addr::Reg(Reg::SP)), Asm::Assign(Dest::A, Comp::M), Asm::Assign(Dest::D, Comp::M)]
}

fn store_via_r13_exec() -> (r: Vec<Asm>)
    ensures
        r@ == store_via_r13(),
{
    vec![Asm::At(Addr::Reg(Reg::R13)), Asm::Assign(Dest::A, Comp::M), Asm::Assign(Dest::M, Comp::D)]
}

fn base_reg_exec(seg: Segment) -> (r: Reg)
    ensures
        r == base_reg(seg),
{
    match seg {
        Segment::Argument => Reg::ARG,
        Segment::Local => Reg::LCL,
        Segment::This => Reg::THIS,
        _ => Reg::THAT,
    }
}

fn pointer_reg_exec(index: u16) -> (r: Reg)
    ensures
        r == pointer_reg(index),
{
    if index == 0 { Reg::THIS } else { Reg::THAT }
}

fn push_reg_exec(r: Reg) -> (v: Vec<Asm>)
    ensures
        v@ == push_reg(r),
{
    let mut v = vec![Asm::At(Addr::Reg(r)), Asm::Assign(Dest::D, Comp::M)];
    let mut tail = push_d_exec();
    v.append(&mut tail);
    v
}

fn restore_exec(r: Reg) -> (v: Vec<Asm>)
    ensures
        v@ == restore_code(r),
{
    vec![
        Asm::At(Addr::Reg(Reg::R13)), Asm::Assign(Dest::AM, Comp::MMinusOne), Asm::Assign(Dest::D, Comp::M),
        Asm::At(Addr::Reg(r)), Asm::Assign(Dest::M, Comp::D),
    ]
}

fn set_base_exec(r: Reg, loc: MemoryLocation) -> (v: Vec<Asm>)
    ensures
        v@ == set_base_code(r, loc),
{
    vec![
        Asm::At(Addr::Num(loc.base_address())), Asm::Assign(Dest::D, Comp::A),
        Asm::At(Addr::Reg(r)), Asm::Assign(Dest::M, Comp::D),
    ]
}

fn compare_exec(n: u64, diff: Comp, cond: Cond) -> (v: Vec<Asm>)
    ensures
        v@ == compare_code(n, diff, cond),
{
    vec![
        Asm::At(Addr::Reg(Reg::SP)), Asm::Assign(Dest::M, Comp::MMinusOne),
        Asm::At(Addr::Reg(Reg::SP)), Asm::Assign(Dest::A, Comp::M), Asm::Assign(Dest::D, Comp::M),
        Asm::At(Addr::Reg(Reg::SP)), Asm::Assign(Dest::A, Comp::MMinusOne),
        Asm::Assign(Dest::D, diff),
        Asm::At(Addr::Label(LabelName::True(n))), Asm::Jump(Comp::D, cond),
        Asm::At(Addr::Reg(Reg::SP)), Asm::Assign(Dest::M, Comp::MMinusOne), Asm::Assign(Dest::A, Comp::M),
        Asm::Assign(Dest::M, Comp::Zero),
        Asm::At(Addr::Label(LabelName::Continue(n))), Asm::Jump(Comp::Zero, Cond::JMP),
        Asm::Label(LabelName::True(n)),
        Asm::At(Addr::Reg(Reg::SP)), Asm::Assign(Dest::M, Comp::MMinusOne), Asm::Assign(Dest::A, Comp::M),
        Asm::Assign(Dest::M, Comp::MinusOne),
        Asm::Label(LabelName::Continue(n)),
        Asm::At(Addr::Reg(Reg::SP)), Asm::Assign(Dest::M, Comp::MPlusOne),
    ]
}

fn binary_exec(c: Comp) -> (v: Vec<Asm>)
    ensures
        v@ == binary_code(c),
{
    vec![
        Asm::At(Addr::Reg(Reg::SP)), Asm::Assign(Dest::M, Comp::MMinusOne),
        Asm::At(Addr::Reg(Reg::SP)), Asm::Assign(Dest::A, Comp::M), Asm::Assign(Dest::D, Comp::M),
        Asm::At(Addr::Reg(Reg::SP)), Asm::Assign(Dest::A, Comp::MMinusOne),
        Asm::Assign(Dest::D, c), Asm::Assign(Dest::M, Comp::D),
    ]
}

fn unary_exec(c: Comp) -> (v: Vec<Asm>)
    ensures
        v@ == unary_code(c),
{
    vec![Asm::At(Addr::Reg(Reg::SP)), Asm::Assign(Dest::A, Comp::MMinusOne), Asm::Assign(Dest::M, c)]
}

/// The code of `push seg index`; `module` is the current module's name.
fn push_exec(seg: Segment, index: u16, module: &Option<String>) -> (v: Vec<Asm>)
    requires
        push_error(seg, index, *module) is None,
    ensures
        v@ == push_code(seg, index, module->0),
{
    let mut v = match seg {
        Segment::Constant => vec![Asm::At(Addr::Num(index)), Asm::Assign(Dest::D, Comp::A)],
        Segment::Static => {
            let m = match module {
                Some(m) => m.clone(),
                None => String::new(),
            };
            vec![Asm::At(Addr::Static(m, index)), Asm::Assign(Dest::D, Comp::M)]
        },
        Segment::Temp => vec![
            Asm::At(Addr::Num(index)), Asm::Assign(Dest::D, Comp::A),
            Asm::At(Addr::Num(TEMP_BASE)), Asm::Assign(Dest::A, Comp::DPlusA),
            Asm::Assign(Dest::D, Comp::M),
        ],
        Segment::Pointer => vec![Asm::At(Addr::Reg(pointer_reg_exec(index))), Asm::Assign(Dest::D, Comp::M)],
        _ => vec![
            Asm::At(Addr::Num(index)), Asm::Assign(Dest::D, Comp::A),
            Asm::At(Addr::Reg(base_reg_exec(seg))), Asm::Assign(Dest::A, Comp::DPlusM),
            Asm::Assign(Dest::D, Comp::M),
        ],
    };
    let mut tail = push_d_exec();
    v.append(&mut tail);
    v
}

/// The code of `pop seg index`; `module` is the current module's name.
fn pop_exec(seg: Segment, index: u16, module: &Option<String>) -> (v: Vec<Asm>)
    requires
        pop_error(seg, index, *module) is None,
    ensures
        v@ == pop_code(seg, index, module->0),
{
    let mut v = vec![Asm::At(Addr::Reg(Reg::SP)), Asm::Assign(Dest::M, Comp::MMinusOne)];
    match seg {
        Segment::Static => {
            let m = match module {
                Some(m) => m.clone(),
                None => String::new(),
            };
            let mut p = pop_d_exec();
            v.append(&mut p);
            let mut st = vec![Asm::At(Addr::Static(m, index)), Asm::Assign(Dest::M, Comp::D)];
            v.append(&mut st);
        },
        Segment::Pointer => {
            let mut p = pop_d_exec();
            v.append(&mut p);
            let mut st = vec![Asm::At(Addr::Reg(pointer_reg_exec(index))), Asm::Assign(Dest::M, Comp::D)];
            v.append(&mut st);
        },
        _ => {
            let mut addr = if seg == Segment::Temp {
                vec![
                    Asm::At(Addr::Num(index)), Asm::Assign(Dest::D, Comp::A),
                    Asm::At(Addr::Num(TEMP_BASE)), Asm::Assign(Dest::D, Comp::DPlusA),
                    Asm::At(Addr::Reg(Reg::R13)), Asm::Assign(Dest::M, Comp::D),
                ]
            } else {
                vec![
                    Asm::At(Addr::Num(index)), Asm::Assign(Dest::D, Comp::A),
                    Asm::At(Addr::Reg(base_reg_exec(seg))), Asm::Assign(Dest::D, Comp::DPlusM),
                    Asm::At(Addr::Reg(Reg::R13)), Asm::Assign(Dest::M, Comp::D),
                ]
            };
            v.append(&mut addr);
            let mut p = pop_d_exec();
            v.append(&mut p);
            let mut st = store_via_r13_exec();
            v.append(&mut st);
        },
    }
    v
}

fn call_exec(name: &String, n_args: u16, n: u64) -> (v: Vec<Asm>)
    ensures
        v@ == call_code(*name, n_args, n),
{
    let mut v = vec![Asm::At(Addr::Label(LabelName::Return(name.clone(), n))), Asm::Assign(Dest::D, Comp::A)];
    let mut p = push_d_exec();
    v.append(&mut p);
    let mut p = push_reg_exec(Reg::LCL);
    v.append(&mut p);
    let mut p = push_reg_exec(Reg::ARG);
    v.append(&mut p);
    let mut p = push_reg_exec(Reg::THIS);
    v.append(&mut p);
    let mut p = push_reg_exec(Reg::THAT);
    v.append(&mut p);
    let mut frame = vec![
        Asm::At(Addr::Reg(Reg::SP)), Asm::Assign(Dest::D, Comp::M),
        Asm::At(Addr::Num(5)), Asm::Assign(Dest::D, Comp::DMinusA),
        Asm::At(Addr::Num(n_args)), Asm::Assign(Dest::D, Comp::DMinusA),
        Asm::At(Addr::Reg(Reg::ARG)), Asm::Assign(Dest::M, Comp::D),
        Asm::At(Addr::Reg(Reg::SP)), Asm::Assign(Dest::D, Comp::M),
        Asm::At(Addr::Reg(Reg::LCL)), Asm::Assign(Dest::M, Comp::D),
        Asm::At(Addr::Label(LabelName::User(name.clone()))), Asm::Jump(Comp::Zero, Cond::JMP),
        Asm::Label(LabelName::Return(name.clone(), n)),
    ];
    v.append(&mut frame);
    assert(v@ =~= call_code(*name, n_args, n));
    v
}

fn return_exec() -> (v: Vec<Asm>)
    ensures
        v@ == return_code(),
{
    let mut v = vec![
        Asm::At(Addr::Reg(Reg::LCL)), Asm::Assign(Dest::D, Comp::M),
        Asm::At(Addr::Reg(Reg::R13)), Asm::Assign(Dest::M, Comp::D),
        Asm::At(Addr::Num(5)), Asm::Assign(Dest::A, Comp::DMinusA), Asm::Assign(Dest::D, Comp::M),
        Asm::At(Addr::Reg(Reg::R14)), Asm::Assign(Dest::M, Comp::D),
        Asm::At(Addr::Reg(Reg::SP)), Asm::Assign(Dest::AM, Comp::MMinusOne), Asm::Assign(Dest::D, Comp::M),
        Asm::At(Addr::Reg(Reg::ARG)), Asm::Assign(Dest::A, Comp::M), Asm::Assign(Dest::M, Comp::D),
        Asm::At(Addr::Reg(Reg::ARG)), Asm::Assign(Dest::D, Comp::MPlusOne),
        Asm::At(Addr::Reg(Reg::SP)), Asm::Assign(Dest::M, Comp::D),
    ];
    let mut p = restore_exec(Reg::THAT);
    v.append(&mut p);
    let mut p = restore_exec(Reg::THIS);
    v.append(&mut p);
    let mut p = restore_exec(Reg::ARG);
    v.append(&mut p);
    let mut p = restore_exec(Reg::LCL);
    v.append(&mut p);
    let mut p = vec![Asm::At(Addr::Reg(Reg::R14)), Asm::Assign(Dest::A, Comp::M), Asm::Jump(Comp::Zero, Cond::JMP)];
    v.append(&mut p);
    assert(v@ =~= return_code());
    v
}

impl CodeWriter {
    fn emit(&mut self, v: Vec<Asm>)
        ensures
            final(self)@ == (WriterView { code: old(self)@.code + v@, ..old(self)@ }),
    {
        let mut v = v;
        self.code.append(&mut v);
    }

    /// A new writer. For a standalone program (`is_test` false) it starts
    /// with the bootstrap; a test harness sets the pointers with
    /// `init_stack` instead.
    pub fn new(is_test: bool) -> (r: CodeWriter)
        ensures
            r@.module is None,
            r@.compares == 0,
            is_test ==> r@.code == Seq::<Asm>::empty() && r@.calls == 0,
            !is_test ==> r@.calls == 1 && exists|e: String|
                e@ == entry_name() && r@.code == init_sp_code() + call_code(e, 0, 0),
    {
        let mut w = CodeWriter { code: Vec::new(), filename: None, label_number: 0, state: 0 };
        if !is_test {
            let r = w.write_bootstrap();
            assert(r is Ok);
        }
        w
    }

    /// Sets the module whose static variables later pushes and pops address.
    pub fn set_file_name(&mut self, filename: &str)
        ensures
            final(self)@.module matches Some(m) && m@ == filename@,
            final(self)@.code == old(self)@.code,
            final(self)@.compares == old(self)@.compares,
            final(self)@.calls == old(self)@.calls,
    {
        self.filename = Some(String::from_str(filename));
    }

    /// The program prologue: sets SP to the stack base and calls `Sys.init`.
    /// It must come before any other code.
    pub fn write_bootstrap(&mut self) -> (r: Result<(), TranslateError>)
        ensures
            old(self)@.code.len() != 0 ==> r == Err::<(), TranslateError>(
                TranslateError::Generation(GenerationError::BootstrapOutOfOrder),
            ),
            old(self)@.code.len() == 0 && old(self)@.calls == u64::MAX ==> r == Err::<(), TranslateError>(
                TranslateError::Generation(GenerationError::CounterOverflow),
            ),
            r is Err ==> final(self)@ == old(self)@,
            old(self)@.code.len() == 0 && old(self)@.calls < u64::MAX ==> r is Ok,
            r is Ok ==> final(self)@.module == old(self)@.module && final(self)@.compares == old(self)@.compares
                && final(self)@.calls == old(self)@.calls + 1 && exists|e: String|
                e@ == entry_name() && final(self)@.code == init_sp_code() + call_code(e, 0, old(self)@.calls),
    {
        if self.code.len() != 0 {
            return Err(TranslateError::Generation(GenerationError::BootstrapOutOfOrder));
        }
        if self.label_number == u64::MAX {
            return Err(TranslateError::Generation(GenerationError::CounterOverflow));
        }
        let v = vec![
            Asm::At(Addr::Num(STACK_BASE)), Asm::Assign(Dest::D, Comp::A),
            Asm::At(Addr::Reg(Reg::SP)), Asm::Assign(Dest::M, Comp::D),
        ];
        self.emit(v);
        let entry = String::from_str("Sys.init");
        proof {
            reveal_strlit("Sys.init");
        }
        let r = self.write_call(&entry, 0);
        assert(self.code@ =~= init_sp_code() + call_code(entry, 0, old(self)@.calls));
        r
    }

    /// Points SP, LCL, ARG, THIS and THAT at the fixed test addresses.
    pub fn init_stack(&mut self)
        ensures
            final(self)@ == (WriterView { code: old(self)@.code + init_stack_code(), ..old(self)@ }),
    {
        let mut v = set_base_exec(Reg::SP, MemoryLocation::Stack);
        let mut p = set_base_exec(Reg::LCL, MemoryLocation::Local);
        v.append(&mut p);
        let mut p = set_base_exec(Reg::ARG, MemoryLocation::Argument);
        v.append(&mut p);
        let mut p = set_base_exec(Reg::THIS, MemoryLocation::This);
        v.append(&mut p);
        let mut p = set_base_exec(Reg::THAT, MemoryLocation::That);
        v.append(&mut p);
        self.emit(v);
    }

    /// Emits `push segment index` or `pop segment index`.
    pub fn write_push_pop(&mut self, command: StackCommand, segment: Segment, index: u16) -> (r: Result<(), TranslateError>)
        ensures
            ({
                let e = match command {
                    StackCommand::Push => push_error(segment, index, old(self)@.module),
                    StackCommand::Pop => pop_error(segment, index, old(self)@.module),
                };
                match e {
                    Some(err) => r == Err::<(), TranslateError>(err) && final(self)@ == old(self)@,
                    None => r is Ok && final(self)@ == (WriterView {
                        code: old(self)@.code + match command {
                            StackCommand::Push => push_code(segment, index, old(self)@.module->0),
                            StackCommand::Pop => pop_code(segment, index, old(self)@.module->0),
                        },
                        ..old(self)@
                    }),
                }
            }),
    {
        match command {
            StackCommand::Push => {
                if segment == Segment::Temp && index > 7 {
                    return Err(TranslateError::Segment(SegmentError::IndexOutOfRange));
                }
                if segment == Segment::Pointer && index > 1 {
                    return Err(TranslateError::Segment(SegmentError::InvalidPointerIndex));
                }
                if segment == Segment::Static && self.filename.is_none() {
                    return Err(TranslateError::Generation(GenerationError::NoModule));
                }
                let v = push_exec(segment, index, &self.filename);
                self.emit(v);
            },
            StackCommand::Pop => {
                if segment == Segment::Constant {
                    return Err(TranslateError::Segment(SegmentError::NotWritable));
                }
                if segment == Segment::Temp && index > 7 {
                    return Err(TranslateError::Segment(SegmentError::IndexOutOfRange));
                }
                if segment == Segment::Pointer && index > 1 {
                    return Err(TranslateError::Segment(SegmentError::InvalidPointerIndex));
                }
                if segment == Segment::Static && self.filename.is_none() {
                    return Err(TranslateError::Generation(GenerationError::NoModule));
                }
                let v = pop_exec(segment, index, &self.filename);
                self.emit(v);
            },
        }
        Ok(())
    }

    /// Emits an arithmetic or logical operation. A comparison takes the next
    /// number for its labels.
    pub fn write_arithmetic(&mut self, op: ArithOp) -> (r: Result<(), TranslateError>)
        ensures
            is_comparison(op) && old(self)@.compares == u64::MAX ==> r == Err::<(), TranslateError>(
                TranslateError::Generation(GenerationError::CounterOverflow),
            ) && final(self)@ == old(self)@,
            !(is_comparison(op) && old(self)@.compares == u64::MAX) ==> r is Ok && final(self)@ == (WriterView {
                code: old(self)@.code + arithmetic_code(op, old(self)@.compares),
                compares: if is_comparison(op) { (old(self)@.compares + 1) as u64 } else { old(self)@.compares },
                ..old(self)@
            }),
    {
        let v = match op {
            ArithOp::Add => binary_exec(Comp::DPlusM),
            ArithOp::Sub => binary_exec(Comp::MMinusD),
            ArithOp::And => binary_exec(Comp::DAndM),
            ArithOp::Or => binary_exec(Comp::DOrM),
            ArithOp::Neg => unary_exec(Comp::NegM),
            ArithOp::Not => unary_exec(Comp::NotM),
            _ => {
                if self.state == u64::MAX {
                    return Err(TranslateError::Generation(GenerationError::CounterOverflow));
                }
                let n = self.state;
                self.state = self.state + 1;
                match op {
                    ArithOp::Eq => compare_exec(n, Comp::MMinusD, Cond::JEQ),
                    ArithOp::Gt => compare_exec(n, Comp::MMinusD, Cond::JGT),
                    _ => compare_exec(n, Comp::DMinusM, Cond::JGT),
                }
            },
        };
        self.emit(v);
        Ok(())
    }

    /// Emits the label `(label)`.
    pub fn write_label(&mut self, label: &String)
        ensures
            final(self)@ == (WriterView { code: old(self)@.code + label_code(*label), ..old(self)@ }),
    {
        let v = vec![Asm::Label(LabelName::User(label.clone()))];
        assert(v@ =~= label_code(*label));
        self.emit(v);
    }

    /// Emits `if-goto label`: pops the stack top and jumps when it is not zero.
    pub fn write_ifgoto(&mut self, label: &String)
        ensures
            final(self)@ == (WriterView { code: old(self)@.code + if_goto_code(*label), ..old(self)@ }),
    {
        let v = vec![
            Asm::At(Addr::Reg(Reg::SP)), Asm::Assign(Dest::AM, Comp::MMinusOne), Asm::Assign(Dest::D, Comp::M),
            Asm::At(Addr::Label(LabelName::User(label.clone()))), Asm::Jump(Comp::D, Cond::JNE),
        ];
        self.emit(v);
    }

    /// Emits `goto label`.
    pub fn write_goto(&mut self, label: &String)
        ensures
            final(self)@ == (WriterView { code: old(self)@.code + goto_code(*label), ..old(self)@ }),
    {
        let v = vec![Asm::At(Addr::Label(LabelName::User(label.clone()))), Asm::Jump(Comp::Zero, Cond::JMP)];
        self.emit(v);
    }

    /// Emits `function name n_locals`: the entry label, then one push of 0
    /// for each local.
    pub fn write_function(&mut self, function_name: &String, n_locals: u16)
        ensures
            final(self)@ == (WriterView { code: old(self)@.code + function_code(*function_name, n_locals), ..old(self)@ }),
    {
        self.write_label(function_name);
        let mut i: u16 = 0;
        while i < n_locals
            invariant
                i <= n_locals,
                self@ == (WriterView {
                    code: old(self)@.code + label_code(*function_name) + zero_locals(i as nat),
                    ..old(self)@
                }),
            decreases n_locals - i,
        {
            let mut v = vec![Asm::At(Addr::Num(0)), Asm::Assign(Dest::D, Comp::A)];
            let mut p = push_d_exec();
            v.append(&mut p);
            self.emit(v);
            i = i + 1;
            assert(self@.code =~= old(self)@.code + label_code(*function_name) + zero_locals(i as nat));
        }
        assert(self@.code =~= old(self)@.code + function_code(*function_name, n_locals));
    }

    /// Emits `call name n_args`; the call takes the next number for its
    /// return label.
    pub fn write_call(&mut self, function_name: &String, n_args: u16) -> (r: Result<(), TranslateError>)
        ensures
            old(self)@.calls == u64::MAX ==> r == Err::<(), TranslateError>(
                TranslateError::Generation(GenerationError::CounterOverflow),
            ) && final(self)@ == old(self)@,
            old(self)@.calls < u64::MAX ==> r is Ok && final(self)@ == (WriterView {
                code: old(self)@.code + call_code(*function_name, n_args, old(self)@.calls),
                calls: (old(self)@.calls + 1) as u64,
                ..old(self)@
            }),
    {
        if self.label_number == u64::MAX {
            return Err(TranslateError::Generation(GenerationError::CounterOverflow));
        }
        let v = call_exec(function_name, n_args, self.label_number);
        self.emit(v);
        self.label_number = self.label_number + 1;
        Ok(())
    }

    /// Emits `return`.
    pub fn write_return(&mut self)
        ensures
            final(self)@ == (WriterView { code: old(self)@.code + return_code(), ..old(self)@ }),
    {
        let v = return_exec();
        self.emit(v);
    }

    /// The code emitted so far.
    pub fn code(&self) -> (r: &Vec<Asm>)
        ensures
            r@ == self@.code,
    {
        &self.code
    }

    /// How many comparisons have been emitted: the number of the next one.
    pub fn state(&self) -> (r: u64)
        ensures
            r == self@.compares,
    {
        self.state
    }

    /// The code emitted so far, one line of text per instruction.
    pub fn lines(&self) -> (r: Vec<String>)
        ensures
            r@.len() == self@.code.len(),
            forall|i: int| 0 <= i < r@.len() ==> #[trigger] r@[i]@ == asm_text(self@.code[i]),
    {
        let mut out: Vec<String> = Vec::new();
        let mut i: usize = 0;
        while i < self.code.len()
            invariant
                i <= self.code@.len(),
                out@.len() == i,
                forall|k: int| 0 <= k < i ==> #[trigger] out@[k]@ == asm_text(self.code@[k]),
            decreases self.code@.len() - i,
        {
            out.push(self.code[i].text());
            i = i + 1;
        }
        out
    }

    /// Emits the code of one instruction.
    pub fn write_instruction(&mut self, i: &Instruction) -> (r: Result<(), TranslateError>)
        ensures
            match step_spec(old(self)@, *i) {
                Ok(w) => r is Ok && final(self)@ == w,
                Err(e) => r == Err::<(), TranslateError>(e) && final(self)@ == old(self)@,
            },
    {
        match i {
            Instruction::Push(seg, n) => self.write_push_pop(StackCommand::Push, *seg, *n),
            Instruction::Pop(seg, n) => self.write_push_pop(StackCommand::Pop, *seg, *n),
            Instruction::Arithmetic(op) => self.write_arithmetic(*op),
            Instruction::Label(s) => {
                self.write_label(s);
                Ok(())
            },
            Instruction::Goto(s) => {
                self.write_goto(s);
                Ok(())
            },
            Instruction::IfGoto(s) => {
                self.write_ifgoto(s);
                Ok(())
            },
            Instruction::Function(s, k) => {
                self.write_function(s, *k);
                Ok(())
            },
            Instruction::Call(s, k) => self.write_call(s, *k),
            Instruction::Return => {
                self.write_return();
                Ok(())
            },
        }
    }
}

} // verus!
