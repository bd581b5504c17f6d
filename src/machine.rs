//! A model of the 16-bit target machine, used to state what emitted code does.
use vstd::prelude::*;
use crate::assembly::{Addr, Asm, Comp, Cond, Dest, Reg, label_text, static_text};

verus! {

/// Register and memory state of the target machine.
pub struct Cpu {
    pub a: u16,
    pub d: u16,
    pub ram: spec_fn(u16) -> u16,
}

/// The result of running a block of code: the final state, and where control
/// left the block (`None`: it fell off the end; `Some(t)`: it jumped to ROM
/// address `t` outside the block).
pub struct Outcome {
    pub cpu: Cpu,
    pub exit: Option<u16>,
}

/// The address an assembler gives to each user symbol (variables and labels).
pub type SymbolTable = spec_fn(Seq<char>) -> u16;

/// 16-bit wrap-around of an integer.
pub open spec fn wrap(x: int) -> u16 {
    (x % 0x10000) as u16
}

/// The two's-complement value of a word.
pub open spec fn signed(w: u16) -> int {
    if w < 0x8000 { w as int } else { w as int - 0x10000 }
}

/// The all-ones word, the machine's boolean true.
pub open spec fn word_true() -> u16 {
    0xffff
}

pub open spec fn reg_address(r: Reg) -> u16 {
    match r {
        Reg::SP => 0,
        Reg::LCL => 1,
        Reg::ARG => 2,
        Reg::THIS => 3,
        Reg::THAT => 4,
        Reg::R13 => 13,
        Reg::R14 => 14,
    }
}

/// The value an `@` instruction loads into A.
pub open spec fn addr_value(a: Addr, sym: SymbolTable) -> u16 {
    match a {
        Addr::Num(n) => wrap(n as int),
        Addr::Reg(r) => reg_address(r),
        Addr::Static(m, i) => sym(static_text(m@, i)),
        Addr::Label(l) => sym(label_text(l)),
    }
}

/// Memory after writing `v` at address `at`.
pub open spec fn write(ram: spec_fn(u16) -> u16, at: u16, v: u16) -> spec_fn(u16) -> u16 {
    |x: u16| if x == at { v } else { ram(x) }
}

pub open spec fn comp_value(c: Comp, s: Cpu) -> u16 {
    let m = (s.ram)(s.a);
    match c {
        Comp::Zero => 0,
        Comp::MinusOne => word_true(),
        Comp::D => s.d,
        Comp::A => s.a,
        Comp::M => m,
        Comp::MPlusOne => wrap(m + 1),
        Comp::MMinusOne => wrap(m - 1),
        Comp::DPlusA => wrap(s.d + s.a),
        Comp::DMinusA => wrap(s.d - s.a),
        Comp::DPlusM => wrap(s.d + m),
        Comp::MMinusD => wrap(m - s.d),
        Comp::DMinusM => wrap(s.d - m),
        Comp::DAndM => s.d & m,
        Comp::DOrM => s.d | m,
        Comp::NotM => !m,
        Comp::NegM => wrap(0 - m),
    }
}

pub open spec fn cond_holds(j: Cond, v: u16) -> bool {
    match j {
        Cond::JMP => true,
        Cond::JEQ => v == 0,
        Cond::JGT => signed(v) > 0,
        Cond::JNE => v != 0,
    }
}

/// One non-jumping instruction. Labels do nothing.
pub open spec fn step(s: Cpu, i: Asm, sym: SymbolTable) -> Cpu {
    match i {
        Asm::At(a) => Cpu { a: addr_value(a, sym), ..s },
        Asm::Assign(dest, c) => {
            let v = comp_value(c, s);
            match dest {
                Dest::A => Cpu { a: v, ..s },
                Dest::D => Cpu { d: v, ..s },
                Dest::M => Cpu { ram: write(s.ram, s.a, v), ..s },
                Dest::AM => Cpu { a: v, ram: write(s.ram, s.a, v), ..s },
            }
        },
        _ => s,
    }
}

/// The first position at or after `from` that holds a label at ROM address
/// `target`, or `code.len()` if there is none.
pub open spec fn find_label(code: Seq<Asm>, target: u16, sym: SymbolTable, from: int) -> int
    decreases code.len() - from,
{
    if from < 0 || from >= code.len() {
        code.len() as int
    } else {
        match code[from] {
            Asm::Label(l) => if sym(label_text(l)) == target {
                from
            } else {
                find_label(code, target, sym, from + 1)
            },
            _ => find_label(code, target, sym, from + 1),
        }
    }
}

/// Runs `code` from position `pc`. A taken jump to a label further down the
/// block continues there; any other taken jump leaves the block.
pub open spec fn run_from(code: Seq<Asm>, pc: int, s: Cpu, sym: SymbolTable) -> Outcome
    decreases code.len() - pc,
{
    if pc < 0 || pc >= code.len() {
        Outcome { cpu: s, exit: None }
    } else {
        match code[pc] {
            Asm::Jump(c, j) => if cond_holds(j, comp_value(c, s)) {
                let t = find_label(code, s.a, sym, pc + 1);
                if pc < t < code.len() {
                    run_from(code, t, s, sym)
                } else {
                    Outcome { cpu: s, exit: Some(s.a) }
                }
            } else {
                run_from(code, pc + 1, s, sym)
            },
            _ => run_from(code, pc + 1, step(s, code[pc], sym), sym),
        }
    }
}

/// Runs a whole block from its first instruction.
pub open spec fn run(code: Seq<Asm>, s: Cpu, sym: SymbolTable) -> Outcome {
    run_from(code, 0, s, sym)
}

/// Runs straight-line code from position `i` to the end, ignoring jumps.
pub open spec fn exec_from(code: Seq<Asm>, i: int, s: Cpu, sym: SymbolTable) -> Cpu
    decreases code.len() - i,
{
    if i < 0 || i >= code.len() {
        s
    } else {
        exec_from(code, i + 1, step(s, code[i], sym), sym)
    }
}

/// The state after straight-line code.
pub open spec fn exec(code: Seq<Asm>, s: Cpu, sym: SymbolTable) -> Cpu {
    exec_from(code, 0, s, sym)
}

/// Code without jumps.
pub open spec fn jump_free(code: Seq<Asm>) -> bool {
    forall|k: int| 0 <= k < code.len() ==> !(#[trigger] code[k] is Jump)
}

/// Code without jumps runs to its end.
pub proof fn lemma_run_jump_free(code: Seq<Asm>, i: int, s: Cpu, sym: SymbolTable)
    requires
        0 <= i,
        forall|k: int| i <= k < code.len() ==> !(#[trigger] code[k] is Jump),
    ensures
        run_from(code, i, s, sym) == (Outcome { cpu: exec_from(code, i, s, sym), exit: None }),
    decreases code.len() - i,
{
    if i < code.len() {
        lemma_run_jump_free(code, i + 1, step(s, code[i], sym), sym);
    }
}

proof fn lemma_find_label_shift(c1: Seq<Asm>, c2: Seq<Asm>, t: u16, sym: SymbolTable, k: int)
    requires
        0 <= k,
    ensures
        find_label(c1 + c2, t, sym, c1.len() + k) == c1.len() + find_label(c2, t, sym, k),
    decreases c2.len() - k,
{
    if k < c2.len() {
        assert((c1 + c2)[c1.len() + k] == c2[k]);
        lemma_find_label_shift(c1, c2, t, sym, k + 1);
    }
}

proof fn lemma_run_shift(c1: Seq<Asm>, c2: Seq<Asm>, k: int, s: Cpu, sym: SymbolTable)
    requires
        0 <= k,
    ensures
        run_from(c1 + c2, c1.len() + k, s, sym) == run_from(c2, k, s, sym),
    decreases c2.len() - k,
{
    if k < c2.len() {
        assert((c1 + c2)[c1.len() + k] == c2[k]);
        match c2[k] {
            Asm::Jump(c, j) => {
                lemma_find_label_shift(c1, c2, s.a, sym, k + 1);
                let t = find_label(c2, s.a, sym, k + 1);
                if cond_holds(j, comp_value(c, s)) && k < t < c2.len() {
                    lemma_run_shift(c1, c2, t, s, sym);
                } else if !cond_holds(j, comp_value(c, s)) {
                    lemma_run_shift(c1, c2, k + 1, s, sym);
                }
            },
            _ => {
                lemma_run_shift(c1, c2, k + 1, step(s, c2[k], sym), sym);
            },
        }
    }
}

proof fn lemma_run_concat_from(c1: Seq<Asm>, c2: Seq<Asm>, i: int, s: Cpu, sym: SymbolTable)
    requires
        0 <= i <= c1.len(),
        jump_free(c1),
    ensures
        run_from(c1 + c2, i, s, sym) == run(c2, exec_from(c1, i, s, sym), sym),
    decreases c1.len() - i,
{
    if i < c1.len() {
        assert((c1 + c2)[i] == c1[i]);
        assert(!(c1[i] is Jump));
        lemma_run_concat_from(c1, c2, i + 1, step(s, c1[i], sym), sym);
    } else {
        lemma_run_shift(c1, c2, 0, s, sym);
    }
}

/// Running straight-line code and then more code is running the second
/// from the state the first leaves.
pub proof fn lemma_run_concat(c1: Seq<Asm>, c2: Seq<Asm>, s: Cpu, sym: SymbolTable)
    requires
        jump_free(c1),
    ensures
        run(c1 + c2, s, sym) == run(c2, exec(c1, s, sym), sym),
{
    lemma_run_concat_from(c1, c2, 0, s, sym);
}

proof fn lemma_exec_shift(c1: Seq<Asm>, c2: Seq<Asm>, k: int, s: Cpu, sym: SymbolTable)
    requires
        0 <= k,
    ensures
        exec_from(c1 + c2, c1.len() + k, s, sym) == exec_from(c2, k, s, sym),
    decreases c2.len() - k,
{
    if k < c2.len() {
        assert((c1 + c2)[c1.len() + k] == c2[k]);
        lemma_exec_shift(c1, c2, k + 1, step(s, c2[k], sym), sym);
    }
}

proof fn lemma_exec_concat_from(c1: Seq<Asm>, c2: Seq<Asm>, i: int, s: Cpu, sym: SymbolTable)
    requires
        0 <= i <= c1.len(),
    ensures
        exec_from(c1 + c2, i, s, sym) == exec(c2, exec_from(c1, i, s, sym), sym),
    decreases c1.len() - i,
{
    if i < c1.len() {
        assert((c1 + c2)[i] == c1[i]);
        lemma_exec_concat_from(c1, c2, i + 1, step(s, c1[i], sym), sym);
    } else {
        lemma_exec_shift(c1, c2, 0, s, sym);
    }
}

/// Straight-line code runs piece by piece.
pub proof fn lemma_exec_concat(c1: Seq<Asm>, c2: Seq<Asm>, s: Cpu, sym: SymbolTable)
    ensures
        exec(c1 + c2, s, sym) == exec(c2, exec(c1, s, sym), sym),
{
    lemma_exec_concat_from(c1, c2, 0, s, sym);
}

/// Jump-free code, run as a block, falls off its end in the state `exec`
/// gives.
pub proof fn lemma_run_straight(code: Seq<Asm>, s: Cpu, sym: SymbolTable)
    requires
        jump_free(code),
    ensures
        run(code, s, sym) == (Outcome { cpu: exec(code, s, sym), exit: None }),
{
    lemma_run_jump_free(code, 0, s, sym);
}

} // verus!
