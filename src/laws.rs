//! What the emitted code does on the target machine.
use vstd::prelude::*;
use crate::assembly::{Addr, Asm, Comp, Cond, Dest, LabelName, Reg, decimal, digit_char, label_text, static_text};
use crate::code_writer::{
    TEMP_BASE, WriterView, arithmetic_code, base_reg, call_code, call_frame_code, compare_code, goto_code,
    is_comparison, move_result_code, pointer_reg, pop_code, pop_error, push_code, push_error, push_reg,
    push_return_address, restore_code, return_code, save_frame_code, set_frame_code, step_spec,
};
use crate::instruction::{ArithOp, Instruction, Segment};
use crate::machine::{
    Cpu, SymbolTable, addr_value, cond_holds, exec, exec_from, find_label, jump_free, reg_address, run, run_from,
    signed, step, word_true, wrap, lemma_exec_concat, lemma_run_concat, lemma_run_jump_free, lemma_run_straight,
};

verus! {

/// The stack pointer.
pub open spec fn sp(s: Cpu) -> u16 {
    (s.ram)(0)
}

/// The stack lies in the stack region and has room for `k` more values.
pub open spec fn stack_room(s: Cpu, k: int) -> bool {
    256 <= sp(s) && sp(s) + k <= 2048
}

/// Pushing a constant and popping it into `temp 0` stores the constant in
/// `temp 0` and leaves the stack pointer where it was.
pub proof fn law_push_constant_pop_temp(n: u16, module: String, s: Cpu, sym: SymbolTable)
    requires
        stack_room(s, 1),
    ensures
        ({
            let o = run(push_code(Segment::Constant, n, module) + pop_code(Segment::Temp, 0, module), s, sym);
            &&& o.exit is None
            &&& (o.cpu.ram)(TEMP_BASE) == n
            &&& sp(o.cpu) == sp(s)
        }),
{
    let c1 = push_code(Segment::Constant, n, module);
    let c2 = pop_code(Segment::Temp, 0, module);
    lemma_run_straight(c1 + c2, s, sym);
    lemma_exec_concat(c1, c2, s, sym);
    let s1 = exec(c1, s, sym);
    assert((s1.ram)(0) == sp(s) + 1 && (s1.ram)(sp(s)) == n) by {
        reveal_with_fuel(exec_from, 8);
    }
    let s2 = exec(c2, s1, sym);
    assert((s2.ram)(TEMP_BASE) == n && sp(s2) == sp(s)) by {
        reveal_with_fuel(exec_from, 17);
    }
}

/// Pushing two constants and adding them leaves one more value on the
/// stack than before: their sum, wrapped to 16 bits. No other cell changes
/// but the stack pointer and the cell above the result.
#[verifier::rlimit(30)]
pub proof fn law_add_constants(a: u16, b: u16, n: u64, module: String, s: Cpu, sym: SymbolTable)
    requires
        stack_room(s, 2),
    ensures
        ({
            let o = run(
                push_code(Segment::Constant, a, module) + push_code(Segment::Constant, b, module)
                    + arithmetic_code(ArithOp::Add, n),
                s,
                sym,
            );
            &&& o.exit is None
            &&& sp(o.cpu) == sp(s) + 1
            &&& (o.cpu.ram)(sp(s)) == wrap(a + b)
            &&& forall|x: u16| x != 0 && x != sp(s) && x != sp(s) + 1 ==> #[trigger] (o.cpu.ram)(x) == (s.ram)(x)
        }),
{
    let c12 = push_code(Segment::Constant, a, module) + push_code(Segment::Constant, b, module);
    let c3 = arithmetic_code(ArithOp::Add, n);
    let p = sp(s);
    lemma_run_straight(c12 + c3, s, sym);
    lemma_exec_concat(c12, c3, s, sym);
    lemma_push_two(a, b, module, s, sym);
    let s2 = exec(c12, s, sym);
    let s3 = exec(c3, s2, sym);
    assert((s3.ram)(0) == p + 1 && (s3.ram)(p) == wrap(a + b)
        && forall|x: u16| x != 0 && x != p ==> #[trigger] (s3.ram)(x) == (s2.ram)(x)) by {
        reveal_with_fuel(exec_from, 10);
    }
}

/// Pushing a cell of `local` and popping it back into the same cell
/// changes no cell but the scratch register R13 and the free slot above the
/// stack, and leaves the stack pointer where it was.
#[verifier::rlimit(30)]
pub proof fn law_local_round_trip(i: u16, module: String, s: Cpu, sym: SymbolTable)
    requires
        stack_room(s, 1),
        wrap((s.ram)(reg_address(base_reg(Segment::Local))) + i) != 0,
    ensures
        ({
            let o = run(push_code(Segment::Local, i, module) + pop_code(Segment::Local, i, module), s, sym);
            &&& o.exit is None
            &&& sp(o.cpu) == sp(s)
            &&& forall|x: u16| x != 13 && x != sp(s) ==> #[trigger] (o.cpu.ram)(x) == (s.ram)(x)
        }),
{
    let c1 = push_code(Segment::Local, i, module);
    let c2 = pop_code(Segment::Local, i, module);
    let p = sp(s);
    let at = wrap((s.ram)(1) + i);
    lemma_run_straight(c1 + c2, s, sym);
    lemma_exec_concat(c1, c2, s, sym);
    let s1 = exec(c1, s, sym);
    assert((s1.ram)(0) == p + 1 && (s1.ram)(p) == (s.ram)(at)
        && forall|x: u16| x != 0 && x != p ==> #[trigger] (s1.ram)(x) == (s.ram)(x)) by {
        reveal_with_fuel(exec_from, 11);
    }
    let s2 = exec(c2, s1, sym);
    assert((s2.ram)(0) == p && (s2.ram)(at) == (s1.ram)(p)
        && forall|x: u16| x != 0 && x != at && x != 13 ==> #[trigger] (s2.ram)(x) == (s1.ram)(x)) by {
        reveal_with_fuel(exec_from, 17);
    }
}

/// What a comparison computes of its left and right operands.
pub open spec fn compare_holds(op: ArithOp, left: int, right: int) -> bool {
    match op {
        ArithOp::Eq => left == right,
        ArithOp::Gt => left > right,
        _ => left < right,
    }
}

/// The comparison block numbered `n` replaces the two stack tops `x`, `y`
/// by all-ones where `cond` holds of `diff`, else by zero.
#[verifier::rlimit(30)]
proof fn lemma_compare_block(n: u64, diff: Comp, cond: Cond, s: Cpu, sym: SymbolTable)
    requires
        258 <= sp(s) <= 2048,
        diff == Comp::MMinusD || diff == Comp::DMinusM,
        sym(label_text(LabelName::True(n))) != sym(label_text(LabelName::Continue(n))),
    ensures
        ({
            let q = sp(s);
            let x = (s.ram)((q - 2) as u16);
            let y = (s.ram)((q - 1) as u16);
            let d = if diff == Comp::MMinusD { wrap(x - y) } else { wrap(y - x) };
            let o = run(compare_code(n, diff, cond), s, sym);
            &&& o.exit is None
            &&& sp(o.cpu) == q - 1
            &&& (o.cpu.ram)((q - 2) as u16) == if cond_holds(cond, d) { word_true() } else { 0 }
            &&& forall|z: u16| z != 0 && z != q - 2 ==> #[trigger] (o.cpu.ram)(z) == (s.ram)(z)
        }),
{
    let code = compare_code(n, diff, cond);
    let pre = code.take(8);
    let rest = code.skip(8);
    assert(code =~= pre + rest);
    assert(jump_free(pre));
    lemma_run_concat(pre, rest, s, sym);
    let q = sp(s);
    let x = (s.ram)((q - 2) as u16);
    let y = (s.ram)((q - 1) as u16);
    let d = if diff == Comp::MMinusD { wrap(x - y) } else { wrap(y - x) };
    let s3 = exec(pre, s, sym);
    assert(sp(s3) == q - 1 && s3.a == q - 2 && s3.d == d
        && forall|z: u16| z != 0 ==> #[trigger] (s3.ram)(z) == (s.ram)(z)) by {
        reveal_with_fuel(exec_from, 9);
    }
    let t_true = sym(label_text(LabelName::True(n)));
    let t_cont = sym(label_text(LabelName::Continue(n)));
    let s4 = Cpu { a: t_true, ..s3 };
    assert(run_from(rest, 0, s3, sym) == run_from(rest, 1, s4, sym));
    if cond_holds(cond, d) {
        assert(find_label(rest, t_true, sym, 2) == 8) by {
            reveal_with_fuel(find_label, 8);
        }
        assert(run_from(rest, 1, s4, sym) == run_from(rest, 8, s4, sym));
        lemma_run_jump_free(rest, 8, s4, sym);
        let s5 = exec_from(rest, 8, s4, sym);
        assert(sp(s5) == q - 1 && (s5.ram)((q - 2) as u16) == word_true()
            && forall|z: u16| z != 0 && z != q - 2 ==> #[trigger] (s5.ram)(z) == (s3.ram)(z)) by {
            reveal_with_fuel(exec_from, 9);
        }
    } else {
        assert(run_from(rest, 1, s4, sym) == run_from(rest, 2, s4, sym));
        let t2 = step(s4, rest[2], sym);
        let t3 = step(t2, rest[3], sym);
        let t4 = step(t3, rest[4], sym);
        let t5 = step(t4, rest[5], sym);
        let s6 = step(t5, rest[6], sym);
        assert(run_from(rest, 2, s4, sym) == run_from(rest, 3, t2, sym));
        assert(run_from(rest, 3, t2, sym) == run_from(rest, 4, t3, sym));
        assert(run_from(rest, 4, t3, sym) == run_from(rest, 5, t4, sym));
        assert(run_from(rest, 5, t4, sym) == run_from(rest, 6, t5, sym));
        assert(run_from(rest, 6, t5, sym) == run_from(rest, 7, s6, sym));
        assert(s6.a == t_cont && sp(s6) == q - 2 && (s6.ram)((q - 2) as u16) == 0
            && forall|z: u16| z != 0 && z != q - 2 ==> #[trigger] (s6.ram)(z) == (s3.ram)(z));
        assert(find_label(rest, t_cont, sym, 8) == 13) by {
            reveal_with_fuel(find_label, 7);
        }
        assert(run_from(rest, 7, s6, sym) == run_from(rest, 13, s6, sym));
        lemma_run_jump_free(rest, 13, s6, sym);
        let s7 = exec_from(rest, 13, s6, sym);
        assert(sp(s7) == q - 1 && (s7.ram)((q - 2) as u16) == 0
            && forall|z: u16| z != 0 ==> #[trigger] (s7.ram)(z) == (s6.ram)(z)) by {
            reveal_with_fuel(exec_from, 4);
        }
    }
}

proof fn lemma_wrap_small(v: int)
    requires
        -0x8000 < v < 0x8000,
    ensures
        signed(wrap(v)) == v,
        (wrap(v) == 0) == (v == 0),
{
    if v >= 0 {
        assert(v % 0x10000 == v);
    } else {
        assert(v % 0x10000 == v + 0x10000);
    }
}

proof fn lemma_push_constant(v: u16, module: String, s: Cpu, sym: SymbolTable)
    requires
        stack_room(s, 1),
    ensures
        ({
            let s1 = exec(push_code(Segment::Constant, v, module), s, sym);
            &&& sp(s1) == sp(s) + 1
            &&& (s1.ram)(sp(s)) == v
            &&& forall|x: u16| x != 0 && x != sp(s) ==> #[trigger] (s1.ram)(x) == (s.ram)(x)
        }),
{
    reveal_with_fuel(exec_from, 8);
}

/// The stack after pushing `a` and then `b`: two more values, the rest of
/// memory but the stack pointer as it was.
proof fn lemma_push_two(a: u16, b: u16, module: String, s: Cpu, sym: SymbolTable)
    requires
        stack_room(s, 2),
    ensures
        ({
            let s2 = exec(push_code(Segment::Constant, a, module) + push_code(Segment::Constant, b, module), s, sym);
            &&& sp(s2) == sp(s) + 2
            &&& (s2.ram)(sp(s)) == a
            &&& (s2.ram)((sp(s) + 1) as u16) == b
            &&& forall|x: u16| x != 0 && x != sp(s) && x != sp(s) + 1 ==> #[trigger] (s2.ram)(x) == (s.ram)(x)
        }),
{
    let c1 = push_code(Segment::Constant, a, module);
    let c2 = push_code(Segment::Constant, b, module);
    lemma_exec_concat(c1, c2, s, sym);
    lemma_push_constant(a, module, s, sym);
    let s1 = exec(c1, s, sym);
    lemma_push_constant(b, module, s1, sym);
}

/// Pushing two constants below 0x8000 (the constants an `@` instruction can
/// load) and comparing them leaves one more value on the stack than before:
/// all-ones where `left op right` holds, zero where it does not. No other
/// cell changes but the stack pointer and the cell above the result. The
/// comparison's two labels must lie at distinct addresses.
#[verifier::rlimit(30)]
pub proof fn law_compare_constants(op: ArithOp, a: u16, b: u16, n: u64, module: String, s: Cpu, sym: SymbolTable)
    requires
        is_comparison(op),
        a < 0x8000,
        b < 0x8000,
        stack_room(s, 2),
        sym(label_text(LabelName::True(n))) != sym(label_text(LabelName::Continue(n))),
    ensures
        ({
            let o = run(
                push_code(Segment::Constant, a, module) + push_code(Segment::Constant, b, module)
                    + arithmetic_code(op, n),
                s,
                sym,
            );
            &&& o.exit is None
            &&& sp(o.cpu) == sp(s) + 1
            &&& (o.cpu.ram)(sp(s)) == if compare_holds(op, a as int, b as int) { word_true() } else { 0 }
            &&& forall|x: u16| x != 0 && x != sp(s) && x != sp(s) + 1 ==> #[trigger] (o.cpu.ram)(x) == (s.ram)(x)
        }),
{
    let c12 = push_code(Segment::Constant, a, module) + push_code(Segment::Constant, b, module);
    let c3 = arithmetic_code(op, n);
    let p = sp(s);
    assert(jump_free(c12));
    lemma_run_concat(c12, c3, s, sym);
    lemma_push_two(a, b, module, s, sym);
    let s2 = exec(c12, s, sym);
    assert(((p + 2) - 2) as u16 == p);
    lemma_wrap_small(a - b);
    lemma_wrap_small(b - a);
    match op {
        ArithOp::Eq => lemma_compare_block(n, Comp::MMinusD, Cond::JEQ, s2, sym),
        ArithOp::Gt => lemma_compare_block(n, Comp::MMinusD, Cond::JGT, s2, sym),
        _ => lemma_compare_block(n, Comp::DMinusM, Cond::JGT, s2, sym),
    }
}

proof fn lemma_push_reg(r: Reg, s: Cpu, sym: SymbolTable)
    requires
        stack_room(s, 1),
    ensures
        ({
            let s1 = exec(push_reg(r), s, sym);
            &&& sp(s1) == sp(s) + 1
            &&& (s1.ram)(sp(s)) == (s.ram)(reg_address(r))
            &&& forall|x: u16| x != 0 && x != sp(s) ==> #[trigger] (s1.ram)(x) == (s.ram)(x)
        }),
{
    reveal_with_fuel(exec_from, 8);
}

proof fn lemma_push_return_address(f: String, n: u64, s: Cpu, sym: SymbolTable)
    requires
        stack_room(s, 1),
    ensures
        ({
            let s1 = exec(push_return_address(f, n), s, sym);
            &&& sp(s1) == sp(s) + 1
            &&& (s1.ram)(sp(s)) == sym(label_text(LabelName::Return(f, n)))
            &&& forall|x: u16| x != 0 && x != sp(s) ==> #[trigger] (s1.ram)(x) == (s.ram)(x)
        }),
{
    reveal_with_fuel(exec_from, 8);
}

/// The state a call leaves before it jumps: the return address and the
/// caller's LCL, ARG, THIS, THAT saved above the arguments, ARG at the
/// first argument and LCL at the new stack top.
#[verifier::rlimit(40)]
proof fn lemma_call_frame(f: String, n_args: u16, n: u64, s: Cpu, sym: SymbolTable)
    requires
        256 + n_args <= sp(s),
        sp(s) + 5 <= 2048,
    ensures
        ({
            let p = sp(s);
            let s5 = exec(call_frame_code(f, n_args, n), s, sym);
            &&& sp(s5) == p + 5
            &&& (s5.ram)(1) == p + 5
            &&& (s5.ram)(2) == p - n_args
            &&& (s5.ram)(3) == (s.ram)(3)
            &&& (s5.ram)(4) == (s.ram)(4)
            &&& (s5.ram)(p) == sym(label_text(LabelName::Return(f, n)))
            &&& (s5.ram)((p + 1) as u16) == (s.ram)(1)
            &&& (s5.ram)((p + 2) as u16) == (s.ram)(2)
            &&& (s5.ram)((p + 3) as u16) == (s.ram)(3)
            &&& (s5.ram)((p + 4) as u16) == (s.ram)(4)
            &&& forall|x: u16| x > 4 && !(p <= x < p + 5) ==> #[trigger] (s5.ram)(x) == (s.ram)(x)
        }),
{
    let p = sp(s);
    let c0 = push_return_address(f, n);
    let c1 = push_reg(Reg::LCL);
    let c2 = push_reg(Reg::ARG);
    let c3 = push_reg(Reg::THIS);
    let c4 = push_reg(Reg::THAT);
    let c5 = set_frame_code(n_args);
    lemma_exec_concat(c0 + c1 + c2 + c3 + c4, c5, s, sym);
    lemma_exec_concat(c0 + c1 + c2 + c3, c4, s, sym);
    lemma_exec_concat(c0 + c1 + c2, c3, s, sym);
    lemma_exec_concat(c0 + c1, c2, s, sym);
    lemma_exec_concat(c0, c1, s, sym);
    lemma_push_return_address(f, n, s, sym);
    let s0 = exec(c0, s, sym);
    lemma_push_reg(Reg::LCL, s0, sym);
    let s1 = exec(c1, s0, sym);
    lemma_push_reg(Reg::ARG, s1, sym);
    let s2 = exec(c2, s1, sym);
    lemma_push_reg(Reg::THIS, s2, sym);
    let s3 = exec(c3, s2, sym);
    lemma_push_reg(Reg::THAT, s3, sym);
    let s4 = exec(c4, s3, sym);
    assert(sp(s4) == p + 5);
    let s5 = exec(c5, s4, sym);
    assert(sp(s5) == p + 5 && (s5.ram)(1) == p + 5 && (s5.ram)(2) == p - n_args
        && forall|x: u16| x != 1 && x != 2 ==> #[trigger] (s5.ram)(x) == (s4.ram)(x)) by {
        reveal_with_fuel(exec_from, 13);
    }
    assert((s5.ram)(p) == sym(label_text(LabelName::Return(f, n))));
    assert((s5.ram)((p + 1) as u16) == (s.ram)(1));
    assert((s5.ram)((p + 2) as u16) == (s.ram)(2));
    assert((s5.ram)((p + 3) as u16) == (s.ram)(3));
    assert((s5.ram)((p + 4) as u16) == (s.ram)(4));
    assert forall|x: u16| x > 4 && !(p <= x < p + 5) implies #[trigger] (s5.ram)(x) == (s.ram)(x) by {
        assert((s5.ram)(x) == (s4.ram)(x));
        assert((s4.ram)(x) == (s3.ram)(x));
        assert((s3.ram)(x) == (s2.ram)(x));
        assert((s2.ram)(x) == (s1.ram)(x));
        assert((s1.ram)(x) == (s0.ram)(x));
    }
}

/// A return from a frame at `frame` (the callee's LCL) with the caller's
/// first argument slot at `arg` jumps to the saved return address, with
/// the caller's pointers restored and the callee's top value in the
/// argument slot.
#[verifier::rlimit(30)]
proof fn lemma_return(s: Cpu, sym: SymbolTable)
    requires
        ({
            let frame = (s.ram)(1);
            let arg = (s.ram)(2);
            &&& 256 <= arg
            &&& arg + 5 <= frame
            &&& frame <= sp(s) <= 2048
        }),
    ensures
        ({
            let frame = (s.ram)(1);
            let arg = (s.ram)(2);
            let o = run(return_code(), s, sym);
            &&& o.exit == Some((s.ram)((frame - 5) as u16))
            &&& sp(o.cpu) == arg + 1
            &&& (o.cpu.ram)(arg) == (s.ram)((sp(s) - 1) as u16)
            &&& (o.cpu.ram)(1) == (s.ram)((frame - 4) as u16)
            &&& (o.cpu.ram)(2) == (s.ram)((frame - 3) as u16)
            &&& (o.cpu.ram)(3) == (s.ram)((frame - 2) as u16)
            &&& (o.cpu.ram)(4) == (s.ram)((frame - 1) as u16)
        }),
{
    let frame = (s.ram)(1);
    let arg = (s.ram)(2);
    let top = sp(s);
    let c0 = save_frame_code();
    let c1 = move_result_code();
    let r1 = restore_code(Reg::THAT);
    let r2 = restore_code(Reg::THIS);
    let r3 = restore_code(Reg::ARG);
    let r4 = restore_code(Reg::LCL);
    let pre = c0 + c1 + r1 + r2 + r3 + r4;
    let jump = seq![Asm::At(Addr::Reg(Reg::R14)), Asm::Assign(Dest::A, Comp::M), Asm::Jump(Comp::Zero, Cond::JMP)];
    assert(return_code() == pre + jump);
    assert(jump_free(pre));
    lemma_run_concat(pre, jump, s, sym);
    lemma_exec_concat(c0 + c1 + r1 + r2 + r3, r4, s, sym);
    lemma_exec_concat(c0 + c1 + r1 + r2, r3, s, sym);
    lemma_exec_concat(c0 + c1 + r1, r2, s, sym);
    lemma_exec_concat(c0 + c1, r1, s, sym);
    lemma_exec_concat(c0, c1, s, sym);
    let s0 = exec(c0, s, sym);
    assert((s0.ram)(13) == frame && (s0.ram)(14) == (s.ram)((frame - 5) as u16)
        && forall|x: u16| x != 13 && x != 14 ==> #[trigger] (s0.ram)(x) == (s.ram)(x)) by {
        reveal_with_fuel(exec_from, 10);
    }
    let s1 = exec(c1, s0, sym);
    assert(sp(s1) == arg + 1 && (s1.ram)(arg) == (s.ram)((top - 1) as u16)
        && forall|x: u16| x != 0 && x != arg ==> #[trigger] (s1.ram)(x) == (s0.ram)(x)) by {
        reveal_with_fuel(exec_from, 11);
    }
    let s2 = exec(r1, s1, sym);
    assert((s2.ram)(13) == frame - 1 && (s2.ram)(4) == (s.ram)((frame - 1) as u16)
        && forall|x: u16| x != 13 && x != 4 ==> #[trigger] (s2.ram)(x) == (s1.ram)(x)) by {
        reveal_with_fuel(exec_from, 6);
    }
    let s3 = exec(r2, s2, sym);
    assert((s3.ram)(13) == frame - 2 && (s3.ram)(3) == (s.ram)((frame - 2) as u16)
        && forall|x: u16| x != 13 && x != 3 ==> #[trigger] (s3.ram)(x) == (s2.ram)(x)) by {
        reveal_with_fuel(exec_from, 6);
    }
    let s4 = exec(r3, s3, sym);
    assert((s4.ram)(13) == frame - 3 && (s4.ram)(2) == (s.ram)((frame - 3) as u16)
        && forall|x: u16| x != 13 && x != 2 ==> #[trigger] (s4.ram)(x) == (s3.ram)(x)) by {
        reveal_with_fuel(exec_from, 6);
    }
    let s5 = exec(r4, s4, sym);
    assert((s5.ram)(14) == (s.ram)((frame - 5) as u16) && (s5.ram)(1) == (s.ram)((frame - 4) as u16)
        && forall|x: u16| x != 13 && x != 1 ==> #[trigger] (s5.ram)(x) == (s4.ram)(x)) by {
        reveal_with_fuel(exec_from, 6);
    }
    let o = run(jump, s5, sym);
    assert(o.exit == Some((s5.ram)(14)) && o.cpu.ram == s5.ram) by {
        reveal_with_fuel(run_from, 4);
        reveal_with_fuel(find_label, 2);
    }
    assert(sp(o.cpu) == arg + 1);
    assert((o.cpu.ram)(arg) == (s.ram)((top - 1) as u16));
}

/// A call, then the callee's return. The call saves the caller's frame and
/// jumps to the function. Whatever the callee then does, so long as it
/// leaves LCL, ARG and the five saved cells as the call left them and its
/// stack top at or above LCL, its return jumps back to the label that ends
/// the call, with the caller's LCL, ARG, THIS and THAT restored and the
/// callee's top value in the slot of the caller's first argument, which is
/// the new stack top. A callee that returns at once is one such case. The
/// function and the return label must lie at distinct addresses.
#[verifier::rlimit(30)]
pub proof fn law_call_return(f: String, n_args: u16, n: u64, s: Cpu, callee: Cpu, sym: SymbolTable)
    requires
        256 + n_args <= sp(s),
        sp(s) + 5 <= 2048,
        sym(f@) != sym(label_text(LabelName::Return(f, n))),
        ({
            let c = run(call_code(f, n_args, n), s, sym).cpu;
            let p = sp(s);
            &&& (callee.ram)(1) == (c.ram)(1)
            &&& (callee.ram)(2) == (c.ram)(2)
            &&& (callee.ram)(p) == (c.ram)(p)
            &&& (callee.ram)((p + 1) as u16) == (c.ram)((p + 1) as u16)
            &&& (callee.ram)((p + 2) as u16) == (c.ram)((p + 2) as u16)
            &&& (callee.ram)((p + 3) as u16) == (c.ram)((p + 3) as u16)
            &&& (callee.ram)((p + 4) as u16) == (c.ram)((p + 4) as u16)
            &&& sp(c) <= sp(callee) <= 2048
        }),
    ensures
        run(call_code(f, n_args, n), s, sym).exit == Some(sym(f@)),
        call_code(f, n_args, n).last() == Asm::Label(LabelName::Return(f, n)),
        ({
            let o = run(return_code(), callee, sym);
            &&& o.exit == Some(sym(label_text(LabelName::Return(f, n))))
            &&& sp(o.cpu) == sp(s) - n_args + 1
            &&& (o.cpu.ram)((sp(s) - n_args) as u16) == (callee.ram)((sp(callee) - 1) as u16)
            &&& (o.cpu.ram)(1) == (s.ram)(1)
            &&& (o.cpu.ram)(2) == (s.ram)(2)
            &&& (o.cpu.ram)(3) == (s.ram)(3)
            &&& (o.cpu.ram)(4) == (s.ram)(4)
        }),
{
    let frame = call_frame_code(f, n_args, n);
    let rest = goto_code(f) + seq![Asm::Label(LabelName::Return(f, n))];
    assert(call_code(f, n_args, n) =~= frame + rest);
    assert(jump_free(frame));
    lemma_run_concat(frame, rest, s, sym);
    lemma_call_frame(f, n_args, n, s, sym);
    let s5 = exec(frame, s, sym);
    let o1 = run(rest, s5, sym);
    assert(o1.exit == Some(sym(f@)) && o1.cpu.ram == s5.ram) by {
        reveal_with_fuel(run_from, 3);
        reveal_with_fuel(find_label, 2);
    }
    lemma_return(callee, sym);
}

proof fn lemma_decimal_len(n: nat)
    ensures
        decimal(n).len() >= 1,
        n >= 10 ==> decimal(n).len() >= 2,
    decreases n,
{
    if n >= 10 {
        lemma_decimal_len(n / 10);
    }
}

proof fn lemma_decimal_injective(a: nat, b: nat)
    requires
        decimal(a) == decimal(b),
    ensures
        a == b,
    decreases a,
{
    lemma_decimal_len(a);
    lemma_decimal_len(b);
    if a >= 10 && b >= 10 {
        let da = decimal(a);
        assert(da.drop_last() =~= decimal(a / 10));
        assert(decimal(b).drop_last() =~= decimal(b / 10));
        assert(da.last() == digit_char(a % 10));
        assert(decimal(b).last() == digit_char(b % 10));
        lemma_decimal_injective(a / 10, b / 10);
    } else if a < 10 && b < 10 {
        assert(decimal(a)[0] == digit_char(a));
        assert(decimal(b)[0] == digit_char(b));
    }
}

/// Comparison labels never collide: `TRUE_n` and `CONTINUE_n` of two
/// different numbers differ, and no `TRUE_` label is a `CONTINUE_` label.
pub proof fn law_compare_labels_distinct(n1: u64, n2: u64)
    ensures
        n1 != n2 ==> label_text(LabelName::True(n1)) != label_text(LabelName::True(n2)),
        n1 != n2 ==> label_text(LabelName::Continue(n1)) != label_text(LabelName::Continue(n2)),
        label_text(LabelName::True(n1)) != label_text(LabelName::Continue(n2)),
{
    let t = seq!['T', 'R', 'U', 'E', '_'];
    let c = seq!['C', 'O', 'N', 'T', 'I', 'N', 'U', 'E', '_'];
    if n1 != n2 && label_text(LabelName::True(n1)) == label_text(LabelName::True(n2)) {
        assert((t + decimal(n1 as nat)).skip(5) =~= decimal(n1 as nat));
        assert((t + decimal(n2 as nat)).skip(5) =~= decimal(n2 as nat));
        lemma_decimal_injective(n1 as nat, n2 as nat);
    }
    if n1 != n2 && label_text(LabelName::Continue(n1)) == label_text(LabelName::Continue(n2)) {
        assert((c + decimal(n1 as nat)).skip(9) =~= decimal(n1 as nat));
        assert((c + decimal(n2 as nat)).skip(9) =~= decimal(n2 as nat));
        lemma_decimal_injective(n1 as nat, n2 as nat);
    }
    assert(label_text(LabelName::True(n1))[0] == 'T');
    assert(label_text(LabelName::Continue(n2))[0] == 'C');
}

/// The comparison counter only grows: every instruction leaves it as it
/// was or larger, and each comparison takes the current number for its
/// labels and then increments it. So two comparisons of one program never
/// share a number, and by `law_compare_labels_distinct` never a label.
pub proof fn law_compare_counter(w: WriterView, i: Instruction, op: ArithOp)
    ensures
        step_spec(w, i) matches Ok(w1) ==> w1.compares >= w.compares,
        is_comparison(op) && w.compares < u64::MAX ==> (step_spec(w, Instruction::Arithmetic(op)) matches Ok(w1)
            && w1.compares == w.compares + 1 && w1.code == w.code + arithmetic_code(op, w.compares)),
{
}

/// Static variables are kept per module: the same index in two modules of
/// different names is two symbols. A push of `static i` reads, and a pop
/// writes, the cell of the symbol of its own module and index, so pushes
/// and pops of one module and index share one cell. (The symbol's cell is
/// not the stack pointer's.)
#[verifier::rlimit(30)]
pub proof fn law_statics_per_module(m1: String, m2: String, i: u16, s: Cpu, sym: SymbolTable)
    requires
        stack_room(s, 1),
        sym(static_text(m1@, i)) != 0,
    ensures
        m1@ != m2@ ==> static_text(m1@, i) != static_text(m2@, i),
        ({
            let cell = sym(static_text(m1@, i));
            let s1 = exec(push_code(Segment::Static, i, m1), s, sym);
            &&& sp(s1) == sp(s) + 1
            &&& (s1.ram)(sp(s)) == (s.ram)(cell)
        }),
        ({
            let cell = sym(static_text(m1@, i));
            let s1 = exec(pop_code(Segment::Static, i, m1), s, sym);
            &&& sp(s1) == sp(s) - 1
            &&& (s1.ram)(cell) == (s.ram)((sp(s) - 1) as u16)
        }),
{
    if m1@ != m2@ && static_text(m1@, i) == static_text(m2@, i) {
        let a = static_text(m1@, i);
        assert(a.len() == m1@.len() + 1 + decimal(i as nat).len());
        assert(m1@ =~= a.take(m1@.len() as int));
        assert(m2@ =~= a.take(m2@.len() as int));
    }
    reveal_with_fuel(exec_from, 8);
}

/// The writer after the first `k` instructions of `prog`, if none of them
/// fails.
pub open spec fn state_after(w: WriterView, prog: Seq<Instruction>, k: nat) -> Option<WriterView>
    decreases k,
{
    if k == 0 {
        Some(w)
    } else {
        match state_after(w, prog, (k - 1) as nat) {
            Some(v) => if k - 1 < prog.len() {
                match step_spec(v, prog[k - 1]) {
                    Ok(v1) => Some(v1),
                    Err(_) => None,
                }
            } else {
                None
            },
            None => None,
        }
    }
}

proof fn lemma_state_after_monotone(w: WriterView, prog: Seq<Instruction>, k1: nat, k2: nat)
    requires
        k1 <= k2,
        state_after(w, prog, k2) is Some,
    ensures
        state_after(w, prog, k1) is Some,
        state_after(w, prog, k1)->0.compares <= state_after(w, prog, k2)->0.compares,
    decreases k2,
{
    if k1 < k2 {
        let v = state_after(w, prog, (k2 - 1) as nat)->0;
        law_compare_counter(v, prog[k2 - 1], ArithOp::Eq);
        lemma_state_after_monotone(w, prog, k1, (k2 - 1) as nat);
    }
}

/// Two comparisons anywhere in one program that translates without error
/// get different numbers, so their `TRUE_n` and `CONTINUE_n` labels never
/// collide: the number of a comparison is the counter before it.
pub proof fn law_program_compare_labels(w: WriterView, prog: Seq<Instruction>, j1: nat, j2: nat, op1: ArithOp, op2: ArithOp)
    requires
        j1 < j2 < prog.len(),
        prog[j1 as int] == Instruction::Arithmetic(op1),
        prog[j2 as int] == Instruction::Arithmetic(op2),
        is_comparison(op1),
        is_comparison(op2),
        state_after(w, prog, prog.len()) is Some,
    ensures
        ({
            let n1 = state_after(w, prog, j1)->0.compares;
            let n2 = state_after(w, prog, j2)->0.compares;
            &&& n1 < n2
            &&& label_text(LabelName::True(n1)) != label_text(LabelName::True(n2))
            &&& label_text(LabelName::Continue(n1)) != label_text(LabelName::Continue(n2))
            &&& label_text(LabelName::True(n1)) != label_text(LabelName::Continue(n2))
            &&& label_text(LabelName::Continue(n1)) != label_text(LabelName::True(n2))
        }),
{
    lemma_state_after_monotone(w, prog, j2, prog.len());
    lemma_state_after_monotone(w, prog, j1 + 1, j2);
    lemma_state_after_monotone(w, prog, j1, j1 + 1);
    let n1 = state_after(w, prog, j1)->0.compares;
    let n2 = state_after(w, prog, j2)->0.compares;
    let v = state_after(w, prog, j1)->0;
    assert(state_after(w, prog, j1 + 1) == step_spec(v, prog[j1 as int]).ok());
    law_compare_labels_distinct(n1, n2);
    law_compare_labels_distinct(n2, n1);
}

/// The cell that `seg index` names in state `s`, for a segment that is
/// storage.
pub open spec fn segment_cell(seg: Segment, index: u16, module: String, s: Cpu, sym: SymbolTable) -> u16 {
    match seg {
        Segment::Static => addr_value(Addr::Static(module, index), sym),
        Segment::Temp => wrap(TEMP_BASE + index),
        Segment::Pointer => reg_address(pointer_reg(index)),
        _ => wrap((s.ram)(reg_address(base_reg(seg))) + index),
    }
}

/// The value that `push seg index` pushes in state `s`.
pub open spec fn pushed_value(seg: Segment, index: u16, module: String, s: Cpu, sym: SymbolTable) -> u16 {
    if seg == Segment::Constant {
        index
    } else {
        (s.ram)(segment_cell(seg, index, module, s, sym))
    }
}

/// A push writes the segment's value to the cell SP points at and moves
/// SP up by one; no other cell changes.
#[verifier::rlimit(30)]
pub proof fn law_push(seg: Segment, index: u16, module: String, s: Cpu, sym: SymbolTable)
    requires
        push_error(seg, index, Some(module)) is None,
        stack_room(s, 1),
    ensures
        ({
            let o = run(push_code(seg, index, module), s, sym);
            &&& o.exit is None
            &&& sp(o.cpu) == sp(s) + 1
            &&& (o.cpu.ram)(sp(s)) == pushed_value(seg, index, module, s, sym)
            &&& forall|x: u16| x != 0 && x != sp(s) ==> #[trigger] (o.cpu.ram)(x) == (s.ram)(x)
        }),
{
    let c = push_code(seg, index, module);
    assert(jump_free(c));
    lemma_run_straight(c, s, sym);
    reveal_with_fuel(exec_from, 11);
}

/// A pop moves SP down by one and writes the value it then points at to
/// the segment's cell; no other cell changes but the scratch register R13.
/// The segment's cell must not be SP itself.
#[verifier::rlimit(30)]
pub proof fn law_pop(seg: Segment, index: u16, module: String, s: Cpu, sym: SymbolTable)
    requires
        pop_error(seg, index, Some(module)) is None,
        257 <= sp(s) <= 2048,
        segment_cell(seg, index, module, s, sym) != 0,
    ensures
        ({
            let cell = segment_cell(seg, index, module, s, sym);
            let o = run(pop_code(seg, index, module), s, sym);
            &&& o.exit is None
            &&& sp(o.cpu) == sp(s) - 1
            &&& (o.cpu.ram)(cell) == (s.ram)((sp(s) - 1) as u16)
            &&& forall|x: u16| x != 0 && x != cell && x != 13 ==> #[trigger] (o.cpu.ram)(x) == (s.ram)(x)
        }),
{
    let c = pop_code(seg, index, module);
    assert(jump_free(c));
    lemma_run_straight(c, s, sym);
    reveal_with_fuel(exec_from, 17);
}

} // verus!
