use std::collections::HashMap;

use hack_vm::assembly::{decimal_string, Addr, Asm, Comp, Cond, Dest, LabelName, Reg};
use hack_vm::code_writer::{CodeWriter, MemoryLocation};
use hack_vm::compiler::{compile_vm_code, parse_filename};
use hack_vm::instruction::{
    ArithOp, GenerationError, Instruction, LineError, ParseError, Segment, SegmentError, StackCommand,
    TranslateError,
};
use hack_vm::parser::Parser;

/// Runs assembly text on a 16-bit machine until control leaves the program
/// or `limit` instructions have run.
struct Machine {
    a: u16,
    d: u16,
    ram: Vec<u16>,
}

fn comp(m: &Machine, c: &str) -> u16 {
    let mv = m.ram[m.a as usize];
    match c {
        "0" => 0,
        "-1" => 0xffff,
        "D" => m.d,
        "A" => m.a,
        "M" => mv,
        "M+1" => mv.wrapping_add(1),
        "M-1" => mv.wrapping_sub(1),
        "D+A" => m.d.wrapping_add(m.a),
        "D-A" => m.d.wrapping_sub(m.a),
        "D+M" => m.d.wrapping_add(mv),
        "M-D" => mv.wrapping_sub(m.d),
        "D-M" => m.d.wrapping_sub(mv),
        "D&M" => m.d & mv,
        "D|M" => m.d | mv,
        "!M" => !mv,
        "-M" => 0u16.wrapping_sub(mv),
        other => panic!("unknown computation {}", other),
    }
}

fn run(lines: &[String], m: &mut Machine, limit: usize) {
    let mut rom: Vec<&str> = Vec::new();
    let mut labels: HashMap<String, u16> = HashMap::new();
    for l in lines {
        if l.starts_with('(') {
            labels.insert(l[1..l.len() - 1].to_string(), rom.len() as u16);
        } else {
            rom.push(l);
        }
    }
    let fixed: HashMap<&str, u16> =
        [("SP", 0), ("LCL", 1), ("ARG", 2), ("THIS", 3), ("THAT", 4), ("R13", 13), ("R14", 14)].into();
    let mut vars: HashMap<String, u16> = HashMap::new();
    let mut pc: usize = 0;
    let mut steps = 0;
    while pc < rom.len() && steps < limit {
        steps += 1;
        let ins = rom[pc];
        pc += 1;
        if let Some(sym) = ins.strip_prefix('@') {
            m.a = if let Ok(n) = sym.parse::<u32>() {
                n as u16
            } else if let Some(v) = fixed.get(sym) {
                *v
            } else if let Some(v) = labels.get(sym) {
                *v
            } else {
                let next = 16 + vars.len() as u16;
                *vars.entry(sym.to_string()).or_insert(next)
            };
        } else if let Some((c, j)) = ins.split_once(';') {
            let v = comp(m, c) as i16;
            let jump = match j {
                "JMP" => true,
                "JEQ" => v == 0,
                "JGT" => v > 0,
                "JNE" => v != 0,
                other => panic!("unknown jump {}", other),
            };
            if jump {
                pc = m.a as usize;
            }
        } else {
            let (dest, c) = ins.split_once('=').unwrap();
            let v = comp(m, c);
            let at = m.a as usize;
            if dest.contains('M') {
                m.ram[at] = v;
            }
            if dest.contains('D') {
                m.d = v;
            }
            if dest.contains('A') {
                m.a = v;
            }
        }
    }
}

fn machine() -> Machine {
    Machine { a: 0, d: 0, ram: vec![0; 65536] }
}

/// A writer in test mode with the pointers set up.
fn harness() -> CodeWriter {
    let mut w = CodeWriter::new(true);
    w.init_stack();
    w
}

fn push(w: &mut CodeWriter, seg: Segment, i: u16) {
    w.write_push_pop(StackCommand::Push, seg, i).unwrap();
}

fn pop(w: &mut CodeWriter, seg: Segment, i: u16) {
    w.write_push_pop(StackCommand::Pop, seg, i).unwrap();
}

fn execute(w: &CodeWriter) -> Machine {
    let mut m = machine();
    run(&w.lines(), &mut m, 100_000);
    m
}

#[test]
fn test_code_writer() {
    let w = CodeWriter::new(true);
    assert!(w.lines().is_empty());
}

#[test]
fn push_constant_then_pop_temp_stores_the_constant() {
    for n in [0u16, 1, 7, 255, 32767] {
        let mut w = harness();
        push(&mut w, Segment::Constant, n);
        pop(&mut w, Segment::Temp, 0);
        let m = execute(&w);
        assert_eq!(m.ram[5], n);
        assert_eq!(m.ram[0], 256);
    }
}

#[test]
fn add_leaves_the_wrapped_sum() {
    for (a, b) in [(7u16, 8u16), (0, 0), (30000, 30000), (32767, 32767)] {
        let mut w = harness();
        push(&mut w, Segment::Constant, a);
        push(&mut w, Segment::Constant, b);
        w.write_arithmetic(ArithOp::Add).unwrap();
        let m = execute(&w);
        assert_eq!(m.ram[0], 257);
        assert_eq!(m.ram[256], a.wrapping_add(b));
    }
}

fn binary(a: u16, b: u16, op: ArithOp) -> (u16, u16) {
    let mut w = harness();
    push(&mut w, Segment::Constant, a);
    push(&mut w, Segment::Constant, b);
    w.write_arithmetic(op).unwrap();
    let m = execute(&w);
    (m.ram[256], m.ram[0])
}

#[test]
fn comparisons_yield_all_ones_or_zero() {
    assert_eq!(binary(5, 5, ArithOp::Eq), (0xffff, 257));
    assert_eq!(binary(5, 6, ArithOp::Eq), (0, 257));
    assert_eq!(binary(9, 3, ArithOp::Gt), (0xffff, 257));
    assert_eq!(binary(3, 9, ArithOp::Gt), (0, 257));
    assert_eq!(binary(4, 4, ArithOp::Gt), (0, 257));
    assert_eq!(binary(3, 9, ArithOp::Lt), (0xffff, 257));
    assert_eq!(binary(9, 3, ArithOp::Lt), (0, 257));
    assert_eq!(binary(4, 4, ArithOp::Lt), (0, 257));
}

#[test]
fn other_operations() {
    assert_eq!(binary(9, 3, ArithOp::Sub), (6, 257));
    assert_eq!(binary(3, 9, ArithOp::Sub), (3u16.wrapping_sub(9), 257));
    assert_eq!(binary(0b1100, 0b1010, ArithOp::And), (0b1000, 257));
    assert_eq!(binary(0b1100, 0b1010, ArithOp::Or), (0b1110, 257));
    let mut w = harness();
    push(&mut w, Segment::Constant, 5);
    w.write_arithmetic(ArithOp::Neg).unwrap();
    let m = execute(&w);
    assert_eq!((m.ram[256], m.ram[0]), (0u16.wrapping_sub(5), 257));
    let mut w = harness();
    push(&mut w, Segment::Constant, 0);
    w.write_arithmetic(ArithOp::Not).unwrap();
    let m = execute(&w);
    assert_eq!((m.ram[256], m.ram[0]), (0xffff, 257));
}

#[test]
fn comparison_labels_never_repeat() {
    let mut w = CodeWriter::new(true);
    w.write_arithmetic(ArithOp::Eq).unwrap();
    w.write_arithmetic(ArithOp::Add).unwrap();
    w.write_arithmetic(ArithOp::Eq).unwrap();
    w.write_arithmetic(ArithOp::Lt).unwrap();
    assert_eq!(w.state(), 3);
    let lines = w.lines();
    let labels: Vec<&String> = lines.iter().filter(|l| l.starts_with('(')).collect();
    assert_eq!(labels, ["(TRUE_0)", "(CONTINUE_0)", "(TRUE_1)", "(CONTINUE_1)", "(TRUE_2)", "(CONTINUE_2)"]);
}

#[test]
fn call_then_return_restores_the_caller() {
    let mut w = harness();
    push(&mut w, Segment::Constant, 11);
    push(&mut w, Segment::Constant, 22);
    w.write_call(&"F".to_string(), 2).unwrap();
    w.write_goto(&"HALT".to_string());
    w.write_function(&"F".to_string(), 1);
    push(&mut w, Segment::Argument, 1);
    push(&mut w, Segment::Constant, 99);
    w.write_arithmetic(ArithOp::Add).unwrap();
    w.write_return();
    w.write_label(&"HALT".to_string());
    let m = execute(&w);
    assert_eq!(m.ram[0], 257);
    assert_eq!(m.ram[256], 121);
    assert_eq!(m.ram[1], 456);
    assert_eq!(m.ram[2], 756);
    assert_eq!(m.ram[3], 1056);
    assert_eq!(m.ram[4], 1356);
}

#[test]
fn immediate_return_without_arguments() {
    let mut w = harness();
    w.write_call(&"G".to_string(), 0).unwrap();
    w.write_goto(&"HALT".to_string());
    w.write_function(&"G".to_string(), 0);
    push(&mut w, Segment::Constant, 5);
    w.write_return();
    w.write_label(&"HALT".to_string());
    let m = execute(&w);
    assert_eq!(m.ram[0], 257);
    assert_eq!(m.ram[256], 5);
    assert_eq!((m.ram[1], m.ram[2], m.ram[3], m.ram[4]), (456, 756, 1056, 1356));
}

#[test]
fn repeated_calls_get_distinct_return_labels() {
    let mut w = CodeWriter::new(true);
    w.write_call(&"F".to_string(), 0).unwrap();
    w.write_call(&"F".to_string(), 0).unwrap();
    let lines = w.lines();
    assert!(lines.contains(&"(F$ret.0)".to_string()));
    assert!(lines.contains(&"(F$ret.1)".to_string()));
    assert!(lines.contains(&"@F$ret.1".to_string()));
}

#[test]
fn statics_are_per_module() {
    let mut w = harness();
    w.set_file_name("Foo");
    push(&mut w, Segment::Constant, 5);
    pop(&mut w, Segment::Static, 3);
    w.set_file_name("Bar");
    push(&mut w, Segment::Constant, 7);
    pop(&mut w, Segment::Static, 3);
    w.set_file_name("Foo");
    push(&mut w, Segment::Static, 3);
    w.set_file_name("Bar");
    push(&mut w, Segment::Static, 3);
    let lines = w.lines();
    assert!(lines.contains(&"@Foo.3".to_string()));
    assert!(lines.contains(&"@Bar.3".to_string()));
    let m = execute(&w);
    assert_eq!(m.ram[0], 258);
    assert_eq!(m.ram[256], 5);
    assert_eq!(m.ram[257], 7);
}

#[test]
fn static_without_module_fails() {
    let mut w = CodeWriter::new(true);
    assert_eq!(
        w.write_push_pop(StackCommand::Push, Segment::Static, 0),
        Err(TranslateError::Generation(GenerationError::NoModule))
    );
    assert!(w.lines().is_empty());
}

#[test]
fn bad_segment_indexes_fail() {
    let mut w = CodeWriter::new(true);
    assert_eq!(
        w.write_push_pop(StackCommand::Push, Segment::Pointer, 2),
        Err(TranslateError::Segment(SegmentError::InvalidPointerIndex))
    );
    assert_eq!(
        w.write_push_pop(StackCommand::Push, Segment::Temp, 9),
        Err(TranslateError::Segment(SegmentError::IndexOutOfRange))
    );
    assert_eq!(
        w.write_push_pop(StackCommand::Pop, Segment::Temp, 8),
        Err(TranslateError::Segment(SegmentError::IndexOutOfRange))
    );
    assert_eq!(
        w.write_push_pop(StackCommand::Pop, Segment::Constant, 0),
        Err(TranslateError::Segment(SegmentError::NotWritable))
    );
    assert!(w.lines().is_empty());
    assert!(w.write_push_pop(StackCommand::Push, Segment::Temp, 7).is_ok());
    assert!(w.write_push_pop(StackCommand::Pop, Segment::Pointer, 1).is_ok());
}

#[test]
fn push_pop_local_round_trip() {
    for i in [0u16, 3] {
        let mut w = harness();
        push(&mut w, Segment::Constant, 42);
        pop(&mut w, Segment::Local, i);
        push(&mut w, Segment::Local, i);
        pop(&mut w, Segment::Local, i);
        let m = execute(&w);
        assert_eq!(m.ram[0], 256);
        assert_eq!(m.ram[456 + i as usize], 42);
    }
}

#[test]
fn segments_address_through_their_pointers() {
    let mut w = harness();
    push(&mut w, Segment::Constant, 10);
    pop(&mut w, Segment::Argument, 2);
    push(&mut w, Segment::Constant, 20);
    pop(&mut w, Segment::This, 1);
    push(&mut w, Segment::Constant, 30);
    pop(&mut w, Segment::That, 4);
    push(&mut w, Segment::Constant, 3000);
    pop(&mut w, Segment::Pointer, 1);
    push(&mut w, Segment::Constant, 40);
    pop(&mut w, Segment::That, 0);
    push(&mut w, Segment::Constant, 50);
    pop(&mut w, Segment::Temp, 7);
    push(&mut w, Segment::Pointer, 1);
    push(&mut w, Segment::Temp, 7);
    let m = execute(&w);
    assert_eq!(m.ram[758], 10);
    assert_eq!(m.ram[1057], 20);
    assert_eq!(m.ram[1360], 30);
    assert_eq!(m.ram[4], 3000);
    assert_eq!(m.ram[3000], 40);
    assert_eq!(m.ram[12], 50);
    assert_eq!((m.ram[256], m.ram[257], m.ram[0]), (3000, 50, 258));
}

#[test]
fn if_goto_jumps_on_non_zero() {
    for (cond, expect) in [(0u16, 1u16), (1, 2), (0xffff, 2)] {
        let mut w = harness();
        push(&mut w, Segment::Constant, cond);
        w.write_ifgoto(&"YES".to_string());
        push(&mut w, Segment::Constant, 1);
        w.write_goto(&"END".to_string());
        w.write_label(&"YES".to_string());
        push(&mut w, Segment::Constant, 2);
        w.write_label(&"END".to_string());
        let m = execute(&w);
        assert_eq!(m.ram[256], expect);
        assert_eq!(m.ram[0], 257);
    }
}

#[test]
fn function_zeroes_its_locals() {
    let mut w = CodeWriter::new(true);
    w.write_function(&"Main.f".to_string(), 2);
    let lines = w.lines();
    assert_eq!(lines[0], "(Main.f)");
    assert_eq!(lines.len(), 1 + 2 * 7);
    assert_eq!(lines[1], "@0");
    let mut w = CodeWriter::new(true);
    w.write_function(&"Main.g".to_string(), 0);
    assert_eq!(w.lines(), vec!["(Main.g)".to_string()]);
}

#[test]
fn bootstrap_sets_sp_and_calls_sys_init() {
    let mut w = CodeWriter::new(false);
    let lines = w.lines();
    assert_eq!(&lines[..5], ["@256", "D=A", "@SP", "M=D", "@Sys.init$ret.0"]);
    assert!(lines.contains(&"@Sys.init".to_string()));
    assert_eq!(
        w.write_bootstrap(),
        Err(TranslateError::Generation(GenerationError::BootstrapOutOfOrder))
    );
    let mut t = CodeWriter::new(true);
    assert!(t.write_bootstrap().is_ok());
    assert_eq!(t.lines(), lines);
}

#[test]
fn init_stack_uses_the_test_addresses() {
    let w = harness();
    let m = execute(&w);
    assert_eq!((m.ram[0], m.ram[1], m.ram[2], m.ram[3], m.ram[4]), (256, 456, 756, 1056, 1356));
    assert_eq!(MemoryLocation::Stack.base_address(), 256);
    assert_eq!(MemoryLocation::Index.base_address(), 6);
}

#[test]
fn instruction_text() {
    assert_eq!(Asm::At(Addr::Num(17)).text(), "@17");
    assert_eq!(Asm::At(Addr::Reg(Reg::THAT)).text(), "@THAT");
    assert_eq!(Asm::At(Addr::Static("Main".to_string(), 12)).text(), "@Main.12");
    assert_eq!(Asm::Assign(Dest::AM, Comp::MMinusOne).text(), "AM=M-1");
    assert_eq!(Asm::Jump(Comp::D, Cond::JGT).text(), "D;JGT");
    assert_eq!(Asm::Label(LabelName::Continue(40)).text(), "(CONTINUE_40)");
    assert_eq!(Asm::Label(LabelName::Return("f".to_string(), 3)).text(), "(f$ret.3)");
    assert_eq!(decimal_string(0), "0");
    assert_eq!(decimal_string(10), "10");
    assert_eq!(decimal_string(18446744073709551615), "18446744073709551615");
}

#[test]
fn write_instruction_dispatches() {
    let mut w = CodeWriter::new(true);
    w.write_instruction(&Instruction::Push(Segment::Constant, 3)).unwrap();
    w.write_instruction(&Instruction::Return).unwrap();
    let mut v = CodeWriter::new(true);
    push(&mut v, Segment::Constant, 3);
    v.write_return();
    assert_eq!(w.lines(), v.lines());
}

fn text(v: &[&str]) -> Vec<String> {
    v.iter().map(|s| s.to_string()).collect()
}

#[test]
fn compile_translates_a_module() {
    let p = Parser::new(text(&["// sum", "push constant 2", "", "push constant 3", "add", "pop temp 1"]));
    let w = compile_vm_code(p, CodeWriter::new(true), true).unwrap();
    let m = execute(&w);
    assert_eq!(m.ram[6], 5);
    assert_eq!(m.ram[0], 256);
}

#[test]
fn compile_reports_the_line_of_an_error() {
    let p = Parser::new(text(&["push constant 2", "// x", "push temp 9"]));
    let r = compile_vm_code(p, CodeWriter::new(true), false);
    assert_eq!(
        r.err(),
        Some(LineError {
            line: 3,
            text: "push temp 9".to_string(),
            error: TranslateError::Segment(SegmentError::IndexOutOfRange)
        })
    );
    let p = Parser::new(text(&["push constant 2", "frobnicate"]));
    let r = compile_vm_code(p, CodeWriter::new(true), false);
    assert_eq!(
        r.err(),
        Some(LineError {
            line: 2,
            text: "frobnicate".to_string(),
            error: TranslateError::Parse(ParseError::UnrecognizedCommand("frobnicate".to_string()))
        })
    );
}

#[test]
fn filename_argument() {
    let args = text(&["prog", "dir/Main.vm"]);
    assert_eq!(parse_filename(&args), Ok(&"dir/Main.vm".to_string()));
    assert!(parse_filename(&text(&["prog"])).is_err());
    assert!(parse_filename(&[]).is_err());
}
