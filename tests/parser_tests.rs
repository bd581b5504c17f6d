use hack_vm::instruction::{ArithOp, Instruction, ParseError, Segment, SegmentError, TranslateError};
use hack_vm::parser::Parser;

fn lines(v: &[&str]) -> Vec<String> {
    v.iter().map(|s| s.to_string()).collect()
}

#[test]
fn test_parser() {
    let test_data = vec![
        "// comment".to_string(),
        "push constant 7".to_string(),
        "// comment 2".to_string(),
        "pop temp 8".to_string(),
        "add".to_string(),
    ];
    let mut parser = Parser::new(test_data);
    assert!(parser.currentInstruction == "push constant 7");
    assert!(parser.commandType().unwrap() == "C_PUSH");
    assert!(parser.arg1().unwrap() == "constant");
    assert!(parser.arg2().unwrap() == "7");

    parser.advance();
    assert!(parser.currentInstruction == "pop temp 8");
    assert!(parser.commandType().unwrap() == "C_POP");
    assert!(parser.arg1().unwrap() == "temp");
    assert!(parser.arg2().unwrap() == "8");

    parser.advance();
    assert!(parser.currentInstruction == "add");
    assert!(parser.commandType().unwrap() == "C_ARITHMETIC");
    assert!(parser.arg1().unwrap() == "add");
    assert!(parser.arg2() == None);
}

#[test]
fn skips_blank_and_comment_lines() {
    let mut p = Parser::new(lines(&["", "// a", "", "neg", "// b", ""]));
    assert_eq!(p.current_instruction(), "neg");
    assert!(!p.hasMoreLines());
    p.advance();
    assert_eq!(p.current_instruction(), "neg");
    assert_eq!(p.currentLine, 6);
}

#[test]
fn many_comment_lines_do_not_overflow() {
    let mut v: Vec<String> = (0..200_000).map(|_| "// c".to_string()).collect();
    v.push("return".to_string());
    let p = Parser::new(v);
    assert_eq!(p.current_instruction(), "return");
    assert_eq!(p.commandType().unwrap(), "C_RETURN");
}

#[test]
fn empty_input_has_no_instruction() {
    let p = Parser::new(Vec::new());
    assert!(!p.hasMoreLines());
    assert_eq!(p.current_instruction(), "");
}

#[test]
fn classifies_every_command() {
    let cases = [
        ("label LOOP", "C_LABEL"),
        ("goto LOOP", "C_GOTO"),
        ("if-goto LOOP", "C_IFGOTO"),
        ("function Main.f 2", "C_FUNCTION"),
        ("call Main.f 1", "C_CALL"),
        ("return", "C_RETURN"),
        ("lt", "C_ARITHMETIC"),
    ];
    for (line, kind) in cases {
        let p = Parser::new(lines(&[line]));
        assert_eq!(p.commandType().unwrap(), kind);
    }
}

#[test]
fn decodes_instructions() {
    let p = Parser::new(lines(&["push  local\t3"]));
    assert_eq!(p.instruction(), Ok(Instruction::Push(Segment::Local, 3)));
    let p = Parser::new(lines(&["pop pointer 1"]));
    assert_eq!(p.instruction(), Ok(Instruction::Pop(Segment::Pointer, 1)));
    let p = Parser::new(lines(&["eq"]));
    assert_eq!(p.instruction(), Ok(Instruction::Arithmetic(ArithOp::Eq)));
    let p = Parser::new(lines(&["function Main.fib 0"]));
    assert_eq!(p.instruction(), Ok(Instruction::Function("Main.fib".to_string(), 0)));
    let p = Parser::new(lines(&["call Main.fib 1"]));
    assert_eq!(p.instruction(), Ok(Instruction::Call("Main.fib".to_string(), 1)));
    let p = Parser::new(lines(&["if-goto END"]));
    assert_eq!(p.instruction(), Ok(Instruction::IfGoto("END".to_string())));
    let p = Parser::new(lines(&["push constant 65535"]));
    assert_eq!(p.instruction(), Ok(Instruction::Push(Segment::Constant, 65535)));
}

#[test]
fn unrecognized_command_is_reported() {
    let p = Parser::new(lines(&["jump somewhere"]));
    assert_eq!(
        p.commandType(),
        Err(ParseError::UnrecognizedCommand("jump somewhere".to_string()))
    );
    assert_eq!(
        p.instruction(),
        Err(TranslateError::Parse(ParseError::UnrecognizedCommand("jump somewhere".to_string())))
    );
    assert_eq!(p.arg1(), None);
    let p = Parser::new(lines(&["add 1"]));
    assert!(p.commandType().is_err());
}

#[test]
fn malformed_operands_are_reported() {
    for line in ["push constant", "push constant 1 2", "call f", "pop local x", "push constant 65536", "return 1", "label"] {
        let p = Parser::new(lines(&[line]));
        assert_eq!(
            p.instruction(),
            Err(TranslateError::Parse(ParseError::MalformedOperands(line.to_string()))),
            "{}",
            line
        );
    }
}

#[test]
fn unknown_segment_is_reported() {
    let p = Parser::new(lines(&["push heap 1"]));
    assert_eq!(p.instruction(), Err(TranslateError::Segment(SegmentError::UnknownSegment)));
}

#[test]
fn segment_and_mnemonic_names() {
    assert_eq!(Segment::from_name("that"), Some(Segment::That));
    assert_eq!(Segment::from_name("This"), None);
    assert_eq!(ArithOp::from_name("not"), Some(ArithOp::Not));
    assert_eq!(ArithOp::from_name("nott"), None);
}
