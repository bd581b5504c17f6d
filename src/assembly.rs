//! Structured Hack assembly: the instructions the code generator emits.
use vstd::prelude::*;

verus! {

/// The predefined register symbols of the target machine.
#[derive(Clone, Copy, Debug, PartialEq, Eq, Structural)]
pub enum Reg {
    SP,
    LCL,
    ARG,
    THIS,
    THAT,
    R13,
    R14,
}

/// A label name as it appears in `(NAME)`, `@NAME`.
#[derive(Clone, Debug)]
pub enum LabelName {
    /// A VM-level label or function name, passed through unchanged.
    User(String),
    /// `TRUE_<n>`: the true branch of the n-th comparison.
    True(u64),
    /// `CONTINUE_<n>`: the join point of the n-th comparison.
    Continue(u64),
    /// `<function>$ret.<n>`: the return address of the n-th call.
    Return(String, u64),
}

/// The operand of an `@` instruction.
#[derive(Clone, Debug)]
pub enum Addr {
    Num(u16),
    Reg(Reg),
    /// `<module>.<index>`: a static variable.
    Static(String, u16),
    Label(LabelName),
}

/// Destination of a computation.
#[derive(Clone, Copy, Debug, PartialEq, Eq, Structural)]
pub enum Dest {
    A,
    D,
    M,
    AM,
}

/// The ALU computations the generator uses.
#[derive(Clone, Copy, Debug, PartialEq, Eq, Structural)]
pub enum Comp {
    Zero,
    MinusOne,
    D,
    A,
    M,
    MPlusOne,
    MMinusOne,
    DPlusA,
    DMinusA,
    DPlusM,
    MMinusD,
    DMinusM,
    DAndM,
    DOrM,
    NotM,
    NegM,
}

/// Jump conditions, tested on the computed value.
#[derive(Clone, Copy, Debug, PartialEq, Eq, Structural)]
pub enum Cond {
    JMP,
    JEQ,
    JGT,
    JNE,
}

/// One line of assembly.
#[derive(Clone, Debug)]
pub enum Asm {
    /// `@operand`
    At(Addr),
    /// `dest=comp`
    Assign(Dest, Comp),
    /// `comp;jump`
    Jump(Comp, Cond),
    /// `(name)`
    Label(LabelName),
}


/// The character of a decimal digit.
pub open spec fn digit_char(d: nat) -> char {
    if d == 0 { '0' }
    else if d == 1 { '1' }
    else if d == 2 { '2' }
    else if d == 3 { '3' }
    else if d == 4 { '4' }
    else if d == 5 { '5' }
    else if d == 6 { '6' }
    else if d == 7 { '7' }
    else if d == 8 { '8' }
    else { '9' }
}

/// The decimal text of a natural number, without leading zeros.
pub open spec fn decimal(n: nat) -> Seq<char>
    decreases n,
{
    if n < 10 {
        seq![digit_char(n)]
    } else {
        decimal(n / 10).push(digit_char(n % 10))
    }
}

/// The symbol text of a label.
pub open spec fn label_text(l: LabelName) -> Seq<char> {
    match l {
        LabelName::User(s) => s@,
        LabelName::True(n) => seq!['T', 'R', 'U', 'E', '_'] + decimal(n as nat),
        LabelName::Continue(n) => seq!['C', 'O', 'N', 'T', 'I', 'N', 'U', 'E', '_'] + decimal(n as nat),
        LabelName::Return(f, n) => f@ + seq!['$', 'r', 'e', 't', '.'] + decimal(n as nat),
    }
}

/// The symbol text of the static variable `index` of `module`.
pub open spec fn static_text(module: Seq<char>, index: u16) -> Seq<char> {
    module + seq!['.'] + decimal(index as nat)
}

pub open spec fn reg_text(r: Reg) -> Seq<char> {
    match r {
        Reg::SP => "SP"@,
        Reg::LCL => "LCL"@,
        Reg::ARG => "ARG"@,
        Reg::THIS => "THIS"@,
        Reg::THAT => "THAT"@,
        Reg::R13 => "R13"@,
        Reg::R14 => "R14"@,
    }
}

pub open spec fn dest_text(d: Dest) -> Seq<char> {
    match d {
        Dest::A => "A"@,
        Dest::D => "D"@,
        Dest::M => "M"@,
        Dest::AM => "AM"@,
    }
}

pub open spec fn comp_text(c: Comp) -> Seq<char> {
    match c {
        Comp::Zero => "0"@,
        Comp::MinusOne => "-1"@,
        Comp::D => "D"@,
        Comp::A => "A"@,
        Comp::M => "M"@,
        Comp::MPlusOne => "M+1"@,
        Comp::MMinusOne => "M-1"@,
        Comp::DPlusA => "D+A"@,
        Comp::DMinusA => "D-A"@,
        Comp::DPlusM => "D+M"@,
        Comp::MMinusD => "M-D"@,
        Comp::DMinusM => "D-M"@,
        Comp::DAndM => "D&M"@,
        Comp::DOrM => "D|M"@,
        Comp::NotM => "!M"@,
        Comp::NegM => "-M"@,
    }
}

pub open spec fn cond_text(j: Cond) -> Seq<char> {
    match j {
        Cond::JMP => "JMP"@,
        Cond::JEQ => "JEQ"@,
        Cond::JGT => "JGT"@,
        Cond::JNE => "JNE"@,
    }
}

pub open spec fn addr_text(a: Addr) -> Seq<char> {
    match a {
        Addr::Num(n) => decimal(n as nat),
        Addr::Reg(r) => reg_text(r),
        Addr::Static(m, i) => static_text(m@, i),
        Addr::Label(l) => label_text(l),
    }
}

/// The source text of one line of assembly.
pub open spec fn asm_text(i: Asm) -> Seq<char> {
    match i {
        Asm::At(a) => seq!['@'] + addr_text(a),
        Asm::Assign(d, c) => dest_text(d) + seq!['='] + comp_text(c),
        Asm::Jump(c, j) => comp_text(c) + seq![';'] + cond_text(j),
        Asm::Label(l) => seq!['('] + label_text(l) + seq![')'],
    }
}

fn digit_str(d: u64) -> (r: &'static str)
    requires
        d < 10,
    ensures
        r@ == seq![digit_char(d as nat)],
{
    proof {
        reveal_strlit("0");
        reveal_strlit("1");
        reveal_strlit("2");
        reveal_strlit("3");
        reveal_strlit("4");
        reveal_strlit("5");
        reveal_strlit("6");
        reveal_strlit("7");
        reveal_strlit("8");
        reveal_strlit("9");
    }
    if d == 0 { "0" }
    else if d == 1 { "1" }
    else if d == 2 { "2" }
    else if d == 3 { "3" }
    else if d == 4 { "4" }
    else if d == 5 { "5" }
    else if d == 6 { "6" }
    else if d == 7 { "7" }
    else if d == 8 { "8" }
    else { "9" }
}

/// The decimal text of `n`.
pub fn decimal_string(n: u64) -> (r: String)
    ensures
        r@ == decimal(n as nat),
    decreases n,
{
    if n < 10 {
        String::from_str(digit_str(n))
    } else {
        let mut s = decimal_string(n / 10);
        s.append(digit_str(n % 10));
        s
    }
}

fn reg_str(r: Reg) -> (t: &'static str)
    ensures
        t@ == reg_text(r),
{
    match r {
        Reg::SP => "SP",
        Reg::LCL => "LCL",
        Reg::ARG => "ARG",
        Reg::THIS => "THIS",
        Reg::THAT => "THAT",
        Reg::R13 => "R13",
        Reg::R14 => "R14",
    }
}

fn dest_str(d: Dest) -> (t: &'static str)
    ensures
        t@ == dest_text(d),
{
    match d {
        Dest::A => "A",
        Dest::D => "D",
        Dest::M => "M",
        Dest::AM => "AM",
    }
}

fn comp_str(c: Comp) -> (t: &'static str)
    ensures
        t@ == comp_text(c),
{
    match c {
        Comp::Zero => "0",
        Comp::MinusOne => "-1",
        Comp::D => "D",
        Comp::A => "A",
        Comp::M => "M",
        Comp::MPlusOne => "M+1",
        Comp::MMinusOne => "M-1",
        Comp::DPlusA => "D+A",
        Comp::DMinusA => "D-A",
        Comp::DPlusM => "D+M",
        Comp::MMinusD => "M-D",
        Comp::DMinusM => "D-M",
        Comp::DAndM => "D&M",
        Comp::DOrM => "D|M",
        Comp::NotM => "!M",
        Comp::NegM => "-M",
    }
}

fn cond_str(j: Cond) -> (t: &'static str)
    ensures
        t@ == cond_text(j),
{
    match j {
        Cond::JMP => "JMP",
        Cond::JEQ => "JEQ",
        Cond::JGT => "JGT",
        Cond::JNE => "JNE",
    }
}

/// Appends the text of a label to `out`.
fn append_label(out: &mut String, l: &LabelName)
    ensures
        final(out)@ == old(out)@ + label_text(*l),
{
    match l {
        LabelName::User(s) => out.append(s.as_str()),
        LabelName::True(n) => {
            proof {
                reveal_strlit("TRUE_");
            }
            out.append("TRUE_");
            let d = decimal_string(*n);
            out.append(d.as_str());
        },
        LabelName::Continue(n) => {
            proof {
                reveal_strlit("CONTINUE_");
            }
            out.append("CONTINUE_");
            let d = decimal_string(*n);
            out.append(d.as_str());
        },
        LabelName::Return(f, n) => {
            proof {
                reveal_strlit("$ret.");
            }
            out.append(f.as_str());
            out.append("$ret.");
            let d = decimal_string(*n);
            out.append(d.as_str());
        },
    }
    assert(out@ =~= old(out)@ + label_text(*l));
}

impl Asm {
    /// The line of source text for this instruction.
    pub fn text(&self) -> (r: String)
        ensures
            r@ == asm_text(*self),
    {
        let mut out = String::new();
        match self {
            Asm::At(a) => {
                proof {
                    reveal_strlit("@");
                    reveal_strlit(".");
                }
                out.append("@");
                match a {
                    Addr::Num(n) => {
                        let d = decimal_string(*n as u64);
                        out.append(d.as_str());
                    },
                    Addr::Reg(r) => out.append(reg_str(*r)),
                    Addr::Static(m, i) => {
                        out.append(m.as_str());
                        out.append(".");
                        let d = decimal_string(*i as u64);
                        out.append(d.as_str());
                    },
                    Addr::Label(l) => append_label(&mut out, l),
                }
            },
            Asm::Assign(d, c) => {
                proof {
                    reveal_strlit("=");
                }
                out.append(dest_str(*d));
                out.append("=");
                out.append(comp_str(*c));
            },
            Asm::Jump(c, j) => {
                proof {
                    reveal_strlit(";");
                }
                out.append(comp_str(*c));
                out.append(";");
                out.append(cond_str(*j));
            },
            Asm::Label(l) => {
                proof {
                    reveal_strlit("(");
                    reveal_strlit(")");
                }
                out.append("(");
                append_label(&mut out, l);
                out.append(")");
            },
        }
        assert(out@ =~= asm_text(*self));
        out
    }
}

} // verus!
