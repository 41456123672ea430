use casm::hints::Hint;
use casm::instructions::{
    AddApInstruction, AssertEqInstruction, Blake2sCompressInstruction, CallInstruction,
    Instruction, InstructionBody, JnzInstruction, JumpInstruction, RetInstruction,
};
use casm::operand::{BinOpOperand, CellRef, DerefOrImmediate, Immediate, Operation, ResOperand};

fn cell(text: &str) -> DerefOrImmediate {
    DerefOrImmediate::Deref(CellRef::new(text))
}

fn constant(text: &str) -> DerefOrImmediate {
    DerefOrImmediate::Immediate(Immediate::new(text))
}

fn jump(target: DerefOrImmediate, relative: bool) -> InstructionBody {
    InstructionBody::Jump(JumpInstruction { target, relative })
}

fn hinted(body: InstructionBody, inc_ap: bool, codes: &[&str]) -> Instruction {
    let mut insn = Instruction::new(body, inc_ap);
    for code in codes {
        insn.hints.push(Hint::new(code));
    }
    insn
}

#[test]
fn instructions_built_apart_are_equal() {
    let one = hinted(jump(cell("[fp-1]"), true), true, &["x = 1", "y = 2"]);
    let other = Instruction {
        body: InstructionBody::Jump(JumpInstruction {
            target: DerefOrImmediate::Deref(CellRef { text: String::from("[fp-1]") }),
            relative: true,
        }),
        inc_ap: true,
        hints: vec![Hint { code: String::from("x = 1") }, Hint { code: String::from("y = 2") }],
    };
    assert_eq!(one, other);
    assert_eq!(other, one);
}

#[test]
fn clone_is_equal_to_its_source() {
    let one = hinted(jump(constant("12"), false), false, &["x = 1", "\ny = 2\n"]);
    let copy = one.clone();
    assert_eq!(copy, one);
    assert_eq!(copy.to_string(), one.to_string());
    assert_eq!(copy.body.op_size(), one.body.op_size());
}

#[test]
fn exchanged_hints_break_equality() {
    let one = hinted(jump(cell("[fp-1]"), true), true, &["x = 1", "y = 2"]);
    let other = hinted(jump(cell("[fp-1]"), true), true, &["y = 2", "x = 1"]);
    assert_ne!(one, other);
}

#[test]
fn exchanged_equal_hints_keep_equality() {
    let one = hinted(jump(cell("[fp-1]"), true), true, &["x = 1", "x = 1"]);
    let other = hinted(jump(cell("[fp-1]"), true), true, &["x = 1", "x = 1"]);
    assert_eq!(one, other);
}

#[test]
fn missing_or_changed_hint_breaks_equality() {
    let one = hinted(jump(cell("[fp-1]"), true), true, &["x = 1", "y = 2"]);
    assert_ne!(one, hinted(jump(cell("[fp-1]"), true), true, &["x = 1"]));
    assert_ne!(one, hinted(jump(cell("[fp-1]"), true), true, &[]));
    assert_ne!(one, hinted(jump(cell("[fp-1]"), true), true, &["x = 1", "y = 3"]));
    assert_ne!(one, hinted(jump(cell("[fp-1]"), true), true, &["x = 1", "y = 2", "z = 3"]));
}

#[test]
fn flag_breaks_equality() {
    let one = hinted(jump(cell("[fp-1]"), true), true, &["x = 1"]);
    let other = hinted(jump(cell("[fp-1]"), true), false, &["x = 1"]);
    assert_ne!(one, other);
}

#[test]
fn body_breaks_equality() {
    let one = hinted(jump(cell("[fp-1]"), true), true, &[]);
    assert_ne!(one, hinted(jump(cell("[fp-1]"), false), true, &[]));
    assert_ne!(one, hinted(jump(cell("[fp-2]"), true), true, &[]));
    assert_ne!(one, hinted(jump(constant("[fp-1]"), true), true, &[]));
    let call = InstructionBody::Call(CallInstruction { target: cell("[fp-1]"), relative: true });
    assert_ne!(one, hinted(call, true, &[]));
}

#[test]
fn assert_eq_and_qm31_assert_eq_differ() {
    let insn = AssertEqInstruction {
        a: CellRef::new("[ap + 0]"),
        b: ResOperand::Immediate(Immediate::new("1")),
    };
    assert_eq!(InstructionBody::AssertEq(insn.clone()), InstructionBody::AssertEq(insn.clone()));
    assert_eq!(
        InstructionBody::QM31AssertEq(insn.clone()),
        InstructionBody::QM31AssertEq(insn.clone())
    );
    assert_ne!(InstructionBody::AssertEq(insn.clone()), InstructionBody::QM31AssertEq(insn));
}

#[test]
fn bodies_of_each_form_are_equal_to_their_clones() {
    let bodies = vec![
        InstructionBody::AddAp(AddApInstruction {
            operand: ResOperand::DoubleDeref(CellRef::new("[fp + 2]"), Immediate::new("5")),
        }),
        InstructionBody::AssertEq(AssertEqInstruction {
            a: CellRef::new("[ap + 0]"),
            b: ResOperand::BinOp(BinOpOperand {
                op: Operation::Mul,
                a: cell("[fp + 1]"),
                b: constant("3"),
            }),
        }),
        InstructionBody::QM31AssertEq(AssertEqInstruction {
            a: CellRef::new("[ap + 0]"),
            b: ResOperand::Deref(CellRef::new("[fp + 1]")),
        }),
        InstructionBody::Call(CallInstruction { target: constant("17"), relative: false }),
        InstructionBody::Jnz(JnzInstruction {
            jump_offset: constant("6"),
            condition: CellRef::new("[ap + -1]"),
        }),
        jump(cell("[fp-1]"), true),
        InstructionBody::Ret(RetInstruction {}),
        InstructionBody::Blake2sCompress(Blake2sCompressInstruction {
            state: CellRef::new("[fp + 0]"),
            byte_count: CellRef::new("[fp + 1]"),
            message: CellRef::new("[ap + -5]"),
            finalize: true,
        }),
    ];
    for (i, body) in bodies.iter().enumerate() {
        for (j, other) in bodies.iter().enumerate() {
            assert_eq!(body == other, i == j);
        }
        assert_eq!(&body.clone(), body);
    }
}

#[test]
fn payloads_differ_by_each_field() {
    let jnz = JnzInstruction { jump_offset: constant("6"), condition: CellRef::new("[ap + -1]") };
    assert_eq!(jnz, jnz.clone());
    assert_ne!(
        jnz,
        JnzInstruction { jump_offset: constant("7"), condition: CellRef::new("[ap + -1]") }
    );
    assert_ne!(
        jnz,
        JnzInstruction { jump_offset: constant("6"), condition: CellRef::new("[ap + -2]") }
    );

    let blake = Blake2sCompressInstruction {
        state: CellRef::new("a"),
        byte_count: CellRef::new("b"),
        message: CellRef::new("c"),
        finalize: false,
    };
    assert_eq!(blake, blake.clone());
    assert_ne!(blake, Blake2sCompressInstruction { state: CellRef::new("x"), ..blake.clone() });
    assert_ne!(
        blake,
        Blake2sCompressInstruction { byte_count: CellRef::new("x"), ..blake.clone() }
    );
    assert_ne!(blake, Blake2sCompressInstruction { message: CellRef::new("x"), ..blake.clone() });
    assert_ne!(blake, Blake2sCompressInstruction { finalize: true, ..blake.clone() });
}

#[test]
fn operands_differ_by_kind_and_by_text() {
    assert_eq!(cell("[fp-1]"), cell("[fp-1]"));
    assert_ne!(cell("[fp-1]"), cell("[fp-2]"));
    assert_ne!(cell("7"), constant("7"));
    assert_eq!(constant("7"), constant("7"));

    let sum = BinOpOperand { op: Operation::Add, a: cell("[ap + 0]"), b: constant("3") };
    assert_eq!(sum, sum.clone());
    assert_ne!(sum, BinOpOperand { op: Operation::Mul, ..sum.clone() });
    assert_ne!(sum, BinOpOperand { a: cell("[ap + 1]"), ..sum.clone() });
    assert_ne!(sum, BinOpOperand { b: constant("4"), ..sum.clone() });

    let double = ResOperand::DoubleDeref(CellRef::new("[fp + 2]"), Immediate::new("5"));
    assert_eq!(double, double.clone());
    assert_ne!(double, ResOperand::DoubleDeref(CellRef::new("[fp + 2]"), Immediate::new("6")));
    assert_ne!(double, ResOperand::DoubleDeref(CellRef::new("[fp + 3]"), Immediate::new("5")));
    assert_ne!(
        ResOperand::Deref(CellRef::new("5")),
        ResOperand::Immediate(Immediate::new("5"))
    );
    assert_ne!(ResOperand::BinOp(sum), double);
}

#[test]
fn hints_are_equal_when_their_code_is() {
    assert_eq!(Hint::new("x = 1"), Hint::new("x = 1").clone());
    assert_ne!(Hint::new("x = 1"), Hint::new("x = 2"));
}
