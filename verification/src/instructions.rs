//! The instructions of CASM: their forms, their size in words and their
//! listing text.
//!
//! Each instruction type has a view made of character sequences, flags and
//! tags only. The size and the text of an instruction are functions of its
//! view, and two instructions are equal exactly when their views are.

use vstd::prelude::*;
use vstd::std_specs::cmp::PartialEqSpec;
use crate::hints::Hint;
use crate::operand::{
    CellRef,
    DerefOrImmediate,
    DerefOrImmediateView,
    ResOperand,
    ResOperandView,
};

verus! {

/// How a call or jump names its addressing: `rel` when the target is an
/// offset from the current instruction, `abs` when it is an address.
pub open spec fn addressing_text(relative: bool) -> Seq<char> {
    if relative {
        "rel"@
    } else {
        "abs"@
    }
}

/// How a listing shows a flag.
pub open spec fn flag_text(flag: bool) -> Seq<char> {
    if flag {
        "true"@
    } else {
        "false"@
    }
}

/// The number of words of an instruction whose result operand is `operand`:
/// two when the operand brings a constant with it, one otherwise. An
/// operation brings a constant exactly when its right operand is one.
pub fn op_size_based_on_res_operands(operand: &ResOperand) -> (size: usize)
    ensures
        size == operand@.size(),
{
    match operand {
        ResOperand::Deref(_) => 1,
        ResOperand::DoubleDeref(_, _) => 1,
        ResOperand::Immediate(_) => 2,
        ResOperand::BinOp(operands) => match operands.b {
            DerefOrImmediate::Immediate(_) => 2,
            DerefOrImmediate::Deref(_) => 1,
        },
    }
}

/// The instruction `ap += operand`.
#[derive(Debug)]
pub struct AddApInstruction {
    pub operand: ResOperand,
}

/// The view of an [`AddApInstruction`].
pub struct AddApInstructionView {
    pub operand: ResOperandView,
}

impl AddApInstructionView {
    /// The size in words: that of the operand.
    pub open spec fn op_size(self) -> nat {
        self.operand.size()
    }

    /// The instruction as a listing shows it.
    pub open spec fn text(self) -> Seq<char> {
        "ap += "@ + self.operand.text()
    }
}

impl View for AddApInstruction {
    type V = AddApInstructionView;

    open spec fn view(&self) -> AddApInstructionView {
        AddApInstructionView { operand: self.operand@ }
    }
}

impl AddApInstruction {
    /// The size of the instruction in words.
    pub fn op_size(&self) -> (size: usize)
        ensures
            size == self@.op_size(),
    {
        op_size_based_on_res_operands(&self.operand)
    }

    /// The instruction as a listing shows it.
    pub fn to_string(&self) -> (text: String)
        ensures
            text@ == self@.text(),
    {
        let mut text = "ap += ".to_owned();
        text.append(self.operand.to_string().as_str());
        text
    }
}

impl Clone for AddApInstruction {
    fn clone(&self) -> (copy: Self)
        ensures
            copy@ == self@,
    {
        AddApInstruction { operand: self.operand.clone() }
    }
}

impl PartialEq for AddApInstruction {
    fn eq(&self, other: &Self) -> (equal: bool) {
        self.operand == other.operand
    }
}

impl vstd::std_specs::cmp::PartialEqSpecImpl for AddApInstruction {
    open spec fn obeys_eq_spec() -> bool {
        true
    }

    open spec fn eq_spec(&self, other: &Self) -> bool {
        self@ == other@
    }
}

impl Eq for AddApInstruction {

}

/// The instruction `a = b`, which asserts that cell `a` holds the value of
/// `b`.
#[derive(Debug)]
pub struct AssertEqInstruction {
    pub a: CellRef,
    pub b: ResOperand,
}

/// The view of an [`AssertEqInstruction`].
pub struct AssertEqInstructionView {
    pub a: Seq<char>,
    pub b: ResOperandView,
}

impl AssertEqInstructionView {
    /// The size in words: that of the right side. The left side is a cell
    /// and adds nothing.
    pub open spec fn op_size(self) -> nat {
        self.b.size()
    }

    /// The instruction as a listing shows it.
    pub open spec fn text(self) -> Seq<char> {
        self.a + " = "@ + self.b.text()
    }
}

impl View for AssertEqInstruction {
    type V = AssertEqInstructionView;

    open spec fn view(&self) -> AssertEqInstructionView {
        AssertEqInstructionView { a: self.a@, b: self.b@ }
    }
}

impl AssertEqInstruction {
    /// The size of the instruction in words.
    pub fn op_size(&self) -> (size: usize)
        ensures
            size == self@.op_size(),
    {
        op_size_based_on_res_operands(&self.b)
    }

    /// The instruction as a listing shows it.
    pub fn to_string(&self) -> (text: String)
        ensures
            text@ == self@.text(),
    {
        let mut text = self.a.to_string();
        text.append(" = ");
        text.append(self.b.to_string().as_str());
        text
    }
}

impl Clone for AssertEqInstruction {
    fn clone(&self) -> (copy: Self)
        ensures
            copy@ == self@,
    {
        AssertEqInstruction { a: self.a.clone(), b: self.b.clone() }
    }
}

impl PartialEq for AssertEqInstruction {
    fn eq(&self, other: &Self) -> (equal: bool) {
        self.a == other.a && self.b == other.b
    }
}

impl vstd::std_specs::cmp::PartialEqSpecImpl for AssertEqInstruction {
    open spec fn obeys_eq_spec() -> bool {
        true
    }

    open spec fn eq_spec(&self, other: &Self) -> bool {
        self@ == other@
    }
}

impl Eq for AssertEqInstruction {

}

/// The instruction `call rel target` or `call abs target`.
#[derive(Debug)]
pub struct CallInstruction {
    pub target: DerefOrImmediate,
    pub relative: bool,
}

/// The view of a [`CallInstruction`].
pub struct CallInstructionView {
    pub target: DerefOrImmediateView,
    pub relative: bool,
}

impl CallInstructionView {
    /// The size in words: that of the target, whether the call is relative
    /// or absolute.
    pub open spec fn op_size(self) -> nat {
        self.target.size()
    }

    /// The instruction as a listing shows it.
    pub open spec fn text(self) -> Seq<char> {
        "call "@ + addressing_text(self.relative) + " "@ + self.target.text()
    }
}

impl View for CallInstruction {
    type V = CallInstructionView;

    open spec fn view(&self) -> CallInstructionView {
        CallInstructionView { target: self.target@, relative: self.relative }
    }
}

impl CallInstruction {
    /// The size of the instruction in words.
    pub fn op_size(&self) -> (size: usize)
        ensures
            size == self@.op_size(),
    {
        match &self.target {
            DerefOrImmediate::Deref(_) => 1,
            DerefOrImmediate::Immediate(_) => 2,
        }
    }

    /// The instruction as a listing shows it.
    pub fn to_string(&self) -> (text: String)
        ensures
            text@ == self@.text(),
    {
        let mut text = "call ".to_owned();
        text.append(if self.relative {
            "rel"
        } else {
            "abs"
        });
        text.append(" ");
        text.append(self.target.to_string().as_str());
        text
    }
}

impl Clone for CallInstruction {
    fn clone(&self) -> (copy: Self)
        ensures
            copy@ == self@,
    {
        CallInstruction { target: self.target.clone(), relative: self.relative }
    }
}

impl PartialEq for CallInstruction {
    fn eq(&self, other: &Self) -> (equal: bool) {
        self.target == other.target && self.relative == other.relative
    }
}

impl vstd::std_specs::cmp::PartialEqSpecImpl for CallInstruction {
    open spec fn obeys_eq_spec() -> bool {
        true
    }

    open spec fn eq_spec(&self, other: &Self) -> bool {
        self@ == other@
    }
}

impl Eq for CallInstruction {

}

/// The instruction `jmp rel target` or `jmp abs target`.
#[derive(Debug)]
pub struct JumpInstruction {
    pub target: DerefOrImmediate,
    pub relative: bool,
}

/// The view of a [`JumpInstruction`].
pub struct JumpInstructionView {
    pub target: DerefOrImmediateView,
    pub relative: bool,
}

impl JumpInstructionView {
    /// The size in words: that of the target, whether the jump is relative
    /// or absolute.
    pub open spec fn op_size(self) -> nat {
        self.target.size()
    }

    /// The instruction as a listing shows it.
    pub open spec fn text(self) -> Seq<char> {
        "jmp "@ + addressing_text(self.relative) + " "@ + self.target.text()
    }
}

impl View for JumpInstruction {
    type V = JumpInstructionView;

    open spec fn view(&self) -> JumpInstructionView {
        JumpInstructionView { target: self.target@, relative: self.relative }
    }
}

impl JumpInstruction {
    /// The size of the instruction in words.
    pub fn op_size(&self) -> (size: usize)
        ensures
            size == self@.op_size(),
    {
        match &self.target {
            DerefOrImmediate::Deref(_) => 1,
            DerefOrImmediate::Immediate(_) => 2,
        }
    }

    /// The instruction as a listing shows it.
    pub fn to_string(&self) -> (text: String)
        ensures
            text@ == self@.text(),
    {
        let mut text = "jmp ".to_owned();
        text.append(if self.relative {
            "rel"
        } else {
            "abs"
        });
        text.append(" ");
        text.append(self.target.to_string().as_str());
        text
    }
}

impl Clone for JumpInstruction {
    fn clone(&self) -> (copy: Self)
        ensures
            copy@ == self@,
    {
        JumpInstruction { target: self.target.clone(), relative: self.relative }
    }
}

impl PartialEq for JumpInstruction {
    fn eq(&self, other: &Self) -> (equal: bool) {
        self.target == other.target && self.relative == other.relative
    }
}

impl vstd::std_specs::cmp::PartialEqSpecImpl for JumpInstruction {
    open spec fn obeys_eq_spec() -> bool {
        true
    }

    open spec fn eq_spec(&self, other: &Self) -> bool {
        self@ == other@
    }
}

impl Eq for JumpInstruction {

}

/// The instruction `jmp rel jump_offset if condition != 0`.
#[derive(Debug)]
pub struct JnzInstruction {
    pub jump_offset: DerefOrImmediate,
    pub condition: CellRef,
}

/// The view of a [`JnzInstruction`].
pub struct JnzInstructionView {
    pub jump_offset: DerefOrImmediateView,
    pub condition: Seq<char>,
}

impl JnzInstructionView {
    /// The size in words: that of the jump offset. The condition is a cell
    /// and adds nothing.
    pub open spec fn op_size(self) -> nat {
        self.jump_offset.size()
    }

    /// The instruction as a listing shows it.
    pub open spec fn text(self) -> Seq<char> {
        "jmp rel "@ + self.jump_offset.text() + " if "@ + self.condition + " != 0"@
    }
}

impl View for JnzInstruction {
    type V = JnzInstructionView;

    open spec fn view(&self) -> JnzInstructionView {
        JnzInstructionView { jump_offset: self.jump_offset@, condition: self.condition@ }
    }
}

impl JnzInstruction {
    /// The size of the instruction in words.
    pub fn op_size(&self) -> (size: usize)
        ensures
            size == self@.op_size(),
    {
        match &self.jump_offset {
            DerefOrImmediate::Deref(_) => 1,
            DerefOrImmediate::Immediate(_) => 2,
        }
    }

    /// The instruction as a listing shows it.
    pub fn to_string(&self) -> (text: String)
        ensures
            text@ == self@.text(),
    {
        let mut text = "jmp rel ".to_owned();
        text.append(self.jump_offset.to_string().as_str());
        text.append(" if ");
        text.append(self.condition.text.as_str());
        text.append(" != 0");
        text
    }
}

impl Clone for JnzInstruction {
    fn clone(&self) -> (copy: Self)
        ensures
            copy@ == self@,
    {
        JnzInstruction { jump_offset: self.jump_offset.clone(), condition: self.condition.clone() }
    }
}

impl PartialEq for JnzInstruction {
    fn eq(&self, other: &Self) -> (equal: bool) {
        self.jump_offset == other.jump_offset && self.condition == other.condition
    }
}

impl vstd::std_specs::cmp::PartialEqSpecImpl for JnzInstruction {
    open spec fn obeys_eq_spec() -> bool {
        true
    }

    open spec fn eq_spec(&self, other: &Self) -> bool {
        self@ == other@
    }
}

impl Eq for JnzInstruction {

}

/// The instruction `ret`.
#[derive(Debug, Clone, Copy, PartialEq, Eq, Structural)]
pub struct RetInstruction {}

impl RetInstruction {
    /// The size of the instruction in words: always one.
    pub fn op_size(&self) -> (size: usize)
        ensures
            size == 1,
    {
        1
    }

    /// The instruction as a listing shows it.
    pub fn to_string(&self) -> (text: String)
        ensures
            text@ == "ret"@,
    {
        "ret".to_owned()
    }
}

/// The instruction that runs one round of the Blake2s compression on the
/// state and message that its cells point to.
#[derive(Debug)]
pub struct Blake2sCompressInstruction {
    pub state: CellRef,
    pub byte_count: CellRef,
    pub message: CellRef,
    pub finalize: bool,
}

/// The view of a [`Blake2sCompressInstruction`].
pub struct Blake2sCompressInstructionView {
    pub state: Seq<char>,
    pub byte_count: Seq<char>,
    pub message: Seq<char>,
    pub finalize: bool,
}

impl Blake2sCompressInstructionView {
    /// The instruction as a listing shows it.
    pub open spec fn text(self) -> Seq<char> {
        "blake2s[state="@ + self.state + ", message="@ + self.message + ", byte_count="@
            + self.byte_count + ", finalize="@ + flag_text(self.finalize) + "] => [ap + 0]"@
    }
}

impl View for Blake2sCompressInstruction {
    type V = Blake2sCompressInstructionView;

    open spec fn view(&self) -> Blake2sCompressInstructionView {
        Blake2sCompressInstructionView {
            state: self.state@,
            byte_count: self.byte_count@,
            message: self.message@,
            finalize: self.finalize,
        }
    }
}

impl Blake2sCompressInstruction {
    /// The size of the instruction in words: always one, since all its
    /// operands are cells.
    pub fn op_size(&self) -> (size: usize)
        ensures
            size == 1,
    {
        1
    }

    /// The instruction as a listing shows it.
    pub fn to_string(&self) -> (text: String)
        ensures
            text@ == self@.text(),
    {
        let mut text = "blake2s[state=".to_owned();
        text.append(self.state.text.as_str());
        text.append(", message=");
        text.append(self.message.text.as_str());
        text.append(", byte_count=");
        text.append(self.byte_count.text.as_str());
        text.append(", finalize=");
        text.append(if self.finalize {
            "true"
        } else {
            "false"
        });
        text.append("] => [ap + 0]");
        text
    }
}

impl Clone for Blake2sCompressInstruction {
    fn clone(&self) -> (copy: Self)
        ensures
            copy@ == self@,
    {
        Blake2sCompressInstruction {
            state: self.state.clone(),
            byte_count: self.byte_count.clone(),
            message: self.message.clone(),
            finalize: self.finalize,
        }
    }
}

impl PartialEq for Blake2sCompressInstruction {
    fn eq(&self, other: &Self) -> (equal: bool) {
        self.state == other.state && self.byte_count == other.byte_count && self.message
            == other.message && self.finalize == other.finalize
    }
}

impl vstd::std_specs::cmp::PartialEqSpecImpl for Blake2sCompressInstruction {
    open spec fn obeys_eq_spec() -> bool {
        true
    }

    open spec fn eq_spec(&self, other: &Self) -> bool {
        self@ == other@
    }
}

impl Eq for Blake2sCompressInstruction {

}

/// An instruction without its flag and hints: one variant for each form.
#[derive(Debug)]
pub enum InstructionBody {
    AddAp(AddApInstruction),
    AssertEq(AssertEqInstruction),
    QM31AssertEq(AssertEqInstruction),
    Call(CallInstruction),
    Jnz(JnzInstruction),
    Jump(JumpInstruction),
    Ret(RetInstruction),
    Blake2sCompress(Blake2sCompressInstruction),
}

/// The view of an [`InstructionBody`].
pub enum InstructionBodyView {
    AddAp(AddApInstructionView),
    AssertEq(AssertEqInstructionView),
    QM31AssertEq(AssertEqInstructionView),
    Call(CallInstructionView),
    Jnz(JnzInstructionView),
    Jump(JumpInstructionView),
    Ret,
    Blake2sCompress(Blake2sCompressInstructionView),
}

impl InstructionBodyView {
    /// The size in words, by form. `ret` and the Blake2s compression always
    /// take one word; every other form takes the size of the one operand
    /// that may bring a constant.
    pub open spec fn op_size(self) -> nat {
        match self {
            InstructionBodyView::AddAp(insn) => insn.op_size(),
            InstructionBodyView::AssertEq(insn) => insn.op_size(),
            InstructionBodyView::QM31AssertEq(insn) => insn.op_size(),
            InstructionBodyView::Call(insn) => insn.op_size(),
            InstructionBodyView::Jnz(insn) => insn.op_size(),
            InstructionBodyView::Jump(insn) => insn.op_size(),
            InstructionBodyView::Ret => 1,
            InstructionBodyView::Blake2sCompress(_) => 1,
        }
    }

    /// The instruction as a listing shows it, by form.
    pub open spec fn text(self) -> Seq<char> {
        match self {
            InstructionBodyView::AddAp(insn) => insn.text(),
            InstructionBodyView::AssertEq(insn) => insn.text(),
            InstructionBodyView::QM31AssertEq(insn) => "{QM31} "@ + insn.text(),
            InstructionBodyView::Call(insn) => insn.text(),
            InstructionBodyView::Jnz(insn) => insn.text(),
            InstructionBodyView::Jump(insn) => insn.text(),
            InstructionBodyView::Ret => "ret"@,
            InstructionBodyView::Blake2sCompress(insn) => insn.text(),
        }
    }
}

impl View for InstructionBody {
    type V = InstructionBodyView;

    open spec fn view(&self) -> InstructionBodyView {
        match self {
            InstructionBody::AddAp(insn) => InstructionBodyView::AddAp(insn@),
            InstructionBody::AssertEq(insn) => InstructionBodyView::AssertEq(insn@),
            InstructionBody::QM31AssertEq(insn) => InstructionBodyView::QM31AssertEq(insn@),
            InstructionBody::Call(insn) => InstructionBodyView::Call(insn@),
            InstructionBody::Jnz(insn) => InstructionBodyView::Jnz(insn@),
            InstructionBody::Jump(insn) => InstructionBodyView::Jump(insn@),
            InstructionBody::Ret(_) => InstructionBodyView::Ret,
            InstructionBody::Blake2sCompress(insn) => InstructionBodyView::Blake2sCompress(insn@),
        }
    }
}

impl InstructionBody {
    /// The size of the instruction in words.
    pub fn op_size(&self) -> (size: usize)
        ensures
            size == self@.op_size(),
    {
        match self {
            InstructionBody::AddAp(insn) => insn.op_size(),
            InstructionBody::AssertEq(insn) | InstructionBody::QM31AssertEq(insn) => insn.op_size(),
            InstructionBody::Call(insn) => insn.op_size(),
            InstructionBody::Jump(insn) => insn.op_size(),
            InstructionBody::Jnz(insn) => insn.op_size(),
            InstructionBody::Ret(insn) => insn.op_size(),
            InstructionBody::Blake2sCompress(insn) => insn.op_size(),
        }
    }

    /// The instruction as a listing shows it.
    pub fn to_string(&self) -> (text: String)
        ensures
            text@ == self@.text(),
    {
        match self {
            InstructionBody::AddAp(insn) => insn.to_string(),
            InstructionBody::AssertEq(insn) => insn.to_string(),
            InstructionBody::QM31AssertEq(insn) => {
                let mut text = "{QM31} ".to_owned();
                text.append(insn.to_string().as_str());
                text
            },
            InstructionBody::Call(insn) => insn.to_string(),
            InstructionBody::Jnz(insn) => insn.to_string(),
            InstructionBody::Jump(insn) => insn.to_string(),
            InstructionBody::Ret(insn) => insn.to_string(),
            InstructionBody::Blake2sCompress(insn) => insn.to_string(),
        }
    }
}

impl Clone for InstructionBody {
    fn clone(&self) -> (copy: Self)
        ensures
            copy@ == self@,
    {
        match self {
            InstructionBody::AddAp(insn) => InstructionBody::AddAp(insn.clone()),
            InstructionBody::AssertEq(insn) => InstructionBody::AssertEq(insn.clone()),
            InstructionBody::QM31AssertEq(insn) => InstructionBody::QM31AssertEq(insn.clone()),
            InstructionBody::Call(insn) => InstructionBody::Call(insn.clone()),
            InstructionBody::Jnz(insn) => InstructionBody::Jnz(insn.clone()),
            InstructionBody::Jump(insn) => InstructionBody::Jump(insn.clone()),
            InstructionBody::Ret(insn) => InstructionBody::Ret(*insn),
            InstructionBody::Blake2sCompress(insn) => InstructionBody::Blake2sCompress(
                insn.clone(),
            ),
        }
    }
}

impl PartialEq for InstructionBody {
    fn eq(&self, other: &Self) -> (equal: bool) {
        match (self, other) {
            (InstructionBody::AddAp(a), InstructionBody::AddAp(b)) => a == b,
            (InstructionBody::AssertEq(a), InstructionBody::AssertEq(b)) => a == b,
            (InstructionBody::QM31AssertEq(a), InstructionBody::QM31AssertEq(b)) => a == b,
            (InstructionBody::Call(a), InstructionBody::Call(b)) => a == b,
            (InstructionBody::Jnz(a), InstructionBody::Jnz(b)) => a == b,
            (InstructionBody::Jump(a), InstructionBody::Jump(b)) => a == b,
            (InstructionBody::Ret(_), InstructionBody::Ret(_)) => true,
            (InstructionBody::Blake2sCompress(a), InstructionBody::Blake2sCompress(b)) => a == b,
            _ => false,
        }
    }
}

impl vstd::std_specs::cmp::PartialEqSpecImpl for InstructionBody {
    open spec fn obeys_eq_spec() -> bool {
        true
    }

    open spec fn eq_spec(&self, other: &Self) -> bool {
        self@ == other@
    }
}

impl Eq for InstructionBody {

}

/// The line that a listing gives to a hint with code `code`, with the line
/// break that ends it.
///
/// The code stands between `%{` and `%}`, one space on each side. Code that
/// begins with a line break runs over several lines and sets its own
/// indentation: it gets no space on either side.
pub open spec fn hint_line(code: Seq<char>) -> Seq<char> {
    if code.len() > 0 && code[0] == '\n' {
        "%{"@ + code + "%}\n"@
    } else {
        "%{ "@ + code + " %}\n"@
    }
}

/// The lines of the hints `codes`, in their order.
pub open spec fn hint_lines(codes: Seq<Seq<char>>) -> Seq<char>
    decreases codes.len(),
{
    if codes.len() == 0 {
        Seq::empty()
    } else {
        hint_lines(codes.drop_last()) + hint_line(codes.last())
    }
}

/// An instruction: its body, whether it increments `ap` after it ran, and
/// the hints that run before it.
#[derive(Debug)]
pub struct Instruction {
    pub body: InstructionBody,
    pub inc_ap: bool,
    pub hints: Vec<Hint>,
}

/// The view of an [`Instruction`]: of each hint it holds the code.
pub struct InstructionView {
    pub body: InstructionBodyView,
    pub inc_ap: bool,
    pub hints: Seq<Seq<char>>,
}

impl InstructionView {
    /// The instruction as a listing shows it: one line for each hint, then
    /// the body, then `, ap++` where the flag is set. No line break ends it.
    pub open spec fn text(self) -> Seq<char> {
        hint_lines(self.hints) + self.body.text() + if self.inc_ap {
            ", ap++"@
        } else {
            Seq::empty()
        }
    }
}

impl View for Instruction {
    type V = InstructionView;

    open spec fn view(&self) -> InstructionView {
        InstructionView {
            body: self.body@,
            inc_ap: self.inc_ap,
            hints: self.hints@.map_values(|hint: Hint| hint@),
        }
    }
}

impl Instruction {
    /// The instruction with the given body and flag, and no hints.
    pub fn new(body: InstructionBody, inc_ap: bool) -> (insn: Self)
        ensures
            insn.body == body,
            insn.inc_ap == inc_ap,
            insn.hints@ == Seq::<Hint>::empty(),
            insn@ == (InstructionView { body: body@, inc_ap, hints: Seq::empty() }),
    {
        let insn = Instruction { body, inc_ap, hints: Vec::new() };
        assert(insn@.hints =~= Seq::empty());
        insn
    }

    /// The instruction as a listing shows it.
    pub fn to_string(&self) -> (text: String)
        ensures
            text@ == self@.text(),
    {
        let ghost codes = self@.hints;
        let mut text = String::new();
        let mut done: usize = 0;
        while done < self.hints.len()
            invariant
                done <= self.hints.len(),
                codes == self@.hints,
                text@ == hint_lines(codes.take(done as int)),
            decreases self.hints.len() - done,
        {
            let code = self.hints[done].code.as_str();
            // Code that begins with a line break gets no space on either side.
            if !code.is_empty() && code.get_char(0) == '\n' {
                text.append("%{");
                text.append(code);
                text.append("%}\n");
            } else {
                text.append("%{ ");
                text.append(code);
                text.append(" %}\n");
            }
            proof {
                let next = codes.take(done + 1);
                assert(next.drop_last() == codes.take(done as int));
                assert(next.last() == self.hints@[done as int]@);
            }
            done += 1;
        }
        assert(codes.take(done as int) == codes);
        text.append(self.body.to_string().as_str());
        if self.inc_ap {
            text.append(", ap++");
        }
        text
    }
}

impl Clone for Instruction {
    fn clone(&self) -> (copy: Self)
        ensures
            copy@ == self@,
    {
        let copy = Instruction {
            body: self.body.clone(),
            inc_ap: self.inc_ap,
            hints: self.hints.clone(),
        };
        assert(copy@.hints =~= self@.hints) by {
            assert forall|i: int| 0 <= i < self.hints@.len() implies copy.hints@[i]@
                == self.hints@[i]@ by {
                assert(cloned::<Hint>(self.hints@[i], copy.hints@[i]));
            }
        }
        copy
    }
}

impl PartialEq for Instruction {
    fn eq(&self, other: &Self) -> (equal: bool) {
        let same_hints = self.hints == other.hints;
        proof {
            if same_hints {
                assert(self@.hints =~= other@.hints);
            }
            if self@.hints == other@.hints {
                assert(self.hints@.len() == self@.hints.len());
                assert(other.hints@.len() == other@.hints.len());
                assert forall|i: int| 0 <= i < self.hints@.len() implies self.hints@[i]@
                    == other.hints@[i]@ by {
                    assert(self@.hints[i] == self.hints@[i]@);
                    assert(other@.hints[i] == other.hints@[i]@);
                }
                assert(same_hints);
            }
        }
        self.body == other.body && self.inc_ap == other.inc_ap && same_hints
    }
}

impl vstd::std_specs::cmp::PartialEqSpecImpl for Instruction {
    open spec fn obeys_eq_spec() -> bool {
        true
    }

    open spec fn eq_spec(&self, other: &Self) -> bool {
        self@ == other@
    }
}

impl Eq for Instruction {

}

/// `ret` and the Blake2s compression take one word, whatever cells and flag
/// the compression holds.
pub proof fn lemma_fixed_size(body: InstructionBodyView)
    requires
        body is Ret || body is Blake2sCompress,
    ensures
        body.op_size() == 1,
{
}

/// A call and a jump have the size of their target, relative or absolute.
pub proof fn lemma_size_ignores_addressing(target: DerefOrImmediateView, relative: bool)
    ensures
        InstructionBodyView::Call(CallInstructionView { target, relative }).op_size()
            == target.size(),
        InstructionBodyView::Jump(JumpInstructionView { target, relative }).op_size()
            == target.size(),
{
}

/// A conditional jump has the size of its offset, whatever cell holds the
/// condition.
pub proof fn lemma_size_ignores_condition(jump_offset: DerefOrImmediateView, condition: Seq<char>)
    ensures
        InstructionBodyView::Jnz(JnzInstructionView { jump_offset, condition }).op_size()
            == jump_offset.size(),
{
}

/// Every instruction takes one word or two.
pub proof fn lemma_op_size_is_one_or_two(body: InstructionBodyView)
    ensures
        body.op_size() == 1 || body.op_size() == 2,
{
}

/// The lines of two runs of hints, one after the other, are the lines of
/// the first run followed by the lines of the second: hints are listed in
/// their order.
pub proof fn lemma_hint_lines_concat(first: Seq<Seq<char>>, second: Seq<Seq<char>>)
    ensures
        hint_lines(first + second) == hint_lines(first) + hint_lines(second),
    decreases second.len(),
{
    if second.len() == 0 {
        assert(first + second =~= first);
    } else {
        lemma_hint_lines_concat(first, second.drop_last());
        assert((first + second).drop_last() =~= first + second.drop_last());
        assert((first + second).last() == second.last());
    }
}

/// The listing of an instruction with hints is the line of its first hint
/// followed by the listing of the same instruction without that hint: every
/// hint stands on a line of its own before the body.
pub proof fn lemma_first_hint_comes_first(insn: InstructionView)
    requires
        insn.hints.len() > 0,
    ensures
        insn.text() == hint_line(insn.hints[0]) + (InstructionView {
            hints: insn.hints.drop_first(),
            ..insn
        }).text(),
{
    let first = seq![insn.hints[0]];
    let rest = insn.hints.drop_first();
    assert(insn.hints =~= first + rest);
    lemma_hint_lines_concat(first, rest);
    assert(hint_lines(first) =~= hint_line(insn.hints[0])) by {
        assert(first.drop_last() =~= Seq::empty());
        assert(hint_lines(first.drop_last()) =~= Seq::empty());
    }
    let others = InstructionView { hints: rest, ..insn };
    assert(insn.text() =~= hint_line(insn.hints[0]) + others.text());
}

/// Two instructions are equal exactly when their bodies are equal, their
/// flags agree, and they hold equal hints in the same order. Nothing else
/// counts: values built apart from each other are equal when these agree.
pub proof fn lemma_instruction_equality(x: Instruction, y: Instruction)
    ensures
        x.eq_spec(&y) <==> {
            &&& x.body.eq_spec(&y.body)
            &&& x.inc_ap == y.inc_ap
            &&& x.hints@.len() == y.hints@.len()
            &&& forall|i: int| 0 <= i < x.hints@.len() ==> x.hints@[i].eq_spec(&y.hints@[i])
        },
{
    if x.eq_spec(&y) {
        assert forall|i: int| 0 <= i < x.hints@.len() implies x.hints@[i].eq_spec(
            &y.hints@[i],
        ) by {
            assert(x@.hints[i] == x.hints@[i]@);
            assert(y@.hints[i] == y.hints@[i]@);
        }
        assert(x.hints@.len() == x@.hints.len());
        assert(y.hints@.len() == y@.hints.len());
    }
    if x.hints@.len() == y.hints@.len() && (forall|i: int|
        0 <= i < x.hints@.len() ==> x.hints@[i].eq_spec(&y.hints@[i])) {
        assert(x@.hints =~= y@.hints);
    }
}

/// Instructions that hold different hints in some place are not equal.
pub proof fn lemma_hints_decide_equality(x: Instruction, y: Instruction, i: int)
    requires
        0 <= i < x.hints@.len(),
        0 <= i < y.hints@.len(),
        x.hints@[i]@ != y.hints@[i]@,
    ensures
        !x.eq_spec(&y),
{
    assert(x@.hints[i] == x.hints@[i]@);
    assert(y@.hints[i] == y.hints@[i]@);
}

/// The order of the hints counts: an instruction that holds the hints of
/// another with two unequal ones exchanged is not equal to it.
pub proof fn lemma_hint_order_matters(x: Instruction, y: Instruction, i: int, j: int)
    requires
        0 <= i < x.hints@.len(),
        0 <= j < x.hints@.len(),
        y.hints@ == x.hints@.update(i, x.hints@[j]).update(j, x.hints@[i]),
        x.hints@[i]@ != x.hints@[j]@,
    ensures
        !x.eq_spec(&y),
{
    lemma_hints_decide_equality(x, y, j);
}

/// Equality of instructions is an equivalence, and it is equality of views.
pub proof fn lemma_instruction_obeys_eq()
    ensures
        vstd::laws_eq::obeys_eq::<Instruction>(),
        vstd::laws_eq::obeys_view_eq::<Instruction>(),
{
    reveal(vstd::laws_eq::obeys_eq_spec_properties);
    reveal(vstd::laws_eq::obeys_view_eq);
}

} // verus!
