//! Operands of CASM instructions.
//!
//! The two base operands, a cell reference and an inline constant, are held in
//! their written form: a listing reproduces that text letter for letter. The
//! compound operands are built from them.
//!
//! Every operand type has a view, a value made of character sequences and
//! tags only. Equality, size and text are all stated over the views.

use vstd::prelude::*;

verus! {

/// A direct reference to one memory cell, held in its written form, such as
/// `[fp-1]`.
#[derive(Debug)]
pub struct CellRef {
    pub text: String,
}

impl View for CellRef {
    type V = Seq<char>;

    open spec fn view(&self) -> Seq<char> {
        self.text@
    }
}

impl CellRef {
    /// The cell reference that is written `text`.
    pub fn new(text: &str) -> (cell: Self)
        ensures
            cell@ == text@,
    {
        CellRef { text: text.to_owned() }
    }

    /// The written form of the cell reference.
    pub fn to_string(&self) -> (text: String)
        ensures
            text@ == self@,
    {
        self.text.clone()
    }
}

impl Clone for CellRef {
    fn clone(&self) -> (copy: Self)
        ensures
            copy@ == self@,
    {
        CellRef { text: self.text.clone() }
    }
}

impl PartialEq for CellRef {
    fn eq(&self, other: &Self) -> (equal: bool) {
        self.text == other.text
    }
}

impl vstd::std_specs::cmp::PartialEqSpecImpl for CellRef {
    open spec fn obeys_eq_spec() -> bool {
        true
    }

    open spec fn eq_spec(&self, other: &Self) -> bool {
        self@ == other@
    }
}

impl Eq for CellRef {

}

/// A constant written into the instruction itself, held in its written form,
/// such as `17`.
#[derive(Debug)]
pub struct Immediate {
    pub text: String,
}

impl View for Immediate {
    type V = Seq<char>;

    open spec fn view(&self) -> Seq<char> {
        self.text@
    }
}

impl Immediate {
    /// The constant that is written `text`.
    pub fn new(text: &str) -> (value: Self)
        ensures
            value@ == text@,
    {
        Immediate { text: text.to_owned() }
    }

    /// The written form of the constant.
    pub fn to_string(&self) -> (text: String)
        ensures
            text@ == self@,
    {
        self.text.clone()
    }
}

impl Clone for Immediate {
    fn clone(&self) -> (copy: Self)
        ensures
            copy@ == self@,
    {
        Immediate { text: self.text.clone() }
    }
}

impl PartialEq for Immediate {
    fn eq(&self, other: &Self) -> (equal: bool) {
        self.text == other.text
    }
}

impl vstd::std_specs::cmp::PartialEqSpecImpl for Immediate {
    open spec fn obeys_eq_spec() -> bool {
        true
    }

    open spec fn eq_spec(&self, other: &Self) -> bool {
        self@ == other@
    }
}

impl Eq for Immediate {

}

/// An operand that is either a cell reference or an inline constant.
#[derive(Debug)]
pub enum DerefOrImmediate {
    Deref(CellRef),
    Immediate(Immediate),
}

/// The view of a [`DerefOrImmediate`].
pub enum DerefOrImmediateView {
    Deref(Seq<char>),
    Immediate(Seq<char>),
}

impl DerefOrImmediateView {
    /// The number of words that an instruction sized by this operand takes:
    /// one for a cell reference, and one more for a constant, which follows
    /// the instruction in a word of its own.
    pub open spec fn size(self) -> nat {
        match self {
            DerefOrImmediateView::Deref(_) => 1,
            DerefOrImmediateView::Immediate(_) => 2,
        }
    }

    /// The operand as a listing shows it.
    pub open spec fn text(self) -> Seq<char> {
        match self {
            DerefOrImmediateView::Deref(cell) => cell,
            DerefOrImmediateView::Immediate(value) => value,
        }
    }
}

impl View for DerefOrImmediate {
    type V = DerefOrImmediateView;

    open spec fn view(&self) -> DerefOrImmediateView {
        match self {
            DerefOrImmediate::Deref(cell) => DerefOrImmediateView::Deref(cell@),
            DerefOrImmediate::Immediate(value) => DerefOrImmediateView::Immediate(value@),
        }
    }
}

impl DerefOrImmediate {
    /// The operand as a listing shows it.
    pub fn to_string(&self) -> (text: String)
        ensures
            text@ == self@.text(),
    {
        match self {
            DerefOrImmediate::Deref(cell) => cell.to_string(),
            DerefOrImmediate::Immediate(value) => value.to_string(),
        }
    }
}

impl Clone for DerefOrImmediate {
    fn clone(&self) -> (copy: Self)
        ensures
            copy@ == self@,
    {
        match self {
            DerefOrImmediate::Deref(cell) => DerefOrImmediate::Deref(cell.clone()),
            DerefOrImmediate::Immediate(value) => DerefOrImmediate::Immediate(value.clone()),
        }
    }
}

impl PartialEq for DerefOrImmediate {
    fn eq(&self, other: &Self) -> (equal: bool) {
        match (self, other) {
            (DerefOrImmediate::Deref(a), DerefOrImmediate::Deref(b)) => a == b,
            (DerefOrImmediate::Immediate(a), DerefOrImmediate::Immediate(b)) => a == b,
            _ => false,
        }
    }
}

impl vstd::std_specs::cmp::PartialEqSpecImpl for DerefOrImmediate {
    open spec fn obeys_eq_spec() -> bool {
        true
    }

    open spec fn eq_spec(&self, other: &Self) -> bool {
        self@ == other@
    }
}

impl Eq for DerefOrImmediate {

}

/// The operation of a [`BinOpOperand`].
#[derive(Debug, Clone, Copy, PartialEq, Eq, Structural)]
pub enum Operation {
    Add,
    Mul,
}

impl Operation {
    /// The sign of the operation.
    pub open spec fn text(self) -> Seq<char> {
        match self {
            Operation::Add => "+"@,
            Operation::Mul => "*"@,
        }
    }

    /// The sign of the operation.
    pub fn as_str(&self) -> (sign: &'static str)
        ensures
            sign@ == self.text(),
    {
        match self {
            Operation::Add => "+",
            Operation::Mul => "*",
        }
    }
}

/// Two operands joined by an operation.
#[derive(Debug)]
pub struct BinOpOperand {
    pub op: Operation,
    pub a: DerefOrImmediate,
    pub b: DerefOrImmediate,
}

/// The view of a [`BinOpOperand`].
pub struct BinOpOperandView {
    pub op: Operation,
    pub a: DerefOrImmediateView,
    pub b: DerefOrImmediateView,
}

impl BinOpOperandView {
    /// The operand as a listing shows it: left operand, sign, right operand,
    /// one space between them.
    pub open spec fn text(self) -> Seq<char> {
        self.a.text() + " "@ + self.op.text() + " "@ + self.b.text()
    }
}

impl View for BinOpOperand {
    type V = BinOpOperandView;

    open spec fn view(&self) -> BinOpOperandView {
        BinOpOperandView { op: self.op, a: self.a@, b: self.b@ }
    }
}

impl BinOpOperand {
    /// The operand as a listing shows it.
    pub fn to_string(&self) -> (text: String)
        ensures
            text@ == self@.text(),
    {
        let mut text = self.a.to_string();
        text.append(" ");
        text.append(self.op.as_str());
        text.append(" ");
        text.append(self.b.to_string().as_str());
        text
    }
}

impl Clone for BinOpOperand {
    fn clone(&self) -> (copy: Self)
        ensures
            copy@ == self@,
    {
        BinOpOperand { op: self.op, a: self.a.clone(), b: self.b.clone() }
    }
}

impl PartialEq for BinOpOperand {
    fn eq(&self, other: &Self) -> (equal: bool) {
        self.op == other.op && self.a == other.a && self.b == other.b
    }
}

impl vstd::std_specs::cmp::PartialEqSpecImpl for BinOpOperand {
    open spec fn obeys_eq_spec() -> bool {
        true
    }

    open spec fn eq_spec(&self, other: &Self) -> bool {
        self@ == other@
    }
}

impl Eq for BinOpOperand {

}

/// An operand that yields the value an instruction works on.
#[derive(Debug)]
pub enum ResOperand {
    /// The value of a cell.
    Deref(CellRef),
    /// The value of the cell whose address is the value of the first cell
    /// plus the offset.
    DoubleDeref(CellRef, Immediate),
    /// A constant.
    Immediate(Immediate),
    /// The result of an operation on two operands.
    BinOp(BinOpOperand),
}

/// The view of a [`ResOperand`].
pub enum ResOperandView {
    Deref(Seq<char>),
    DoubleDeref(Seq<char>, Seq<char>),
    Immediate(Seq<char>),
    BinOp(BinOpOperandView),
}

impl ResOperandView {
    /// The number of words that an instruction sized by this operand takes.
    ///
    /// A cell reference and a double dereference take one word, a constant
    /// takes two. An operation is sized by its right operand alone: the left
    /// operand never adds a word.
    pub open spec fn size(self) -> nat {
        match self {
            ResOperandView::Deref(_) => 1,
            ResOperandView::DoubleDeref(_, _) => 1,
            ResOperandView::Immediate(_) => 2,
            ResOperandView::BinOp(operands) => operands.b.size(),
        }
    }

    /// The operand as a listing shows it.
    pub open spec fn text(self) -> Seq<char> {
        match self {
            ResOperandView::Deref(cell) => cell,
            ResOperandView::DoubleDeref(cell, offset) => "["@ + cell + " + "@ + offset + "]"@,
            ResOperandView::Immediate(value) => value,
            ResOperandView::BinOp(operands) => operands.text(),
        }
    }
}

impl View for ResOperand {
    type V = ResOperandView;

    open spec fn view(&self) -> ResOperandView {
        match self {
            ResOperand::Deref(cell) => ResOperandView::Deref(cell@),
            ResOperand::DoubleDeref(cell, offset) => ResOperandView::DoubleDeref(cell@, offset@),
            ResOperand::Immediate(value) => ResOperandView::Immediate(value@),
            ResOperand::BinOp(operands) => ResOperandView::BinOp(operands@),
        }
    }
}

impl ResOperand {
    /// The operand as a listing shows it.
    pub fn to_string(&self) -> (text: String)
        ensures
            text@ == self@.text(),
    {
        match self {
            ResOperand::Deref(cell) => cell.to_string(),
            ResOperand::DoubleDeref(cell, offset) => {
                let mut text = "[".to_owned();
                text.append(cell.text.as_str());
                text.append(" + ");
                text.append(offset.text.as_str());
                text.append("]");
                text
            },
            ResOperand::Immediate(value) => value.to_string(),
            ResOperand::BinOp(operands) => operands.to_string(),
        }
    }
}

impl Clone for ResOperand {
    fn clone(&self) -> (copy: Self)
        ensures
            copy@ == self@,
    {
        match self {
            ResOperand::Deref(cell) => ResOperand::Deref(cell.clone()),
            ResOperand::DoubleDeref(cell, offset) => ResOperand::DoubleDeref(
                cell.clone(),
                offset.clone(),
            ),
            ResOperand::Immediate(value) => ResOperand::Immediate(value.clone()),
            ResOperand::BinOp(operands) => ResOperand::BinOp(operands.clone()),
        }
    }
}

impl PartialEq for ResOperand {
    fn eq(&self, other: &Self) -> (equal: bool) {
        match (self, other) {
            (ResOperand::Deref(a), ResOperand::Deref(b)) => a == b,
            (ResOperand::DoubleDeref(a, m), ResOperand::DoubleDeref(b, n)) => a == b && m == n,
            (ResOperand::Immediate(a), ResOperand::Immediate(b)) => a == b,
            (ResOperand::BinOp(a), ResOperand::BinOp(b)) => a == b,
            _ => false,
        }
    }
}

impl vstd::std_specs::cmp::PartialEqSpecImpl for ResOperand {
    open spec fn obeys_eq_spec() -> bool {
        true
    }

    open spec fn eq_spec(&self, other: &Self) -> bool {
        self@ == other@
    }
}

impl Eq for ResOperand {

}

/// An operand that is a cell reference or a constant counts one word exactly
/// when it is a cell reference, and two words exactly when it is a constant.
pub proof fn lemma_deref_or_immediate_size(operand: DerefOrImmediateView)
    ensures
        operand.size() == 1 <==> operand is Deref,
        operand.size() == 2 <==> operand is Immediate,
{
}

/// An operation has the size of its right operand: one word when that is a
/// cell reference, two words when it is a constant, whatever the left operand
/// and the operation are.
pub proof fn lemma_bin_op_size(operands: BinOpOperandView)
    ensures
        ResOperandView::BinOp(operands).size() == operands.b.size(),
        ResOperandView::BinOp(operands).size() == 1 <==> operands.b is Deref,
        ResOperandView::BinOp(operands).size() == 2 <==> operands.b is Immediate,
{
}

/// Two operations whose right operands are of the same kind have the same
/// size, however their left operands differ.
pub proof fn lemma_bin_op_size_ignores_left(x: BinOpOperandView, y: BinOpOperandView)
    requires
        x.b is Deref <==> y.b is Deref,
    ensures
        ResOperandView::BinOp(x).size() == ResOperandView::BinOp(y).size(),
{
}

} // verus!
