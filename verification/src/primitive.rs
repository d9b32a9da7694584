//! The untyped values of a content stream, as the tokenizer hands them over.

use crate::number::binary32_of_int;
use crate::number::Real;
use vstd::prelude::*;

verus! {

/// One untyped PDF value. Operands of an instruction are values of this type.
#[derive(Debug, PartialEq)]
pub enum Primitive {
    Null,
    Integer(i32),
    Number(Real),
    Boolean(bool),
    /// A byte string; what text it holds depends on the font in effect.
    String(Vec<u8>),
    /// A stream: its dictionary, entry by entry, and its raw data.
    Stream { info: Vec<(String, Primitive)>, data: Vec<u8> },
    /// A dictionary, entry by entry in key order.
    Dictionary(Vec<(String, Primitive)>),
    Array(Vec<Primitive>),
    /// An indirect reference: object number and generation.
    Reference { id: u64, generation: u16 },
    Name(String),
}

/// Mathematical model of a [`Primitive`].
pub enum PrimitiveView {
    Null,
    Integer(i32),
    Number(Real),
    Boolean(bool),
    String(Seq<u8>),
    Stream { info: Seq<(Seq<char>, PrimitiveView)>, data: Seq<u8> },
    Dictionary(Seq<(Seq<char>, PrimitiveView)>),
    Array(Seq<PrimitiveView>),
    Reference { id: u64, generation: u16 },
    Name(Seq<char>),
}

/// Model of a list of dictionary entries.
pub open spec fn entries_view(entries: Vec<(String, Primitive)>) -> Seq<(Seq<char>, PrimitiveView)>
    decreases entries,
{
    Seq::new(
        entries.len() as nat,
        |i: int|
            if 0 <= i < entries.len() {
                (entries[i].0@, entries[i].1@)
            } else {
                (Seq::empty(), PrimitiveView::Null)
            },
    )
}

/// Model of a list of values.
pub open spec fn values_view(values: Vec<Primitive>) -> Seq<PrimitiveView>
    decreases values,
{
    Seq::new(
        values.len() as nat,
        |i: int|
            if 0 <= i < values.len() {
                values[i]@
            } else {
                PrimitiveView::Null
            },
    )
}

impl View for Primitive {
    type V = PrimitiveView;

    open spec fn view(&self) -> PrimitiveView
        decreases self,
    {
        match self {
            Primitive::Null => PrimitiveView::Null,
            Primitive::Integer(i) => PrimitiveView::Integer(*i),
            Primitive::Number(r) => PrimitiveView::Number(*r),
            Primitive::Boolean(b) => PrimitiveView::Boolean(*b),
            Primitive::String(data) => PrimitiveView::String(data@),
            Primitive::Stream { info, data } => PrimitiveView::Stream {
                info: entries_view(*info),
                data: data@,
            },
            Primitive::Dictionary(entries) => PrimitiveView::Dictionary(entries_view(*entries)),
            Primitive::Array(values) => PrimitiveView::Array(values_view(*values)),
            Primitive::Reference { id, generation } => PrimitiveView::Reference {
                id: *id,
                generation: *generation,
            },
            Primitive::Name(name) => PrimitiveView::Name(name@),
        }
    }
}

/// A copy of a list of dictionary entries.
fn copy_entries(entries: &Vec<(String, Primitive)>) -> (r: Vec<(String, Primitive)>)
    ensures
        entries_view(r) == entries_view(*entries),
    decreases entries,
{
    let mut out: Vec<(String, Primitive)> = Vec::new();
    let mut k: usize = 0;
    while k < entries.len()
        invariant
            k <= entries.len(),
            out@.len() == k,
            forall|i: int| 0 <= i < k ==> out@[i].0@ == entries@[i].0@ && out@[i].1@ == entries@[i].1@,
        decreases entries.len() - k,
    {
        let key: String = entries[k].0.clone();
        let value: Primitive = entries[k].1.clone();
        out.push((key, value));
        k = k + 1;
    }
    out
}

/// A copy of a list of values.
fn copy_values(values: &Vec<Primitive>) -> (r: Vec<Primitive>)
    ensures
        values_view(r) == values_view(*values),
    decreases values,
{
    let mut out: Vec<Primitive> = Vec::new();
    let mut k: usize = 0;
    while k < values.len()
        invariant
            k <= values.len(),
            out@.len() == k,
            forall|i: int| 0 <= i < k ==> out@[i]@ == values@[i]@,
        decreases values.len() - k,
    {
        let value: Primitive = values[k].clone();
        out.push(value);
        k = k + 1;
    }
    out
}

impl Clone for Primitive {
    /// A copy with the same model, nested values included.
    fn clone(&self) -> (r: Primitive)
        ensures
            r@ == self@,
        decreases self,
    {
        match self {
            Primitive::Null => Primitive::Null,
            Primitive::Integer(i) => Primitive::Integer(*i),
            Primitive::Number(x) => Primitive::Number(*x),
            Primitive::Boolean(b) => Primitive::Boolean(*b),
            Primitive::String(data) => Primitive::String(data.clone()),
            Primitive::Stream { info, data } => Primitive::Stream {
                info: copy_entries(info),
                data: data.clone(),
            },
            Primitive::Dictionary(entries) => Primitive::Dictionary(copy_entries(entries)),
            Primitive::Array(values) => Primitive::Array(copy_values(values)),
            Primitive::Reference { id, generation } => Primitive::Reference {
                id: *id,
                generation: *generation,
            },
            Primitive::Name(name) => Primitive::Name(name.clone()),
        }
    }
}

/// Model of a slice of operands: the model of each, in order.
pub open spec fn operands_view(operands: Seq<Primitive>) -> Seq<PrimitiveView> {
    Seq::new(operands.len(), |i: int| operands[i]@)
}

/// A list of values and the same values as a slice have one model.
pub proof fn lemma_values_view(values: Vec<Primitive>)
    ensures
        values_view(values) == operands_view(values@),
{
}

/// The number a value stands for: an integer widened to the nearest
/// single-precision number, a real as it is, nothing for any other value.
pub open spec fn number_of(p: PrimitiveView) -> Option<Real> {
    match p {
        PrimitiveView::Integer(i) => Some(Real { bits: binary32_of_int(i as int) as u32 }),
        PrimitiveView::Number(r) => Some(r),
        _ => None,
    }
}

/// Whether a value is an integer or a real.
pub open spec fn is_number(p: PrimitiveView) -> bool {
    p is Integer || p is Number
}

/// Whether every value of a list is an integer or a real.
pub open spec fn all_numbers(xs: Seq<PrimitiveView>) -> bool {
    forall|i: int| 0 <= i < xs.len() ==> is_number(#[trigger] xs[i])
}

/// The numbers a list of numeric values stands for, in order.
pub open spec fn numbers_of(xs: Seq<PrimitiveView>) -> Seq<Real> {
    Seq::new(xs.len(), |i: int| number_of(xs[i]).unwrap())
}

impl Primitive {
    /// The value as a number: `Some` for an integer or a real, `None` otherwise.
    pub fn try_to_f(&self) -> (r: Option<Real>)
        ensures
            r == number_of(self@),
    {
        match self {
            Primitive::Integer(i) => Some(Real::from_i32(*i)),
            Primitive::Number(f) => Some(*f),
            _ => None,
        }
    }
}

/// The numbers of a list of operands, if every one is an integer or a real.
///
/// This is the general rule for a homogeneous numeric tuple or array: one
/// value of any other type and the whole list is refused.
pub fn numbers(operands: &[Primitive]) -> (r: Option<Vec<Real>>)
    ensures
        r is Some <==> all_numbers(operands_view(operands@)),
        r matches Some(v) ==> v@ == numbers_of(operands_view(operands@)),
{
    let ghost xs = operands_view(operands@);
    let mut out: Vec<Real> = Vec::new();
    let mut k: usize = 0;
    while k < operands.len()
        invariant
            k <= operands.len(),
            xs == operands_view(operands@),
            out@.len() == k,
            forall|i: int| 0 <= i < k ==> is_number(#[trigger] xs[i]),
            forall|i: int| 0 <= i < k ==> Some(#[trigger] out@[i]) == number_of(xs[i]),
        decreases operands.len() - k,
    {
        match operands[k].try_to_f() {
            Some(value) => {
                out.push(value);
            },
            None => {
                assert(!is_number(xs[k as int]));
                return None;
            },
        }
        k = k + 1;
    }
    Some(out)
}

/// One instruction of a content stream: an operator name and the operands
/// that stood in front of it.
#[derive(Debug, PartialEq)]
pub struct Instruction {
    pub operator: String,
    pub operands: Vec<Primitive>,
}

/// Mathematical model of an [`Instruction`].
pub struct InstructionView {
    pub operator: Seq<char>,
    pub operands: Seq<PrimitiveView>,
}

impl View for Instruction {
    type V = InstructionView;

    open spec fn view(&self) -> InstructionView {
        InstructionView { operator: self.operator@, operands: operands_view(self.operands@) }
    }
}

impl Clone for Instruction {
    /// A copy with the same model.
    fn clone(&self) -> (r: Instruction)
        ensures
            r@ == self@,
    {
        let operands: Vec<Primitive> = copy_values(&self.operands);
        proof {
            lemma_values_view(operands);
            lemma_values_view(self.operands);
        }
        Instruction { operator: self.operator.clone(), operands }
    }
}

} // verus!
