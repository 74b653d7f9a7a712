//! The dynamic value model and how it is made from the wire representation.
//!
//! Floating-point numbers are carried as their IEEE-754 bit patterns: the
//! library moves them between representations and never computes with them.

use vstd::prelude::*;

verus! {

/// A value that can be bound to a statement or read back from a result column.
#[derive(Debug, PartialEq, Eq)]
pub enum DynamicValue {
    Null,
    Boolean(bool),
    Integer(i64),
    /// The bit pattern of a 64-bit float.
    Float(u64),
    Text(String),
    Binary(Vec<u8>),
}

/// The mathematical content of a [`DynamicValue`].
pub enum ValueModel {
    Null,
    Boolean(bool),
    Integer(i64),
    Float(u64),
    Text(Seq<char>),
    Binary(Seq<u8>),
}

impl View for DynamicValue {
    type V = ValueModel;

    open spec fn view(&self) -> ValueModel {
        match self {
            DynamicValue::Null => ValueModel::Null,
            DynamicValue::Boolean(b) => ValueModel::Boolean(*b),
            DynamicValue::Integer(i) => ValueModel::Integer(*i),
            DynamicValue::Float(bits) => ValueModel::Float(*bits),
            DynamicValue::Text(s) => ValueModel::Text(s@),
            DynamicValue::Binary(b) => ValueModel::Binary(b@),
        }
    }
}

impl Clone for DynamicValue {
    fn clone(&self) -> (r: DynamicValue)
        ensures
            r@ == self@,
    {
        match self {
            DynamicValue::Null => DynamicValue::Null,
            DynamicValue::Boolean(b) => DynamicValue::Boolean(*b),
            DynamicValue::Integer(i) => DynamicValue::Integer(*i),
            DynamicValue::Float(bits) => DynamicValue::Float(*bits),
            DynamicValue::Text(s) => DynamicValue::Text(s.clone()),
            DynamicValue::Binary(b) => DynamicValue::Binary(copy_bytes(b)),
        }
    }
}

/// A fresh vector with the bytes of `src`.
fn copy_bytes(src: &Vec<u8>) -> (dst: Vec<u8>)
    ensures
        dst@ == src@,
{
    let mut dst: Vec<u8> = Vec::new();
    let n: usize = src.len();
    let mut i: usize = 0;
    while i < n
        invariant
            i <= n,
            n == src@.len(),
            dst@ == src@.take(i as int),
        decreases n - i,
    {
        dst.push(src[i]);
        assert(dst@ =~= src@.take(i + 1));
        i += 1;
    }
    assert(src@.take(n as int) =~= src@);
    dst
}

/// A value as it arrives on the wire, after the transport has parsed it.
///
/// A number arrives as `Signed` when it fits a signed 64-bit integer, as
/// `Unsigned` when it is a non-negative integer, and as `Float` otherwise.
/// Arrays and objects arrive as `Structured`, holding their canonical text.
#[derive(Debug, PartialEq, Eq)]
pub enum WireValue {
    Null,
    Bool(bool),
    Signed(i64),
    Unsigned(u64),
    /// The bit pattern of a 64-bit float.
    Float(u64),
    Text(String),
    Structured(String),
}

/// The mathematical content of a [`WireValue`].
pub enum WireModel {
    Null,
    Bool(bool),
    Signed(i64),
    Unsigned(u64),
    Float(u64),
    Text(Seq<char>),
    Structured(Seq<char>),
}

impl View for WireValue {
    type V = WireModel;

    open spec fn view(&self) -> WireModel {
        match self {
            WireValue::Null => WireModel::Null,
            WireValue::Bool(b) => WireModel::Bool(*b),
            WireValue::Signed(i) => WireModel::Signed(*i),
            WireValue::Unsigned(u) => WireModel::Unsigned(*u),
            WireValue::Float(bits) => WireModel::Float(*bits),
            WireValue::Text(s) => WireModel::Text(s@),
            WireValue::Structured(s) => WireModel::Structured(s@),
        }
    }
}

/// The largest signed 64-bit integer.
pub open spec fn max_signed() -> int {
    0x7fff_ffff_ffff_ffff
}

/// An unsigned number as a signed one: itself where it fits, else the largest
/// signed value. The clamp is lossy by design.
pub open spec fn clamp_unsigned(u: u64) -> i64 {
    if u <= max_signed() {
        u as i64
    } else {
        max_signed() as i64
    }
}

/// The value that is bound for a wire value: scalars keep their kind, an
/// unsigned number is clamped into the signed range, and structured data is
/// bound as its text.
pub open spec fn bind_model(w: WireModel) -> ValueModel {
    match w {
        WireModel::Null => ValueModel::Null,
        WireModel::Bool(b) => ValueModel::Boolean(b),
        WireModel::Signed(i) => ValueModel::Integer(i),
        WireModel::Unsigned(u) => ValueModel::Integer(clamp_unsigned(u)),
        WireModel::Float(bits) => ValueModel::Float(bits),
        WireModel::Text(s) => ValueModel::Text(s),
        WireModel::Structured(s) => ValueModel::Text(s),
    }
}

/// Converts a wire value into the value to bind.
pub fn bind_value(v: &WireValue) -> (r: DynamicValue)
    ensures
        r@ == bind_model(v@),
{
    match v {
        WireValue::Null => DynamicValue::Null,
        WireValue::Bool(b) => DynamicValue::Boolean(*b),
        WireValue::Signed(i) => DynamicValue::Integer(*i),
        WireValue::Unsigned(u) => {
            if *u <= 0x7fff_ffff_ffff_ffff {
                DynamicValue::Integer(*u as i64)
            } else {
                DynamicValue::Integer(0x7fff_ffff_ffff_ffff)
            }
        },
        WireValue::Float(bits) => DynamicValue::Float(*bits),
        WireValue::Text(s) => DynamicValue::Text(s.clone()),
        WireValue::Structured(s) => DynamicValue::Text(s.clone()),
    }
}

/// The views of a sequence of values.
pub open spec fn value_models(v: Seq<DynamicValue>) -> Seq<ValueModel> {
    Seq::new(v.len(), |i: int| v[i]@)
}

/// Converts a list of wire values, in order.
pub fn bind_values(vs: &Vec<WireValue>) -> (r: Vec<DynamicValue>)
    ensures
        r@.len() == vs@.len(),
        forall|i: int| 0 <= i < vs@.len() ==> (#[trigger] r@[i])@ == bind_model(vs@[i]@),
{
    let mut r: Vec<DynamicValue> = Vec::new();
    let n: usize = vs.len();
    let mut i: usize = 0;
    while i < n
        invariant
            i <= n,
            n == vs@.len(),
            r@.len() == i,
            forall|j: int| 0 <= j < i ==> (#[trigger] r@[j])@ == bind_model(vs@[j]@),
        decreases n - i,
    {
        r.push(bind_value(&vs[i]));
        i += 1;
    }
    r
}

/// A parameter in the store's native types, ready to be bound to one
/// placeholder.
#[derive(Debug, PartialEq, Eq)]
pub enum NativeParam {
    /// The store's `NULL`.
    Null,
    Boolean(bool),
    /// A 64-bit signed integer.
    Integer(i64),
    /// A 64-bit float, as its bit pattern.
    Double(u64),
    Text(String),
    Blob(Vec<u8>),
}

/// The mathematical content of a [`NativeParam`].
pub enum NativeModel {
    Null,
    Boolean(bool),
    Integer(i64),
    Double(u64),
    Text(Seq<char>),
    Blob(Seq<u8>),
}

impl View for NativeParam {
    type V = NativeModel;

    open spec fn view(&self) -> NativeModel {
        match self {
            NativeParam::Null => NativeModel::Null,
            NativeParam::Boolean(b) => NativeModel::Boolean(*b),
            NativeParam::Integer(i) => NativeModel::Integer(*i),
            NativeParam::Double(bits) => NativeModel::Double(*bits),
            NativeParam::Text(s) => NativeModel::Text(s@),
            NativeParam::Blob(b) => NativeModel::Blob(b@),
        }
    }
}

/// The fixed mapping of the write path: each kind of value is bound as the
/// native type of the same kind, with its content unchanged.
pub open spec fn native_model(v: ValueModel) -> NativeModel {
    match v {
        ValueModel::Null => NativeModel::Null,
        ValueModel::Boolean(b) => NativeModel::Boolean(b),
        ValueModel::Integer(i) => NativeModel::Integer(i),
        ValueModel::Float(bits) => NativeModel::Double(bits),
        ValueModel::Text(s) => NativeModel::Text(s),
        ValueModel::Binary(b) => NativeModel::Blob(b),
    }
}

/// Turns a value into the native parameter to bind.
pub fn bind(v: DynamicValue) -> (p: NativeParam)
    ensures
        p@ == native_model(v@),
{
    match v {
        DynamicValue::Null => NativeParam::Null,
        DynamicValue::Boolean(b) => NativeParam::Boolean(b),
        DynamicValue::Integer(i) => NativeParam::Integer(i),
        DynamicValue::Float(bits) => NativeParam::Double(bits),
        DynamicValue::Text(s) => NativeParam::Text(s),
        DynamicValue::Binary(b) => NativeParam::Blob(b),
    }
}

/// Binding is lossless: values of different content are never bound as the
/// same native parameter.
pub proof fn lemma_bind_is_injective(a: ValueModel, b: ValueModel)
    requires
        native_model(a) == native_model(b),
    ensures
        a == b,
{
}

} // verus!
