//! The read path of the value marshaller.
//!
//! A result column arrives with no schema. The caller reads it from the store;
//! this module decides, after each read, what to read next or what the
//! column's value is. A null column is settled by the raw read alone, before
//! any typed read. Otherwise the typed reads are tried in a fixed order
//! (integer, float, text, binary) and the first that succeeds gives the value;
//! a column that none of them can read becomes `Null`.
//!
//! Binary values have no wire form of their own: on the way out they are
//! written as base64 text.

use vstd::prelude::*;
use crate::value::{DynamicValue, ValueModel, WireModel, WireValue};

verus! {

/// A read that the caller is asked to perform on a column.
#[derive(Clone, Copy, Debug, PartialEq, Eq)]
pub enum ReadStep {
    /// Fetch the raw value and test it for null.
    Raw,
    Integer,
    Float,
    Text,
    Binary,
}

/// What a read gave.
#[derive(Debug, PartialEq, Eq)]
pub enum ReadEvent {
    /// The read failed: the raw value could not be fetched, or the column
    /// does not hold the type that was asked for.
    Failed,
    /// The raw value is null.
    Null,
    /// The raw value is present and not null.
    Present,
    Integer(i64),
    /// The bit pattern of the 64-bit float that was read.
    Float(u64),
    Text(String),
    Binary(Vec<u8>),
}

/// Where the decoding of a column stands after a read.
#[derive(Debug, PartialEq, Eq)]
pub enum ReadProgress {
    /// The value is not settled yet: perform this read next.
    Attempt(ReadStep),
    /// The column's value.
    Done(DynamicValue),
}

/// The mathematical content of a [`ReadEvent`].
pub enum EventModel {
    Failed,
    Null,
    Present,
    Integer(i64),
    Float(u64),
    Text(Seq<char>),
    Binary(Seq<u8>),
}

/// The mathematical content of a [`ReadProgress`].
pub enum ProgressModel {
    Attempt(ReadStep),
    Done(ValueModel),
}

impl View for ReadEvent {
    type V = EventModel;

    open spec fn view(&self) -> EventModel {
        match self {
            ReadEvent::Failed => EventModel::Failed,
            ReadEvent::Null => EventModel::Null,
            ReadEvent::Present => EventModel::Present,
            ReadEvent::Integer(i) => EventModel::Integer(*i),
            ReadEvent::Float(bits) => EventModel::Float(*bits),
            ReadEvent::Text(s) => EventModel::Text(s@),
            ReadEvent::Binary(b) => EventModel::Binary(b@),
        }
    }
}

impl View for ReadProgress {
    type V = ProgressModel;

    open spec fn view(&self) -> ProgressModel {
        match self {
            ReadProgress::Attempt(step) => ProgressModel::Attempt(*step),
            ReadProgress::Done(v) => ProgressModel::Done(v@),
        }
    }
}

/// What follows a read that gave nothing usable: the next typed read in the
/// probe order, or `Null` once the order is exhausted. A raw read that fails
/// settles the column as `Null` at once.
pub open spec fn after_failure(step: ReadStep) -> ProgressModel {
    match step {
        ReadStep::Raw => ProgressModel::Done(ValueModel::Null),
        ReadStep::Integer => ProgressModel::Attempt(ReadStep::Float),
        ReadStep::Float => ProgressModel::Attempt(ReadStep::Text),
        ReadStep::Text => ProgressModel::Attempt(ReadStep::Binary),
        ReadStep::Binary => ProgressModel::Done(ValueModel::Null),
    }
}

/// The decision after `step` gave `event`.
///
/// A null raw value settles the column; a present one opens the typed reads.
/// A typed read that gave a value of its own type settles the column with that
/// value. Anything else counts as a failure of the step.
pub open spec fn step_model(step: ReadStep, event: EventModel) -> ProgressModel {
    match (step, event) {
        (ReadStep::Raw, EventModel::Null) => ProgressModel::Done(ValueModel::Null),
        (ReadStep::Raw, EventModel::Present) => ProgressModel::Attempt(ReadStep::Integer),
        (ReadStep::Integer, EventModel::Integer(i)) => ProgressModel::Done(ValueModel::Integer(i)),
        (ReadStep::Float, EventModel::Float(bits)) => ProgressModel::Done(ValueModel::Float(bits)),
        (ReadStep::Text, EventModel::Text(s)) => ProgressModel::Done(ValueModel::Text(s)),
        (ReadStep::Binary, EventModel::Binary(b)) => ProgressModel::Done(ValueModel::Binary(b)),
        _ => after_failure(step),
    }
}

/// The read that opens the decoding of every column.
pub fn first_step() -> (step: ReadStep)
    ensures
        step == ReadStep::Raw,
{
    ReadStep::Raw
}

fn fall_through(step: ReadStep) -> (r: ReadProgress)
    ensures
        r@ == after_failure(step),
{
    match step {
        ReadStep::Raw => ReadProgress::Done(DynamicValue::Null),
        ReadStep::Integer => ReadProgress::Attempt(ReadStep::Float),
        ReadStep::Float => ReadProgress::Attempt(ReadStep::Text),
        ReadStep::Text => ReadProgress::Attempt(ReadStep::Binary),
        ReadStep::Binary => ReadProgress::Done(DynamicValue::Null),
    }
}

/// Decides what follows after the read `step` gave `event`.
pub fn marshal_step(step: ReadStep, event: ReadEvent) -> (r: ReadProgress)
    ensures
        r@ == step_model(step, event@),
{
    match (step, event) {
        (ReadStep::Raw, ReadEvent::Null) => ReadProgress::Done(DynamicValue::Null),
        (ReadStep::Raw, ReadEvent::Present) => ReadProgress::Attempt(ReadStep::Integer),
        (ReadStep::Integer, ReadEvent::Integer(i)) => ReadProgress::Done(DynamicValue::Integer(i)),
        (ReadStep::Float, ReadEvent::Float(bits)) => ReadProgress::Done(DynamicValue::Float(bits)),
        (ReadStep::Text, ReadEvent::Text(s)) => ReadProgress::Done(DynamicValue::Text(s)),
        (ReadStep::Binary, ReadEvent::Binary(b)) => ReadProgress::Done(DynamicValue::Binary(b)),
        (step, _) => fall_through(step),
    }
}

/// What the raw read of a column gave.
#[derive(Clone, Copy, Debug, PartialEq, Eq)]
pub enum RawRead {
    /// The raw value could not be fetched.
    Failed,
    /// The raw value is null.
    Null,
    /// The raw value is present and not null.
    Present,
}

/// The event that stands for the outcome of a raw read.
pub open spec fn raw_event(raw: RawRead) -> EventModel {
    match raw {
        RawRead::Failed => EventModel::Failed,
        RawRead::Null => EventModel::Null,
        RawRead::Present => EventModel::Present,
    }
}

/// The outcomes of all five reads of one column, for a store that can give
/// them at once.
pub struct ColumnReads {
    pub raw: RawRead,
    pub integer: Option<i64>,
    /// The bit pattern of the float, where the column reads as one.
    pub float: Option<u64>,
    pub text: Option<String>,
    pub binary: Option<Vec<u8>>,
}

/// The event that the read `step` gives on a column with the reads `c`.
pub open spec fn event_of(c: ColumnReads, step: ReadStep) -> EventModel {
    match step {
        ReadStep::Raw => raw_event(c.raw),
        ReadStep::Integer => match c.integer {
            Some(i) => EventModel::Integer(i),
            None => EventModel::Failed,
        },
        ReadStep::Float => match c.float {
            Some(bits) => EventModel::Float(bits),
            None => EventModel::Failed,
        },
        ReadStep::Text => match c.text {
            Some(s) => EventModel::Text(s@),
            None => EventModel::Failed,
        },
        ReadStep::Binary => match c.binary {
            Some(b) => EventModel::Binary(b@),
            None => EventModel::Failed,
        },
    }
}

/// How many reads can still follow `step`.
pub open spec fn reads_left(step: ReadStep) -> nat {
    match step {
        ReadStep::Raw => 4,
        ReadStep::Integer => 3,
        ReadStep::Float => 2,
        ReadStep::Text => 1,
        ReadStep::Binary => 0,
    }
}

/// The value that the decoding settles on when it is run from `step` on a
/// column with the reads `c`.
pub open spec fn run_from(c: ColumnReads, step: ReadStep) -> ValueModel
    decreases reads_left(step),
{
    match step_model(step, event_of(c, step)) {
        ProgressModel::Done(v) => v,
        ProgressModel::Attempt(next) => if reads_left(next) < reads_left(step) {
            run_from(c, next)
        } else {
            ValueModel::Null
        },
    }
}

/// The value of a column by the probe order, stated directly: `Null` unless
/// the raw value is present, then the first typed read that succeeded, in the
/// order integer, float, text, binary, and `Null` where none did.
pub open spec fn marshal_model(c: ColumnReads) -> ValueModel {
    if !(c.raw is Present) {
        ValueModel::Null
    } else if let Some(i) = c.integer {
        ValueModel::Integer(i)
    } else if let Some(bits) = c.float {
        ValueModel::Float(bits)
    } else if let Some(s) = c.text {
        ValueModel::Text(s@)
    } else if let Some(b) = c.binary {
        ValueModel::Binary(b@)
    } else {
        ValueModel::Null
    }
}

/// Decodes a column from the outcomes of all its reads.
pub fn marshal_back(c: ColumnReads) -> (v: DynamicValue)
    ensures
        v@ == marshal_model(c),
{
    match c.raw {
        RawRead::Present => {},
        _ => {
            return DynamicValue::Null;
        },
    }
    if let Some(i) = c.integer {
        DynamicValue::Integer(i)
    } else if let Some(bits) = c.float {
        DynamicValue::Float(bits)
    } else if let Some(s) = c.text {
        DynamicValue::Text(s)
    } else if let Some(b) = c.binary {
        DynamicValue::Binary(b)
    } else {
        DynamicValue::Null
    }
}

/// A null raw value settles the column as `Null` with no typed read: the
/// decision after the raw read is final, whatever the typed reads would give.
pub proof fn lemma_null_needs_no_typed_read(c: ColumnReads)
    requires
        c.raw is Null,
    ensures
        step_model(ReadStep::Raw, raw_event(c.raw)) == ProgressModel::Done(ValueModel::Null),
        run_from(c, ReadStep::Raw) == ValueModel::Null,
        marshal_model(c) == ValueModel::Null,
{
}

/// Driving the decoding read by read from the raw read settles on the value
/// that the probe order gives.
pub proof fn lemma_steps_follow_probe_order(c: ColumnReads)
    ensures
        run_from(c, ReadStep::Raw) == marshal_model(c),
{
    reveal_with_fuel(run_from, 6);
}

/// The text that `base64`'s standard engine (the RFC 4648 alphabet, padded
/// with `=`) gives for a byte sequence.
pub uninterp spec fn base64_standard(bytes: Seq<u8>) -> Seq<char>;

/// Whether the base64 text of `n` bytes, four characters for every three
/// bytes begun, has a length that fits the machine's address range.
pub open spec fn encodable(n: nat) -> bool {
    n / 3 * 4 + 4 <= usize::MAX
}

/// Encodes bytes as base64 by calling `Engine::encode` of the `base64` crate
/// on its `STANDARD` engine. Trusted: the result is the crate's encoding of
/// exactly these bytes, a function of the bytes alone. The crate panics where
/// the encoded length overflows `usize`; such inputs are ruled out.
#[verifier::external_body]
fn encode_base64(bytes: &Vec<u8>) -> (text: String)
    requires
        encodable(bytes@.len()),
    ensures
        text@ == base64_standard(bytes@),
{
    base64::Engine::encode(&base64::engine::general_purpose::STANDARD, bytes)
}

/// The outward form of a value: scalars and text keep their kind, binary
/// becomes its base64 text. A binary value too long for its base64 text to
/// fit the address range has no outward form and becomes `Null`.
pub open spec fn wire_model(v: ValueModel) -> WireModel {
    match v {
        ValueModel::Null => WireModel::Null,
        ValueModel::Boolean(b) => WireModel::Bool(b),
        ValueModel::Integer(i) => WireModel::Signed(i),
        ValueModel::Float(bits) => WireModel::Float(bits),
        ValueModel::Text(s) => WireModel::Text(s),
        ValueModel::Binary(b) => if encodable(b.len()) {
            WireModel::Text(base64_standard(b))
        } else {
            WireModel::Null
        },
    }
}

/// Converts a value into its outward form.
pub fn to_wire(v: &DynamicValue) -> (w: WireValue)
    ensures
        w@ == wire_model(v@),
{
    match v {
        DynamicValue::Null => WireValue::Null,
        DynamicValue::Boolean(b) => WireValue::Bool(*b),
        DynamicValue::Integer(i) => WireValue::Signed(*i),
        DynamicValue::Float(bits) => WireValue::Float(*bits),
        DynamicValue::Text(s) => WireValue::Text(s.clone()),
        DynamicValue::Binary(b) => {
            if b.len() / 3 <= (usize::MAX - 4) / 4 {
                WireValue::Text(encode_base64(b))
            } else {
                WireValue::Null
            }
        },
    }
}

/// One row of a select: column names as the store gave them, each with its
/// value, in the store's column order.
#[derive(Debug, PartialEq, Eq)]
pub struct ResultRow {
    pub columns: Vec<(String, DynamicValue)>,
}

/// Converts a row into its outward form, keeping names and order.
pub fn row_to_wire(row: &ResultRow) -> (out: Vec<(String, WireValue)>)
    ensures
        out@.len() == row.columns@.len(),
        forall|i: int|
            0 <= i < out@.len() ==> (#[trigger] out@[i]).0@ == row.columns@[i].0@ && out@[i].1@
                == wire_model(row.columns@[i].1@),
{
    let mut out: Vec<(String, WireValue)> = Vec::new();
    let n: usize = row.columns.len();
    let mut i: usize = 0;
    while i < n
        invariant
            i <= n,
            n == row.columns@.len(),
            out@.len() == i,
            forall|j: int|
                0 <= j < i ==> (#[trigger] out@[j]).0@ == row.columns@[j].0@ && out@[j].1@
                    == wire_model(row.columns@[j].1@),
        decreases n - i,
    {
        out.push((row.columns[i].0.clone(), to_wire(&row.columns[i].1)));
        i += 1;
    }
    out
}

} // verus!
