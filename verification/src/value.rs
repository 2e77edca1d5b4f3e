//! Scalar value marshaling.
//!
//! The engine's scalar values arrive as a tagged union; a slice of them is
//! either owned — its backing array must be freed exactly once — or
//! borrowed from the engine inside a callback and never freed.  Display
//! conversion is type-directed, with fixed placeholders for the
//! structural kinds that have no printable value.  The engine's native
//! boolean field is inverted relative to the intuitive mapping (zero for
//! true); the encoding here reproduces the convention the engine
//! observes, and decoding inverts it back, so a boolean round-trips
//! unchanged.

use vstd::prelude::*;

use crate::engine::Engine;

verus! {

/// One scalar value read from a data node.
#[derive(Clone, Debug, PartialEq, Eq)]
pub enum DataValue {
    /// A boolean leaf.
    Bool(bool),
    /// An 8-bit signed integer leaf.
    Int8(i8),
    /// A 16-bit signed integer leaf.
    Int16(i16),
    /// A 32-bit signed integer leaf.
    Int32(i32),
    /// A 64-bit signed integer leaf.
    Int64(i64),
    /// An 8-bit unsigned integer leaf.
    Uint8(u8),
    /// A 16-bit unsigned integer leaf.
    Uint16(u16),
    /// A 32-bit unsigned integer leaf.
    Uint32(u32),
    /// A 64-bit unsigned integer leaf.
    Uint64(u64),
    /// Any other value kind, carried as its canonical text.
    Other(String),
    /// A leaf of the empty type.
    Empty,
}

/// The schema kind of a data node, for nodes that carry no scalar value.
#[derive(Clone, Copy, Debug, PartialEq, Eq, Structural)]
pub enum SchemaNodeKind {
    /// A container node.
    Container,
    /// A choice node.
    Choice,
    /// A case node.
    Case,
    /// A leaf node.
    Leaf,
    /// A leaf-list node.
    LeafList,
    /// A list node.
    List,
    /// An any-data node.
    AnyData,
    /// An any-XML node.
    AnyXml,
    /// An RPC node.
    Rpc,
    /// An action node.
    Action,
    /// A notification node.
    Notification,
}

/// The decimal digit character for `d`.
pub open spec fn spec_digit_char(d: int) -> char
    recommends
        0 <= d <= 9,
{
    ((48 + d) as u8) as char
}

/// The decimal digits of a non-negative number, most significant first.
pub open spec fn spec_udecimal(n: nat) -> Seq<char>
    decreases n,
{
    if n < 10 {
        seq![spec_digit_char(n as int)]
    } else {
        spec_udecimal(n / 10).push(spec_digit_char((n % 10) as int))
    }
}

/// The decimal rendering of an integer: a leading minus sign for a
/// negative one, then the digits.
pub open spec fn spec_decimal(i: int) -> Seq<char> {
    if i < 0 {
        seq!['-'] + spec_udecimal((-i) as nat)
    } else {
        spec_udecimal(i as nat)
    }
}

/// Relies on the standard decimal `Display` formatting of `u64`: the
/// result is the number's decimal digits, most significant first, with no
/// sign and no padding.
#[verifier::external_body]
fn u64_to_string(n: u64) -> (s: String)
    ensures
        s@ == spec_udecimal(n as nat),
{
    format!("{}", n)
}

/// Relies on the standard decimal `Display` formatting of `i64`: the
/// result is a minus sign for a negative number followed by the decimal
/// digits, most significant first, with no padding.
#[verifier::external_body]
fn i64_to_string(n: i64) -> (s: String)
    ensures
        s@ == spec_decimal(n as int),
{
    format!("{}", n)
}

/// The display text of one scalar value.
pub open spec fn spec_value_display(v: DataValue) -> Seq<char> {
    match v {
        DataValue::Bool(b) => if b {
            "true"@
        } else {
            "false"@
        },
        DataValue::Int8(i) => spec_decimal(i as int),
        DataValue::Int16(i) => spec_decimal(i as int),
        DataValue::Int32(i) => spec_decimal(i as int),
        DataValue::Int64(i) => spec_decimal(i as int),
        DataValue::Uint8(u) => spec_udecimal(u as nat),
        DataValue::Uint16(u) => spec_udecimal(u as nat),
        DataValue::Uint32(u) => spec_udecimal(u as nat),
        DataValue::Uint64(u) => spec_udecimal(u as nat),
        DataValue::Other(s) => s@,
        DataValue::Empty => "(empty leaf)"@,
    }
}

/// The display text of a data node: its scalar value's text when it has
/// one, otherwise a fixed placeholder chosen by the node's schema kind.
pub open spec fn spec_node_display(v: Option<DataValue>, kind: SchemaNodeKind) -> Seq<char> {
    match v {
        Option::Some(val) => spec_value_display(val),
        Option::None => match kind {
            SchemaNodeKind::Container => "(container)"@,
            SchemaNodeKind::List => "(list instance)"@,
            _ => "(unprintable)"@,
        },
    }
}

/// Renders one scalar value as text, type-directed.
pub fn value_display(v: DataValue) -> (s: String)
    ensures
        s@ == spec_value_display(v),
{
    match v {
        DataValue::Bool(b) => if b {
            "true".to_owned()
        } else {
            "false".to_owned()
        },
        DataValue::Int8(i) => i64_to_string(i as i64),
        DataValue::Int16(i) => i64_to_string(i as i64),
        DataValue::Int32(i) => i64_to_string(i as i64),
        DataValue::Int64(i) => i64_to_string(i),
        DataValue::Uint8(u) => u64_to_string(u as u64),
        DataValue::Uint16(u) => u64_to_string(u as u64),
        DataValue::Uint32(u) => u64_to_string(u as u64),
        DataValue::Uint64(u) => u64_to_string(u),
        DataValue::Other(s) => s,
        DataValue::Empty => "(empty leaf)".to_owned(),
    }
}

/// Renders a data node as text: its value's text when it has one,
/// otherwise the placeholder for its schema kind — "(container)" for a
/// container, "(list instance)" for a list, "(unprintable)" for anything
/// else without a value.
pub fn node_display(v: Option<DataValue>, kind: SchemaNodeKind) -> (s: String)
    ensures
        s@ == spec_node_display(v, kind),
{
    match v {
        Option::Some(val) => value_display(val),
        Option::None => match kind {
            SchemaNodeKind::Container => "(container)".to_owned(),
            SchemaNodeKind::List => "(list instance)".to_owned(),
            _ => "(unprintable)".to_owned(),
        },
    }
}

/// The suffix a default-valued node's display line carries.
pub fn default_suffix(is_default: bool) -> (s: &'static str)
    ensures
        is_default ==> s@ == " [default]"@,
        !is_default ==> s@ == ""@,
{
    if is_default {
        " [default]"
    } else {
        ""
    }
}

/// The engine's native boolean field for a boolean value.  The convention
/// is inverted relative to the intuitive one: zero stands for true.
pub open spec fn spec_encode_bool(b: bool) -> u8 {
    if b {
        0
    } else {
        1
    }
}

/// The boolean a native boolean field stands for, inverting the engine's
/// convention back: zero is true, anything else is false.
pub open spec fn spec_decode_bool(v: u8) -> bool {
    v == 0
}

/// Encodes a boolean into the engine's native field, observing the
/// engine's inverted convention.
pub fn encode_bool_native(b: bool) -> (r: u8)
    ensures
        r == spec_encode_bool(b),
{
    if b {
        0
    } else {
        1
    }
}

/// Decodes the engine's native boolean field.
pub fn decode_bool_native(v: u8) -> (b: bool)
    ensures
        b == spec_decode_bool(v),
{
    v == 0
}

/// A boolean survives the round trip through the engine's native
/// representation: however the engine's convention is oriented, decoding
/// what was encoded gives the original value back.
pub proof fn lemma_bool_native_round_trip(b: bool)
    ensures
        spec_decode_bool(spec_encode_bool(b)) == b,
{
}

/// One release of a value slice: the backing array is freed exactly once
/// when the slice owns it, and never when it is borrowed; nothing else in
/// the ledger moves either way.
pub open spec fn slice_release_step(pre: Engine, post: Engine, owned: bool) -> bool {
    &&& post.frees.value_frees == pre.frees.value_frees + (if owned {
        1int
    } else {
        0int
    })
    &&& post.frees.data_releases == pre.frees.data_releases
    &&& post.frees.iter_frees == pre.frees.iter_frees
    &&& post.next_id == pre.next_id
    &&& post.ctx == pre.ctx
    &&& post.teardown == pre.teardown
    &&& post.live == pre.live
    &&& post.wire == pre.wire
}

/// One or more scalar values, with the ownership of their backing array.
///
/// An owned slice must free the array exactly once;
/// [`ValueSlice::release`] consumes the value, so a second free cannot be
/// written.  A borrowed slice — the form handed to callbacks over
/// engine-owned memory — never frees.
pub struct ValueSlice {
    /// The values.
    pub values: Vec<DataValue>,
    /// Whether this slice owns the backing array.
    pub owned: bool,
}

impl ValueSlice {
    /// A slice owning its backing array: releasing it will free once.
    pub fn owned_from(values: Vec<DataValue>) -> (s: ValueSlice)
        ensures
            s.values == values,
            s.owned,
    {
        ValueSlice { values, owned: true }
    }

    /// A slice borrowing engine-owned memory: releasing it frees nothing.
    pub fn borrowed_from(values: Vec<DataValue>) -> (s: ValueSlice)
        ensures
            s.values == values,
            !s.owned,
    {
        ValueSlice { values, owned: false }
    }

    /// How many values the slice holds.
    pub fn len(&self) -> (n: usize)
        ensures
            n == self.values@.len(),
    {
        self.values.len()
    }

    /// Gives the slice back: the backing array is freed exactly once if
    /// owned, and never if borrowed.
    pub fn release(self, engine: &mut Engine)
        requires
            old(engine).frees.value_frees < u64::MAX,
        ensures
            slice_release_step(*old(engine), *final(engine), self.owned),
    {
        if self.owned {
            engine.frees.value_frees = engine.frees.value_frees + 1;
        }
    }
}

/// An owned slice's array is freed exactly once, and a borrowed slice's
/// never: the one permitted release moves the free count by one exactly
/// when the slice was owned, and touches nothing else.
pub proof fn lemma_slice_freed_exactly_when_owned(e0: Engine, e1: Engine, owned: bool)
    requires
        slice_release_step(e0, e1, owned),
    ensures
        owned ==> e1.frees.value_frees == e0.frees.value_frees + 1,
        !owned ==> e1.frees.value_frees == e0.frees.value_frees,
        e1.frees.data_releases == e0.frees.data_releases,
        e1.live == e0.live,
        e1.ctx == e0.ctx,
{
}

} // verus!
