use vstd::prelude::*;
use vstd::string::StrSliceExecFns;

use crate::allowed_type::{AllowedType, AllowedTypeMarker, ScalarView};

verus! {

/// An integer held by a document, as a sign and a magnitude, so that every
/// value from `-u128::MAX` to `u128::MAX` can be held.
#[derive(Debug, Clone, Copy, PartialEq, Eq, Structural)]
pub struct Integer {
    pub negative: bool,
    pub magnitude: u128,
}

impl Integer {
    /// The integer this sign and magnitude stand for (a negative zero is zero).
    pub open spec fn value(self) -> int {
        if self.negative {
            -(self.magnitude as int)
        } else {
            self.magnitude as int
        }
    }

    /// The value as a `u128`, where it is not negative.
    pub fn to_u128(&self) -> (r: Option<u128>)
        ensures
            r is Some <==> 0 <= self.value(),
            r matches Some(u) ==> u as int == self.value(),
    {
        if !self.negative || self.magnitude == 0 {
            Some(self.magnitude)
        } else {
            None
        }
    }

    /// The value as an `i128`, where it lies in that type's range.
    pub fn to_i128(&self) -> (r: Option<i128>)
        ensures
            r is Some <==> i128::MIN <= self.value() <= i128::MAX,
            r matches Some(x) ==> x as int == self.value(),
    {
        if !self.negative {
            if self.magnitude <= i128::MAX as u128 {
                Some(self.magnitude as i128)
            } else {
                None
            }
        } else if self.magnitude <= i128::MAX as u128 {
            Some(-(self.magnitude as i128))
        } else if self.magnitude == i128::MAX as u128 + 1 {
            Some(i128::MIN)
        } else {
            None
        }
    }
}

/// A floating-point number held by a document, as IEEE-754 bit patterns: the
/// number as an `f64`, and the same number narrowed to an `f32`.
#[derive(Debug, Clone, Copy, PartialEq, Eq, Structural)]
pub struct FloatBits {
    pub f64_bits: u64,
    pub f32_bits: u32,
}

/// A top-level value of a document, reduced to what coercion reads.
///
/// A number carries its integer value where the backend reads it as an
/// integer, and its floating-point value where the backend reads it as a
/// float; a JSON integer has both, a TOML integer only the first.
#[derive(Debug, Clone, PartialEq, Eq)]
pub enum Node {
    Str(String),
    Bool(bool),
    Number { integer: Option<Integer>, float: Option<FloatBits> },
    /// Null, arrays, tables and anything else no scalar is read from.
    Other,
}

/// The mathematical model of a [`Node`].
pub enum NodeView {
    Str(Seq<char>),
    Bool(bool),
    Number { integer: Option<int>, float: Option<FloatBits> },
    Other,
}

impl View for Node {
    type V = NodeView;

    open spec fn view(&self) -> NodeView {
        match self {
            Node::Str(s) => NodeView::Str(s@),
            Node::Bool(b) => NodeView::Bool(*b),
            Node::Number { integer, float } => NodeView::Number {
                integer: match integer {
                    Some(i) => Some(i.value()),
                    None => None,
                },
                float: *float,
            },
            Node::Other => NodeView::Other,
        }
    }
}

/// The integer a node holds, if it holds one.
pub open spec fn node_int(n: NodeView) -> Option<int> {
    match n {
        NodeView::Number { integer, .. } => integer,
        _ => None,
    }
}

/// The floating-point number a node holds, if it holds one.
pub open spec fn node_float(n: NodeView) -> Option<FloatBits> {
    match n {
        NodeView::Number { float, .. } => float,
        _ => None,
    }
}

/// The value of a node coerced into the kind `ty`, if it can be.
///
/// Strings and booleans are taken only from nodes of that kind; a character
/// is the first character of a non-empty string; an integer kind accepts an
/// integer node exactly when its value lies in that kind's range; the float
/// kinds take the node's floating-point value.
pub open spec fn coerce_spec(n: NodeView, ty: AllowedTypeMarker) -> Option<ScalarView> {
    match ty {
        AllowedTypeMarker::String => match n {
            NodeView::Str(s) => Some(ScalarView::String(s)),
            _ => None,
        },
        AllowedTypeMarker::Char => match n {
            NodeView::Str(s) => if s.len() > 0 {
                Some(ScalarView::Char(s[0]))
            } else {
                None
            },
            _ => None,
        },
        AllowedTypeMarker::Bool => match n {
            NodeView::Bool(b) => Some(ScalarView::Bool(b)),
            _ => None,
        },
        AllowedTypeMarker::F32 => match node_float(n) {
            Some(f) => Some(ScalarView::F32(f.f32_bits)),
            None => None,
        },
        AllowedTypeMarker::F64 => match node_float(n) {
            Some(f) => Some(ScalarView::F64(f.f64_bits)),
            None => None,
        },
        _ => match node_int(n) {
            Some(v) => if int_kind_min(ty) <= v <= int_kind_max(ty) {
                Some(int_scalar(ty, v))
            } else {
                None
            },
            None => None,
        },
    }
}

/// Whether `ty` is one of the integer kinds.
pub open spec fn is_int_kind(ty: AllowedTypeMarker) -> bool {
    match ty {
        AllowedTypeMarker::U8 | AllowedTypeMarker::U16 | AllowedTypeMarker::U32
        | AllowedTypeMarker::U64 | AllowedTypeMarker::U128 | AllowedTypeMarker::I8
        | AllowedTypeMarker::I16 | AllowedTypeMarker::I32 | AllowedTypeMarker::I64
        | AllowedTypeMarker::I128 => true,
        _ => false,
    }
}

/// Whether `ty` is one of the unsigned integer kinds.
pub open spec fn is_unsigned_kind(ty: AllowedTypeMarker) -> bool {
    match ty {
        AllowedTypeMarker::U8 | AllowedTypeMarker::U16 | AllowedTypeMarker::U32
        | AllowedTypeMarker::U64 | AllowedTypeMarker::U128 => true,
        _ => false,
    }
}

/// The least value of an integer kind.
pub open spec fn int_kind_min(ty: AllowedTypeMarker) -> int {
    match ty {
        AllowedTypeMarker::I8 => i8::MIN as int,
        AllowedTypeMarker::I16 => i16::MIN as int,
        AllowedTypeMarker::I32 => i32::MIN as int,
        AllowedTypeMarker::I64 => i64::MIN as int,
        AllowedTypeMarker::I128 => i128::MIN as int,
        _ => 0,
    }
}

/// The greatest value of an integer kind.
pub open spec fn int_kind_max(ty: AllowedTypeMarker) -> int {
    match ty {
        AllowedTypeMarker::U8 => u8::MAX as int,
        AllowedTypeMarker::U16 => u16::MAX as int,
        AllowedTypeMarker::U32 => u32::MAX as int,
        AllowedTypeMarker::U64 => u64::MAX as int,
        AllowedTypeMarker::U128 => u128::MAX as int,
        AllowedTypeMarker::I8 => i8::MAX as int,
        AllowedTypeMarker::I16 => i16::MAX as int,
        AllowedTypeMarker::I32 => i32::MAX as int,
        AllowedTypeMarker::I64 => i64::MAX as int,
        AllowedTypeMarker::I128 => i128::MAX as int,
        _ => -1,
    }
}

/// The scalar of integer kind `ty` with value `v`.
pub open spec fn int_scalar(ty: AllowedTypeMarker, v: int) -> ScalarView {
    match ty {
        AllowedTypeMarker::U8 => ScalarView::U8(v as u8),
        AllowedTypeMarker::U16 => ScalarView::U16(v as u16),
        AllowedTypeMarker::U32 => ScalarView::U32(v as u32),
        AllowedTypeMarker::U64 => ScalarView::U64(v as u64),
        AllowedTypeMarker::U128 => ScalarView::U128(v as u128),
        AllowedTypeMarker::I8 => ScalarView::I8(v as i8),
        AllowedTypeMarker::I16 => ScalarView::I16(v as i16),
        AllowedTypeMarker::I32 => ScalarView::I32(v as i32),
        AllowedTypeMarker::I64 => ScalarView::I64(v as i64),
        _ => ScalarView::I128(v as i128),
    }
}

/// The integer value of a scalar of integer kind.
pub open spec fn scalar_int(s: ScalarView) -> Option<int> {
    match s {
        ScalarView::U8(x) => Some(x as int),
        ScalarView::U16(x) => Some(x as int),
        ScalarView::U32(x) => Some(x as int),
        ScalarView::U64(x) => Some(x as int),
        ScalarView::U128(x) => Some(x as int),
        ScalarView::I8(x) => Some(x as int),
        ScalarView::I16(x) => Some(x as int),
        ScalarView::I32(x) => Some(x as int),
        ScalarView::I64(x) => Some(x as int),
        ScalarView::I128(x) => Some(x as int),
        _ => None,
    }
}

/// The first character of a string, if it has one.
fn first_char(s: &String) -> (r: Option<char>)
    ensures
        r is Some <==> s@.len() > 0,
        r matches Some(c) ==> c == s@[0],
{
    let t = s.as_str();
    if t.unicode_len() > 0 {
        Some(t.get_char(0))
    } else {
        None
    }
}

/// The node's integer as a `u128`, where it holds a non-negative one.
fn node_unsigned(node: &Node) -> (r: Option<u128>)
    ensures
        r is Some <==> (node_int(node@) matches Some(v) && 0 <= v),
        r matches Some(u) ==> node_int(node@) == Some(u as int),
{
    match node {
        Node::Number { integer: Some(i), .. } => i.to_u128(),
        _ => None,
    }
}

/// The node's integer as an `i128`, where it holds one in that range.
fn node_signed(node: &Node) -> (r: Option<i128>)
    ensures
        r is Some <==> (node_int(node@) matches Some(v) && i128::MIN <= v <= i128::MAX),
        r matches Some(x) ==> node_int(node@) == Some(x as int),
{
    match node {
        Node::Number { integer: Some(i), .. } => i.to_i128(),
        _ => None,
    }
}

/// Coerces a node into the kind `ty`: the per-kind rule of [`coerce_spec`].
pub fn coerce(node: &Node, ty: AllowedTypeMarker) -> (r: Option<AllowedType>)
    ensures
        match r {
            Some(v) => coerce_spec(node@, ty) == Some(v@),
            None => coerce_spec(node@, ty) is None,
        },
{
    match ty {
        AllowedTypeMarker::String => match node {
            Node::Str(s) => Some(AllowedType::String(s.clone())),
            _ => None,
        },
        AllowedTypeMarker::Char => match node {
            Node::Str(s) => match first_char(s) {
                Some(c) => Some(AllowedType::Char(c)),
                None => None,
            },
            _ => None,
        },
        AllowedTypeMarker::Bool => match node {
            Node::Bool(b) => Some(AllowedType::Bool(*b)),
            _ => None,
        },
        AllowedTypeMarker::F32 => match node {
            Node::Number { float: Some(f), .. } => Some(AllowedType::F32(f.f32_bits)),
            _ => None,
        },
        AllowedTypeMarker::F64 => match node {
            Node::Number { float: Some(f), .. } => Some(AllowedType::F64(f.f64_bits)),
            _ => None,
        },
        AllowedTypeMarker::U8 => match node_unsigned(node) {
            Some(u) if u <= u8::MAX as u128 => Some(AllowedType::U8(u as u8)),
            _ => None,
        },
        AllowedTypeMarker::U16 => match node_unsigned(node) {
            Some(u) if u <= u16::MAX as u128 => Some(AllowedType::U16(u as u16)),
            _ => None,
        },
        AllowedTypeMarker::U32 => match node_unsigned(node) {
            Some(u) if u <= u32::MAX as u128 => Some(AllowedType::U32(u as u32)),
            _ => None,
        },
        AllowedTypeMarker::U64 => match node_unsigned(node) {
            Some(u) if u <= u64::MAX as u128 => Some(AllowedType::U64(u as u64)),
            _ => None,
        },
        AllowedTypeMarker::U128 => match node_unsigned(node) {
            Some(u) => Some(AllowedType::U128(u)),
            None => None,
        },
        AllowedTypeMarker::I8 => match node_signed(node) {
            Some(x) if i8::MIN as i128 <= x && x <= i8::MAX as i128 => Some(
                AllowedType::I8(x as i8),
            ),
            _ => None,
        },
        AllowedTypeMarker::I16 => match node_signed(node) {
            Some(x) if i16::MIN as i128 <= x && x <= i16::MAX as i128 => Some(
                AllowedType::I16(x as i16),
            ),
            _ => None,
        },
        AllowedTypeMarker::I32 => match node_signed(node) {
            Some(x) if i32::MIN as i128 <= x && x <= i32::MAX as i128 => Some(
                AllowedType::I32(x as i32),
            ),
            _ => None,
        },
        AllowedTypeMarker::I64 => match node_signed(node) {
            Some(x) if i64::MIN as i128 <= x && x <= i64::MAX as i128 => Some(
                AllowedType::I64(x as i64),
            ),
            _ => None,
        },
        AllowedTypeMarker::I128 => match node_signed(node) {
            Some(x) => Some(AllowedType::I128(x)),
            None => None,
        },
    }
}


/// Integer boundary law for unsigned kinds: an integer node with value `v`
/// coerces into an unsigned kind with maximum `M` exactly when
/// `0 <= v <= M`, and the coerced value is `v`.
pub proof fn lemma_unsigned_bounds(n: NodeView, ty: AllowedTypeMarker, v: int)
    requires
        is_unsigned_kind(ty),
        node_int(n) == Some(v),
    ensures
        coerce_spec(n, ty) is Some <==> 0 <= v <= int_kind_max(ty),
        coerce_spec(n, ty) matches Some(s) ==> s.marker() == ty && scalar_int(s) == Some(v),
{
}

/// Integer boundary law for signed kinds: an integer node with value `v`
/// coerces into a signed kind exactly when `v` lies between that kind's
/// minimum and maximum, and the coerced value is `v`.
pub proof fn lemma_signed_bounds(n: NodeView, ty: AllowedTypeMarker, v: int)
    requires
        is_int_kind(ty),
        !is_unsigned_kind(ty),
        node_int(n) == Some(v),
    ensures
        coerce_spec(n, ty) is Some <==> int_kind_min(ty) <= v <= int_kind_max(ty),
        coerce_spec(n, ty) matches Some(s) ==> s.marker() == ty && scalar_int(s) == Some(v),
{
}

/// A node that holds no integer coerces into no integer kind.
pub proof fn lemma_non_integer_node(n: NodeView, ty: AllowedTypeMarker)
    requires
        is_int_kind(ty),
        node_int(n) is None,
    ensures
        coerce_spec(n, ty) is None,
{
}

} // verus!
