use vstd::prelude::*;

verus! {

/// The type tag that a wire value carries.
#[derive(Clone, Copy, Debug, PartialEq, Eq, Structural)]
pub enum ArgKind {
    Byte,
    Boolean,
    Int16,
    UInt16,
    Int32,
    UInt32,
    Int64,
    UInt64,
    Double,
    UnixFd,
    String,
    ObjectPath,
    Signature,
    Array,
    Struct,
    Variant,
}

/// A dynamically typed value as received over the bus.
///
/// A dictionary arrives as an `Array` whose elements alternate key and value,
/// which is how the bus hands its entries out one by one. A `Double` holds no
/// payload: nothing here reads floating-point values.
#[derive(Debug)]
pub enum Value {
    Byte(u8),
    Boolean(bool),
    Int16(i16),
    UInt16(u16),
    Int32(i32),
    UInt32(u32),
    Int64(i64),
    UInt64(u64),
    Double,
    UnixFd(i32),
    Str(String),
    ObjectPath(String),
    Signature(String),
    Array(Vec<Value>),
    Struct(Vec<Value>),
    Variant(Box<Value>),
}

/// The type tag of a value.
pub open spec fn kind_of(v: Value) -> ArgKind {
    match v {
        Value::Byte(_) => ArgKind::Byte,
        Value::Boolean(_) => ArgKind::Boolean,
        Value::Int16(_) => ArgKind::Int16,
        Value::UInt16(_) => ArgKind::UInt16,
        Value::Int32(_) => ArgKind::Int32,
        Value::UInt32(_) => ArgKind::UInt32,
        Value::Int64(_) => ArgKind::Int64,
        Value::UInt64(_) => ArgKind::UInt64,
        Value::Double => ArgKind::Double,
        Value::UnixFd(_) => ArgKind::UnixFd,
        Value::Str(_) => ArgKind::String,
        Value::ObjectPath(_) => ArgKind::ObjectPath,
        Value::Signature(_) => ArgKind::Signature,
        Value::Array(_) => ArgKind::Array,
        Value::Struct(_) => ArgKind::Struct,
        Value::Variant(_) => ArgKind::Variant,
    }
}

/// The value read as a signed 64-bit number: every integer type that fits,
/// a boolean as 0 or 1, a file descriptor as its number; a variant reads as
/// what it wraps. An unsigned 64-bit number does not read this way.
pub open spec fn numeric_of(v: Value) -> Option<i64>
    decreases v,
{
    match v {
        Value::Byte(x) => Some(x as i64),
        Value::Boolean(b) => Some(if b { 1i64 } else { 0i64 }),
        Value::Int16(x) => Some(x as i64),
        Value::UInt16(x) => Some(x as i64),
        Value::Int32(x) => Some(x as i64),
        Value::UInt32(x) => Some(x as i64),
        Value::Int64(x) => Some(x),
        Value::UnixFd(x) => Some(x as i64),
        Value::Variant(inner) => numeric_of(*inner),
        _ => None,
    }
}

/// The text of a string, object path or signature; a variant reads as what
/// it wraps.
pub open spec fn text_of(v: Value) -> Option<Seq<char>>
    decreases v,
{
    match v {
        Value::Str(s) => Some(s@),
        Value::ObjectPath(s) => Some(s@),
        Value::Signature(s) => Some(s@),
        Value::Variant(inner) => text_of(*inner),
        _ => None,
    }
}

/// The elements of a container: those of an array or a struct, or the one
/// value that a variant wraps.
pub open spec fn elements_of(v: Value) -> Option<Seq<Value>> {
    match v {
        Value::Array(xs) => Some(xs@),
        Value::Struct(xs) => Some(xs@),
        Value::Variant(inner) => Some(seq![*inner]),
        _ => None,
    }
}

impl Value {
    pub fn arg_kind(&self) -> (r: ArgKind)
        ensures
            r == kind_of(*self),
    {
        match self {
            Value::Byte(_) => ArgKind::Byte,
            Value::Boolean(_) => ArgKind::Boolean,
            Value::Int16(_) => ArgKind::Int16,
            Value::UInt16(_) => ArgKind::UInt16,
            Value::Int32(_) => ArgKind::Int32,
            Value::UInt32(_) => ArgKind::UInt32,
            Value::Int64(_) => ArgKind::Int64,
            Value::UInt64(_) => ArgKind::UInt64,
            Value::Double => ArgKind::Double,
            Value::UnixFd(_) => ArgKind::UnixFd,
            Value::Str(_) => ArgKind::String,
            Value::ObjectPath(_) => ArgKind::ObjectPath,
            Value::Signature(_) => ArgKind::Signature,
            Value::Array(_) => ArgKind::Array,
            Value::Struct(_) => ArgKind::Struct,
            Value::Variant(_) => ArgKind::Variant,
        }
    }

    pub fn as_i64(&self) -> (r: Option<i64>)
        ensures
            r == numeric_of(*self),
        decreases *self,
    {
        match self {
            Value::Byte(x) => Some(*x as i64),
            Value::Boolean(b) => Some(if *b { 1i64 } else { 0i64 }),
            Value::Int16(x) => Some(*x as i64),
            Value::UInt16(x) => Some(*x as i64),
            Value::Int32(x) => Some(*x as i64),
            Value::UInt32(x) => Some(*x as i64),
            Value::Int64(x) => Some(*x),
            Value::UnixFd(x) => Some(*x as i64),
            Value::Variant(inner) => inner.as_i64(),
            _ => None,
        }
    }

    pub fn as_str(&self) -> (r: Option<&String>)
        ensures
            match r {
                Some(s) => text_of(*self) == Some(s@),
                None => text_of(*self) is None,
            },
        decreases *self,
    {
        match self {
            Value::Str(s) => Some(s),
            Value::ObjectPath(s) => Some(s),
            Value::Signature(s) => Some(s),
            Value::Variant(inner) => inner.as_str(),
            _ => None,
        }
    }

    /// How many elements the value has as a container, if it is one.
    pub fn element_count(&self) -> (r: Option<usize>)
        ensures
            match r {
                Some(n) => elements_of(*self) is Some && n == elements_of(*self).unwrap().len(),
                None => elements_of(*self) is None,
            },
    {
        match self {
            Value::Array(xs) => Some(xs.len()),
            Value::Struct(xs) => Some(xs.len()),
            Value::Variant(_) => Some(1),
            _ => None,
        }
    }

    /// The element at `i` of a container.
    pub fn element(&self, i: usize) -> (r: &Value)
        requires
            elements_of(*self) is Some,
            i < elements_of(*self).unwrap().len(),
        ensures
            *r == elements_of(*self).unwrap()[i as int],
    {
        match self {
            Value::Array(xs) => &xs[i],
            Value::Struct(xs) => &xs[i],
            Value::Variant(inner) => inner,
            _ => { proof { assert(false); } &self },
        }
    }
}

} // verus!
