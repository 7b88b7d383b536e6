use vstd::prelude::*;
use crate::error::Error;
use crate::value::{kind_of, numeric_of, text_of, ArgKind, Value};

verus! {

/// How many elements at the front of `xs` carry the tag `k`.
pub open spec fn leading(xs: Seq<Value>, k: ArgKind) -> nat
    decreases xs.len(),
{
    if xs.len() == 0 || kind_of(xs[0]) != k {
        0
    } else {
        1 + leading(xs.drop_first(), k)
    }
}

proof fn lemma_leading(xs: Seq<Value>, k: ArgKind, n: nat)
    requires
        n <= xs.len(),
        forall|j: int| 0 <= j < n ==> kind_of(#[trigger] xs[j]) == k,
        n == xs.len() || kind_of(xs[n as int]) != k,
    ensures
        leading(xs, k) == n,
    decreases n,
{
    if n > 0 {
        assert(kind_of(xs[0]) == k);
        let rest = xs.drop_first();
        assert forall|j: int| 0 <= j < n - 1 implies kind_of(#[trigger] rest[j]) == k by {
            assert(rest[j] == xs[j + 1]);
        }
        if n < xs.len() {
            assert(rest[n - 1] == xs[n as int]);
        }
        lemma_leading(rest, k, (n - 1) as nat);
    }
}

/// Reading a value of exactly one wire type: no coercion between types.
/// A list reads the elements at the front of an array that have the
/// element type, and stops at the first that does not.
pub trait Get: Sized + DeepView {
    /// What reading gives for a value.
    spec fn spec_get(v: Value) -> Option<<Self as DeepView>::V>;

    fn get(v: &Value) -> (r: Option<Self>)
        ensures
            r.deep_view() == Self::spec_get(*v),
    ;
}

impl Get for bool {
    open spec fn spec_get(v: Value) -> Option<bool> {
        match v {
            Value::Boolean(b) => Some(b),
            _ => None,
        }
    }

    fn get(v: &Value) -> (r: Option<bool>) {
        match v {
            Value::Boolean(b) => Some(*b),
            _ => None,
        }
    }
}

impl Get for u8 {
    open spec fn spec_get(v: Value) -> Option<u8> {
        match v {
            Value::Byte(x) => Some(x),
            _ => None,
        }
    }

    fn get(v: &Value) -> (r: Option<u8>) {
        match v {
            Value::Byte(x) => Some(*x),
            _ => None,
        }
    }
}

impl Get for i32 {
    open spec fn spec_get(v: Value) -> Option<i32> {
        match v {
            Value::Int32(x) => Some(x),
            _ => None,
        }
    }

    fn get(v: &Value) -> (r: Option<i32>) {
        match v {
            Value::Int32(x) => Some(*x),
            _ => None,
        }
    }
}

impl Get for u32 {
    open spec fn spec_get(v: Value) -> Option<u32> {
        match v {
            Value::UInt32(x) => Some(x),
            _ => None,
        }
    }

    fn get(v: &Value) -> (r: Option<u32>) {
        match v {
            Value::UInt32(x) => Some(*x),
            _ => None,
        }
    }
}

impl Get for i64 {
    open spec fn spec_get(v: Value) -> Option<i64> {
        match v {
            Value::Int64(x) => Some(x),
            _ => None,
        }
    }

    fn get(v: &Value) -> (r: Option<i64>) {
        match v {
            Value::Int64(x) => Some(*x),
            _ => None,
        }
    }
}

impl Get for u64 {
    open spec fn spec_get(v: Value) -> Option<u64> {
        match v {
            Value::UInt64(x) => Some(x),
            _ => None,
        }
    }

    fn get(v: &Value) -> (r: Option<u64>) {
        match v {
            Value::UInt64(x) => Some(*x),
            _ => None,
        }
    }
}

impl Get for String {
    open spec fn spec_get(v: Value) -> Option<Seq<char>> {
        match v {
            Value::Str(s) => Some(s@),
            _ => None,
        }
    }

    fn get(v: &Value) -> (r: Option<String>) {
        match v {
            Value::Str(s) => Some(s.clone()),
            _ => None,
        }
    }
}

impl Get for Vec<String> {
    open spec fn spec_get(v: Value) -> Option<Seq<Seq<char>>> {
        match v {
            Value::Array(xs) => Some(
                Seq::new(leading(xs@, ArgKind::String), |i: int| text_of(xs@[i]).unwrap()),
            ),
            _ => None,
        }
    }

    fn get(v: &Value) -> (r: Option<Vec<String>>) {
        let xs = match v {
            Value::Array(xs) => xs,
            _ => return None,
        };
        let mut result: Vec<String> = Vec::new();
        let mut i: usize = 0;
        while i < xs.len()
            invariant
                i <= xs@.len(),
                result@.len() == i,
                forall|j: int| 0 <= j < i ==> kind_of(#[trigger] xs@[j]) == ArgKind::String,
                forall|j: int| 0 <= j < i ==> result@[j]@ == text_of(xs@[j]).unwrap(),
            ensures
                i <= xs@.len(),
                result@.len() == i,
                forall|j: int| 0 <= j < i ==> kind_of(#[trigger] xs@[j]) == ArgKind::String,
                i == xs@.len() || kind_of(xs@[i as int]) != ArgKind::String,
            decreases xs@.len() - i,
        {
            match &xs[i] {
                Value::Str(s) => result.push(s.clone()),
                _ => break,
            }
            i = i + 1;
        }
        proof {
            lemma_leading(xs@, ArgKind::String, i as nat);
        }
        assert(result.deep_view() =~= Self::spec_get(*v).unwrap());
        Some(result)
    }
}

impl Get for Vec<u8> {
    open spec fn spec_get(v: Value) -> Option<Seq<u8>> {
        match v {
            Value::Array(xs) => Some(
                Seq::new(leading(xs@, ArgKind::Byte), |i: int| numeric_of(xs@[i]).unwrap() as u8),
            ),
            _ => None,
        }
    }

    fn get(v: &Value) -> (r: Option<Vec<u8>>) {
        let xs = match v {
            Value::Array(xs) => xs,
            _ => return None,
        };
        let mut result: Vec<u8> = Vec::new();
        let mut i: usize = 0;
        while i < xs.len()
            invariant
                i <= xs@.len(),
                result@.len() == i,
                forall|j: int| 0 <= j < i ==> kind_of(#[trigger] xs@[j]) == ArgKind::Byte,
                forall|j: int| 0 <= j < i ==> result@[j] == numeric_of(xs@[j]).unwrap() as u8,
            ensures
                i <= xs@.len(),
                result@.len() == i,
                forall|j: int| 0 <= j < i ==> kind_of(#[trigger] xs@[j]) == ArgKind::Byte,
                i == xs@.len() || kind_of(xs@[i as int]) != ArgKind::Byte,
            decreases xs@.len() - i,
        {
            match &xs[i] {
                Value::Byte(b) => result.push(*b),
                _ => break,
            }
            i = i + 1;
        }
        proof {
            lemma_leading(xs@, ArgKind::Byte, i as nat);
        }
        assert(result.deep_view() =~= Self::spec_get(*v).unwrap());
        Some(result)
    }
}

/// Reads the contents of a variant as a `T`.
pub fn extract<T: Get>(var: &Value) -> (r: Result<T, Error>)
    ensures
        match T::spec_get(*var) {
            Some(x) => r is Ok && r.unwrap().deep_view() == x,
            None => r == Err::<T, Error>(Error::VariantTypeMismatch),
        },
{
    match T::get(var) {
        Some(x) => Ok(x),
        None => Err(Error::VariantTypeMismatch),
    }
}

/// Reads the contents of a variant as an array of bytes.
pub fn variant_iter_to_vec_u8(var: &Value) -> (r: Result<Vec<u8>, Error>)
    ensures
        match <Vec<u8> as Get>::spec_get(*var) {
            Some(x) => r is Ok && r.unwrap()@ == x,
            None => r == Err::<Vec<u8>, Error>(Error::VariantNotArray),
        },
{
    match <Vec<u8> as Get>::get(var) {
        Some(x) => Ok(x),
        None => Err(Error::VariantNotArray),
    }
}

} // verus!
