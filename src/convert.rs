use vstd::prelude::*;
use crate::api::DBusApi;
use crate::value::{elements_of, numeric_of, text_of, ArgKind, Value};

verus! {

/// A number in the range of `u32`, or nothing.
pub open spec fn within_u32(n: Option<i64>) -> Option<u32> {
    match n {
        Some(x) => if 0 <= x <= u32::MAX { Some(x as u32) } else { None },
        None => None,
    }
}

/// A `u32` read from a value that is either the bare number or a container
/// whose first element is the number.
pub open spec fn u32_of(v: Value) -> Option<u32> {
    match elements_of(v) {
        Some(xs) => if xs.len() > 0 { within_u32(numeric_of(xs[0])) } else { None },
        None => within_u32(numeric_of(v)),
    }
}

/// A boolean read from a number: zero reads as `true`, any other number as
/// `false`.
pub open spec fn bool_of(v: Value) -> Option<bool> {
    match numeric_of(v) {
        Some(n) => Some(n == 0),
        None => None,
    }
}

/// The texts of a container's elements, when every element has one.
pub open spec fn strings_of(v: Value) -> Option<Seq<Seq<char>>> {
    match elements_of(v) {
        Some(xs) => if forall|i: int| 0 <= i < xs.len() ==> (#[trigger] text_of(xs[i])) is Some {
            Some(Seq::new(xs.len(), |i: int| text_of(xs[i]).unwrap()))
        } else {
            None
        },
        None => None,
    }
}

/// The low bytes of a container's elements, when every element is a number.
pub open spec fn bytes_of(v: Value) -> Option<Seq<u8>> {
    match elements_of(v) {
        Some(xs) => if forall|i: int| 0 <= i < xs.len() ==> (#[trigger] numeric_of(xs[i])) is Some {
            Some(Seq::new(xs.len(), |i: int| numeric_of(xs[i]).unwrap() as u8))
        } else {
            None
        },
        None => None,
    }
}

/// A number reads as the same `u32` whether it comes bare or as the one
/// element of a container: itself when it lies in `0..=u32::MAX`, and nothing
/// otherwise.
pub proof fn law_u32_either_shape(scalar: Value, wrapped: Value, n: i64)
    requires
        numeric_of(scalar) == Some(n),
        elements_of(scalar) is None,
        elements_of(wrapped) == Some(seq![scalar]),
    ensures
        u32_of(scalar) == u32_of(wrapped),
        0 <= n <= u32::MAX ==> u32_of(scalar) == Some(n as u32),
        !(0 <= n <= u32::MAX) ==> u32_of(scalar) is None,
{
    assert(elements_of(wrapped).unwrap()[0] == scalar);
}

/// A container with one element that has no text converts to no list of
/// strings at all; one that converts gives one string per element.
pub proof fn law_strings_all_or_nothing(v: Value)
    requires
        elements_of(v) is Some,
    ensures
        (exists|i: int| 0 <= i < elements_of(v).unwrap().len() && text_of(#[trigger] elements_of(v).unwrap()[i]) is None)
            ==> strings_of(v) is None,
        strings_of(v) is Some ==> strings_of(v).unwrap().len() == elements_of(v).unwrap().len(),
{
}

/// A number converts to `true` when it is zero and to `false` otherwise.
pub proof fn law_bool_zero_is_true(v: Value, n: i64)
    requires
        numeric_of(v) == Some(n),
    ensures
        bool_of(v) == Some(n == 0),
{
}

/// Conversion of a property's value into a target type `T`; `None` when the
/// value does not have that shape.
pub trait VariantTo<T: DeepView> {
    /// What the conversion gives for a value.
    spec fn converted(value: Value) -> Option<T::V>;

    fn variant_to(value: &Value) -> (r: Option<T>)
        ensures
            r.deep_view() == Self::converted(*value),
    ;
}

impl VariantTo<String> for DBusApi {
    open spec fn converted(value: Value) -> Option<Seq<char>> {
        text_of(value)
    }

    fn variant_to(value: &Value) -> (r: Option<String>) {
        match value.as_str() {
            Some(s) => Some(s.clone()),
            None => None,
        }
    }
}

impl VariantTo<i64> for DBusApi {
    open spec fn converted(value: Value) -> Option<i64> {
        numeric_of(value)
    }

    fn variant_to(value: &Value) -> (r: Option<i64>) {
        value.as_i64()
    }
}

impl VariantTo<u32> for DBusApi {
    open spec fn converted(value: Value) -> Option<u32> {
        u32_of(value)
    }

    fn variant_to(value: &Value) -> (r: Option<u32>) {
        // A number may come wrapped in a one-element container.
        if let Some(count) = value.element_count() {
            if count > 0 {
                let first = value.element(0);
                match first.arg_kind() {
                    ArgKind::UInt32 => {
                        if let Some(num) = first.as_i64() {
                            if 0 <= num && num <= u32::MAX as i64 {
                                return Some(num as u32);
                            }
                        }
                    },
                    _ => {
                        if let Some(num) = first.as_i64() {
                            if 0 <= num && num <= u32::MAX as i64 {
                                return Some(num as u32);
                            }
                        }
                    },
                }
            }
            return None;
        }
        match value.arg_kind() {
            ArgKind::UInt32 | ArgKind::Byte => {
                if let Some(num) = value.as_i64() {
                    if 0 <= num && num <= u32::MAX as i64 {
                        return Some(num as u32);
                    }
                }
            },
            _ => {
                if let Some(num) = value.as_i64() {
                    if 0 <= num && num <= u32::MAX as i64 {
                        return Some(num as u32);
                    }
                }
            },
        }
        None
    }
}

impl VariantTo<bool> for DBusApi {
    open spec fn converted(value: Value) -> Option<bool> {
        bool_of(value)
    }

    fn variant_to(value: &Value) -> (r: Option<bool>) {
        match value.as_i64() {
            Some(n) => Some(n == 0),
            None => None,
        }
    }
}

impl VariantTo<Vec<String>> for DBusApi {
    open spec fn converted(value: Value) -> Option<Seq<Seq<char>>> {
        strings_of(value)
    }

    fn variant_to(value: &Value) -> (r: Option<Vec<String>>) {
        let count = match value.element_count() {
            Some(n) => n,
            None => return None,
        };
        let ghost xs = elements_of(*value).unwrap();
        let mut result: Vec<String> = Vec::new();
        let mut i: usize = 0;
        while i < count
            invariant
                count == xs.len(),
                elements_of(*value) == Some(xs),
                i <= count,
                result@.len() == i,
                forall|j: int| 0 <= j < i ==> (#[trigger] text_of(xs[j])) is Some,
                forall|j: int| 0 <= j < i ==> result@[j]@ == text_of(xs[j]).unwrap(),
            decreases count - i,
        {
            match value.element(i).as_str() {
                Some(s) => result.push(s.clone()),
                None => {
                    assert(text_of(xs[i as int]) is None);
                    return None;
                },
            }
            i = i + 1;
        }
        assert(result.deep_view() =~= strings_of(*value).unwrap());
        Some(result)
    }
}

impl VariantTo<Vec<u8>> for DBusApi {
    open spec fn converted(value: Value) -> Option<Seq<u8>> {
        bytes_of(value)
    }

    fn variant_to(value: &Value) -> (r: Option<Vec<u8>>) {
        let count = match value.element_count() {
            Some(n) => n,
            None => return None,
        };
        let ghost xs = elements_of(*value).unwrap();
        let mut result: Vec<u8> = Vec::new();
        let mut i: usize = 0;
        while i < count
            invariant
                count == xs.len(),
                elements_of(*value) == Some(xs),
                i <= count,
                result@.len() == i,
                forall|j: int| 0 <= j < i ==> (#[trigger] numeric_of(xs[j])) is Some,
                forall|j: int| 0 <= j < i ==> result@[j] == numeric_of(xs[j]).unwrap() as u8,
            decreases count - i,
        {
            match value.element(i).as_i64() {
                Some(n) => result.push(n as u8),
                None => {
                    assert(numeric_of(xs[i as int]) is None);
                    return None;
                },
            }
            i = i + 1;
        }
        assert(result.deep_view() =~= bytes_of(*value).unwrap());
        Some(result)
    }
}

} // verus!
