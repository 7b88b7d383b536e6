use dbus_api::api::DBusApi;
use dbus_api::convert::VariantTo;
use dbus_api::error::Error;
use dbus_api::extract::{extract, variant_iter_to_vec_u8};
use dbus_api::value::Value;

fn to_u32(v: &Value) -> Option<u32> {
    <DBusApi as VariantTo<u32>>::variant_to(v)
}

fn s(text: &str) -> Value {
    Value::Str(text.to_string())
}

#[test]
fn u32_from_bare_scalar() {
    assert_eq!(to_u32(&Value::UInt32(0)), Some(0));
    assert_eq!(to_u32(&Value::UInt32(u32::MAX)), Some(u32::MAX));
    assert_eq!(to_u32(&Value::Byte(200)), Some(200));
    assert_eq!(to_u32(&Value::Int64(4_000_000_000)), Some(4_000_000_000));
    assert_eq!(to_u32(&Value::Boolean(true)), Some(1));
}

#[test]
fn u32_from_single_element_sequence() {
    assert_eq!(to_u32(&Value::Array(vec![Value::UInt32(77)])), Some(77));
    assert_eq!(to_u32(&Value::Array(vec![Value::Int64(u32::MAX as i64)])), Some(u32::MAX));
    assert_eq!(to_u32(&Value::Struct(vec![Value::Int16(5), s("x")])), Some(5));
    assert_eq!(to_u32(&Value::Variant(Box::new(Value::UInt32(9)))), Some(9));
}

#[test]
fn u32_out_of_range_gives_nothing() {
    assert_eq!(to_u32(&Value::Int64(-1)), None);
    assert_eq!(to_u32(&Value::Int64(1 << 32)), None);
    assert_eq!(to_u32(&Value::Array(vec![Value::Int64(-1)])), None);
    assert_eq!(to_u32(&Value::Array(vec![Value::Int64(1 << 32)])), None);
    assert_eq!(to_u32(&Value::Int32(-7)), None);
}

#[test]
fn u32_without_number_gives_nothing() {
    assert_eq!(to_u32(&Value::Array(vec![])), None);
    assert_eq!(to_u32(&Value::Array(vec![s("12")])), None);
    assert_eq!(to_u32(&s("12")), None);
    assert_eq!(to_u32(&Value::UInt64(5)), None);
    assert_eq!(to_u32(&Value::Double), None);
}

#[test]
fn property_single_byte_sequence_as_u32() {
    let api = DBusApi::new("org.example", &["Busy"], None);
    let fetched = Ok(Value::Array(vec![Value::Byte(42)]));
    let r: Result<u32, Error> = api.property("/org/example", "org.example.Thing", "Level", fetched);
    assert_eq!(r.unwrap(), 42);
}

#[test]
fn string_conversion() {
    let r = <DBusApi as VariantTo<String>>::variant_to(&s("hello"));
    assert_eq!(r, Some("hello".to_string()));
    let p = <DBusApi as VariantTo<String>>::variant_to(&Value::ObjectPath("/a/b".to_string()));
    assert_eq!(p, Some("/a/b".to_string()));
    assert_eq!(<DBusApi as VariantTo<String>>::variant_to(&Value::Int32(3)), None);
}

#[test]
fn i64_conversion() {
    assert_eq!(<DBusApi as VariantTo<i64>>::variant_to(&Value::Int32(-3)), Some(-3));
    assert_eq!(<DBusApi as VariantTo<i64>>::variant_to(&Value::Int64(i64::MIN)), Some(i64::MIN));
    assert_eq!(<DBusApi as VariantTo<i64>>::variant_to(&Value::UInt64(1)), None);
    assert_eq!(<DBusApi as VariantTo<i64>>::variant_to(&s("1")), None);
}

#[test]
fn bool_zero_is_true() {
    assert_eq!(<DBusApi as VariantTo<bool>>::variant_to(&Value::Int32(0)), Some(true));
    assert_eq!(<DBusApi as VariantTo<bool>>::variant_to(&Value::Byte(0)), Some(true));
    assert_eq!(<DBusApi as VariantTo<bool>>::variant_to(&Value::Byte(3)), Some(false));
    assert_eq!(<DBusApi as VariantTo<bool>>::variant_to(&Value::Int64(-1)), Some(false));
    assert_eq!(<DBusApi as VariantTo<bool>>::variant_to(&Value::Boolean(true)), Some(false));
    assert_eq!(<DBusApi as VariantTo<bool>>::variant_to(&s("0")), None);
}

#[test]
fn strings_conversion_all_or_nothing() {
    let good = Value::Array(vec![s("a"), Value::ObjectPath("/b".to_string()), s("")]);
    let r = <DBusApi as VariantTo<Vec<String>>>::variant_to(&good);
    assert_eq!(r, Some(vec!["a".to_string(), "/b".to_string(), "".to_string()]));
    let bad = Value::Array(vec![s("a"), Value::Int32(1), s("c")]);
    assert_eq!(<DBusApi as VariantTo<Vec<String>>>::variant_to(&bad), None);
    let empty = Value::Array(vec![]);
    assert_eq!(<DBusApi as VariantTo<Vec<String>>>::variant_to(&empty), Some(vec![]));
    assert_eq!(<DBusApi as VariantTo<Vec<String>>>::variant_to(&s("a")), None);
}

#[test]
fn bytes_conversion_truncates() {
    let v = Value::Array(vec![Value::UInt16(0x1234), Value::Byte(7), Value::Int32(-1)]);
    assert_eq!(<DBusApi as VariantTo<Vec<u8>>>::variant_to(&v), Some(vec![0x34, 7, 0xff]));
    let bad = Value::Array(vec![Value::Byte(1), s("x")]);
    assert_eq!(<DBusApi as VariantTo<Vec<u8>>>::variant_to(&bad), None);
    assert_eq!(<DBusApi as VariantTo<Vec<u8>>>::variant_to(&Value::Byte(1)), None);
}

#[test]
fn extract_reply_fields() {
    let api = DBusApi::new("org.example", &[], Some(3));
    let reply = vec![s("name"), Value::UInt32(5)];
    let first: String = api.extract(&reply).unwrap();
    assert_eq!(first, "name");
    let (a, b): (String, u32) = api.extract_two(&reply).unwrap();
    assert_eq!((a.as_str(), b), ("name", 5));
    let wrong: Result<u32, Error> = api.extract(&reply);
    assert!(matches!(wrong, Err(Error::WrongResponseType)));
    let short: Result<(String, u32), Error> = api.extract_two(&vec![s("name")]);
    assert!(matches!(short, Err(Error::WrongResponseType)));
    let none: Result<bool, Error> = api.extract(&vec![]);
    assert!(matches!(none, Err(Error::WrongResponseType)));
}

#[test]
fn extract_from_variant() {
    let v: i64 = extract(&Value::Int64(-9)).unwrap();
    assert_eq!(v, -9);
    let list: Vec<String> = extract(&Value::Array(vec![s("a"), s("b"), Value::Int32(1), s("c")])).unwrap();
    assert_eq!(list, vec!["a".to_string(), "b".to_string()]);
    let wrong: Result<i64, Error> = extract(&Value::Int32(1));
    assert!(matches!(wrong, Err(Error::VariantTypeMismatch)));
}

#[test]
fn variant_bytes() {
    let bytes = variant_iter_to_vec_u8(&Value::Array(vec![Value::Byte(1), Value::Byte(2)])).unwrap();
    assert_eq!(bytes, vec![1, 2]);
    assert!(matches!(variant_iter_to_vec_u8(&Value::Byte(1)), Err(Error::VariantNotArray)));
}
