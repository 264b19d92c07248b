use value_size::json::{JsonObject, JsonValue};
use value_size::Size;

#[test]
fn null_and_scalars_are_free() {
    assert_eq!(JsonValue::Null.indirect_size(), 0);
    assert_eq!(JsonValue::Bool(true).indirect_size(), 0);
    assert_eq!(JsonValue::Number(serde_json::Number::from(7)).indirect_size(), 0);
}

#[test]
fn text_value_reports_its_capacity() {
    let mut s = String::with_capacity(11);
    s.push('h');
    let cap = s.capacity();
    assert_eq!(JsonValue::Text(s).indirect_size(), cap);
}

#[test]
fn array_counts_buffer_and_elements() {
    let mut a: Vec<JsonValue> = Vec::with_capacity(4);
    a.push(JsonValue::Null);
    a.push(JsonValue::Bool(false));
    let cap = a.capacity();
    assert_eq!(cap, 4);
    let v = JsonValue::Array(a);
    assert_eq!(v.indirect_size(), cap * core::mem::size_of::<JsonValue>());
}

#[test]
fn object_sums_full_sizes_of_keys_and_values() {
    let mut k = String::with_capacity(6);
    k.push('k');
    let key_cap = k.capacity();
    let o = JsonObject { entries: vec![(k, JsonValue::Bool(true))] };
    let expect = core::mem::size_of::<String>() + key_cap + core::mem::size_of::<JsonValue>();
    assert_eq!(o.indirect_size(), expect);
    let wrapped = JsonValue::Object(JsonObject { entries: Vec::new() });
    assert_eq!(wrapped.indirect_size(), 0);
}

#[test]
fn dispatch_follows_the_active_alternative_only() {
    // The same text buffer counts when active and not at all when another
    // alternative is active.
    let mut s = String::with_capacity(32);
    s.push('x');
    let cap = s.capacity();
    assert_eq!(JsonValue::Text(s).indirect_size(), cap);
    assert_eq!(JsonValue::Bool(true).indirect_size(), 0);
    assert_eq!(JsonValue::Null.full_size(), core::mem::size_of::<JsonValue>());
}

#[test]
fn nested_values_sum_recursively() {
    let mut s = String::with_capacity(9);
    s.push('n');
    let text_cap = s.capacity();
    let mut a: Vec<JsonValue> = Vec::with_capacity(2);
    a.push(JsonValue::Text(s));
    a.push(JsonValue::Null);
    let cap = a.capacity();
    assert_eq!(cap, 2);
    let v = JsonValue::Array(a);
    assert_eq!(v.indirect_size(), cap * core::mem::size_of::<JsonValue>() + text_cap);
}
