use std::collections::BTreeMap;
use value_size::time::Timestamp;
use value_size::Size;

#[test]
fn scalars_have_no_indirect_size() {
    assert_eq!(0u8.indirect_size(), 0);
    assert_eq!(7i32.indirect_size(), 0);
    assert_eq!((-3i64).indirect_size(), 0);
    assert_eq!(true.indirect_size(), 0);
    assert_eq!(false.indirect_size(), 0);
    let t = Timestamp { seconds: 1_700_000_000, nanos: 250 };
    assert_eq!(t.indirect_size(), 0);
    let n = serde_json::Number::from(42);
    assert_eq!(n.indirect_size(), 0);
}

#[test]
fn full_size_is_inline_plus_indirect() {
    assert_eq!(1u8.full_size(), core::mem::size_of::<u8>());
    assert_eq!(5i64.full_size(), core::mem::size_of::<i64>());
    let mut s = String::with_capacity(10);
    s.push('x');
    assert_eq!(s.full_size(), core::mem::size_of::<String>() + s.capacity());
    let v: Vec<u8> = Vec::with_capacity(3);
    assert_eq!(v.full_size(), core::mem::size_of::<Vec<u8>>() + v.indirect_size());
}

#[test]
fn empty_optional_is_free() {
    let x: Option<String> = None;
    assert_eq!(x.indirect_size(), 0);
}

#[test]
fn populated_optional_reports_the_inner_value() {
    let mut s = String::with_capacity(12);
    s.push('a');
    let inner = s.indirect_size();
    let x = Some(s);
    assert_eq!(x.indirect_size(), inner);
}

#[test]
fn boxed_value_reports_the_full_size_of_its_contents() {
    let b = Box::new(9i64);
    assert_eq!(b.indirect_size(), core::mem::size_of::<i64>());
    assert_eq!(b.full_size(), core::mem::size_of::<Box<i64>>() + core::mem::size_of::<i64>());
}

#[test]
fn vector_counts_capacity_not_length() {
    let mut v: Vec<u8> = Vec::with_capacity(8);
    v.push(1);
    v.push(2);
    v.push(3);
    v.push(4);
    assert_eq!(v.capacity(), 8);
    assert_eq!(v.indirect_size(), 8 * core::mem::size_of::<u8>());
}

#[test]
fn vector_capacity_growth_adds_element_footprints() {
    let v: Vec<i64> = Vec::with_capacity(2);
    let w: Vec<i64> = Vec::with_capacity(3);
    assert_eq!(v.capacity(), 2);
    assert_eq!(w.capacity(), 3);
    assert_eq!(w.indirect_size(), v.indirect_size() + core::mem::size_of::<i64>());
}

#[test]
fn vector_adds_element_indirect_sizes() {
    let mut v: Vec<String> = Vec::with_capacity(2);
    let mut a = String::with_capacity(5);
    a.push('a');
    let mut b = String::with_capacity(7);
    b.push('b');
    let expect = 2 * core::mem::size_of::<String>() + a.capacity() + b.capacity();
    v.push(a);
    v.push(b);
    assert_eq!(v.capacity(), 2);
    assert_eq!(v.indirect_size(), expect);
}

#[test]
fn text_buffer_reports_capacity_not_length() {
    let mut s = String::with_capacity(16);
    s.push('a');
    s.push('b');
    s.push('c');
    assert_eq!(s.len(), 3);
    assert_eq!(s.capacity(), 16);
    assert_eq!(s.indirect_size(), 16);
}

#[test]
fn empty_map_is_free() {
    let m: BTreeMap<i64, i64> = BTreeMap::new();
    assert_eq!(m.indirect_size(), 0);
}

#[test]
fn map_sums_full_sizes_of_keys_and_values() {
    let mut m: BTreeMap<i64, i64> = BTreeMap::new();
    m.insert(1, 10);
    m.insert(2, 20);
    let per_entry = core::mem::size_of::<i64>() * 2;
    assert_eq!(m.indirect_size(), 2 * per_entry);
}

#[test]
fn map_counts_string_key_buffers() {
    let mut m: BTreeMap<String, i64> = BTreeMap::new();
    let mut k = String::with_capacity(9);
    k.push('k');
    let key_cap = k.capacity();
    m.insert(k, 5);
    let expect = core::mem::size_of::<String>() + key_cap + core::mem::size_of::<i64>();
    assert_eq!(m.indirect_size(), expect);
}
