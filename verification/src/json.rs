//! Footprint accounting for dynamic, JSON-like values.
//!
//! A dynamic value is one of null, a boolean, a number, a text buffer, an
//! array of dynamic values, or a string-keyed object of dynamic values.
//! Its indirect size dispatches on the active alternative: null and the
//! scalars contribute nothing, a text buffer its capacity, an array its
//! buffer plus its elements, and an object the full sizes of its keys and
//! values, by the same entry-summing rule as an ordered key-value map.

use crate::size::{clamp_usize, lemma_clamp_sum, lemma_sum_push, sat_add, string_capacity, sum,
    vec_capacity, Size};
use vstd::prelude::*;

verus! {

/// Specification carrier for `serde_json::Number`, a fixed-width numeric
/// scalar carried through opaquely.
#[verifier::external_type_specification]
#[verifier::external_body]
pub struct ExJsonNumber(serde_json::Number);

impl Size for serde_json::Number {
    /// A number is a fixed-width scalar: it owns nothing out of line.
    open spec fn is_indirect_size(&self, n: nat) -> bool {
        n == 0
    }

    fn indirect_size(&self) -> (r: usize)
        ensures
            r == 0,
    {
        proof {
            assert(self.is_indirect_size(0) && 0 as nat == clamp_usize(0));
        }
        0
    }
}

/// A string-keyed object of dynamic values, with its entries in insertion
/// order.
pub struct JsonObject {
    pub entries: Vec<(String, JsonValue)>,
}

/// A dynamic tagged value: null, boolean, number, text, array or object.
pub enum JsonValue {
    Null,
    Bool(bool),
    Number(serde_json::Number),
    Text(String),
    Array(Vec<JsonValue>),
    Object(JsonObject),
}

/// The indirect byte counts a dynamic value admits, by its active
/// alternative: nothing for null and the scalars, the buffer capacity for
/// text, buffer plus elements for an array, and the object rule for an
/// object.
pub open spec fn json_size_ok(v: JsonValue, n: nat) -> bool
    decreases v,
{
    match v {
        JsonValue::Null => n == 0,
        JsonValue::Bool(_) => n == 0,
        JsonValue::Number(_) => n == 0,
        JsonValue::Text(s) => s@.len() <= n <= isize::MAX as nat,
        JsonValue::Array(a) => exists|cap: nat, ns: Seq<nat>|
            {
                &&& a@.len() <= cap
                &&& #[trigger] (cap * vstd::layout::size_of::<JsonValue>()) <= isize::MAX as nat
                &&& ns.len() == a@.len()
                &&& forall|j: int| 0 <= j < a@.len() ==> json_size_ok(a@[j], #[trigger] ns[j])
                &&& n == cap * vstd::layout::size_of::<JsonValue>() + #[trigger] sum(ns)
            },
        JsonValue::Object(o) => json_object_size_ok(o, n),
    }
}

/// The indirect byte counts an object admits: for each entry the full
/// size of its key and the full size of its value, summed over all
/// entries — optimistic but close enough, as for the ordered map.
pub open spec fn json_object_size_ok(o: JsonObject, n: nat) -> bool
    decreases o,
{
    exists|sbs: Seq<nat>, vbs: Seq<nat>|
        {
            &&& sbs.len() == o.entries@.len()
            &&& vbs.len() == o.entries@.len()
            &&& forall|j: int|
                0 <= j < o.entries@.len() ==> o.entries@[j].0@.len() <= #[trigger] sbs[j]
                    <= isize::MAX as nat
            &&& forall|j: int|
                0 <= j < o.entries@.len() ==> json_size_ok(o.entries@[j].1, #[trigger] vbs[j])
            &&& n == o.entries@.len() * (vstd::layout::size_of::<String>()
                + vstd::layout::size_of::<JsonValue>()) + #[trigger] sum(sbs)
                + #[trigger] sum(vbs)
        }
}

impl Size for JsonValue {
    open spec fn is_indirect_size(&self, n: nat) -> bool {
        json_size_ok(*self, n)
    }

    fn indirect_size(&self) -> (r: usize) {
        json_indirect(self)
    }
}

impl Size for JsonObject {
    open spec fn is_indirect_size(&self, n: nat) -> bool {
        json_object_size_ok(*self, n)
    }

    fn indirect_size(&self) -> (r: usize) {
        json_object_indirect(self)
    }
}

/// The dispatch behind `JsonValue::indirect_size`.
fn json_indirect(v: &JsonValue) -> (r: usize)
    ensures
        exists|n: nat| json_size_ok(*v, n) && r as nat == clamp_usize(n),
    decreases *v, 0nat,
{
    match v {
        JsonValue::Null => {
            proof {
                assert(json_size_ok(*v, 0) && 0 as nat == clamp_usize(0));
            }
            0
        },
        JsonValue::Bool(_) => {
            proof {
                assert(json_size_ok(*v, 0) && 0 as nat == clamp_usize(0));
            }
            0
        },
        JsonValue::Number(_) => {
            proof {
                assert(json_size_ok(*v, 0) && 0 as nat == clamp_usize(0));
            }
            0
        },
        JsonValue::Text(s) => {
            let r = string_capacity(s);
            proof {
                assert(json_size_ok(*v, r as nat) && r as nat == clamp_usize(r as nat));
            }
            r
        },
        JsonValue::Array(a) => {
            let cap = vec_capacity(a);
            let elem: usize = core::mem::size_of::<JsonValue>();
            let mut total: usize = cap * elem;
            let ghost buffer: nat = (cap * elem) as nat;
            let ghost mut ns: Seq<nat> = Seq::empty();
            let mut i: usize = 0;
            while i < a.len()
                invariant
                    *v == JsonValue::Array(*a),
                    i <= a@.len(),
                    cap * vstd::layout::size_of::<JsonValue>() <= isize::MAX as nat,
                    a@.len() <= cap,
                    elem as nat == vstd::layout::size_of::<JsonValue>(),
                    buffer == cap * vstd::layout::size_of::<JsonValue>(),
                    ns.len() == i,
                    forall|j: int| 0 <= j < i ==> json_size_ok(a@[j], #[trigger] ns[j]),
                    total as nat == clamp_usize((buffer + sum(ns)) as nat),
                decreases a@.len() - i,
            {
                proof {
                    assert(*v == JsonValue::Array(*a));
                    assert(decreases_to!(*v => v->Array_0));
                    assert(decreases_to!(v->Array_0 => v->Array_0@));
                    assert(decreases_to!(v->Array_0@ => v->Array_0@[i as int]));
                    assert(decreases_to!(*v => a@[i as int]));
                }
                let d = json_indirect(&a[i]);
                proof {
                    let m = choose|m: nat| json_size_ok(a@[i as int], m) && d as nat == clamp_usize(m);
                    lemma_sum_push(ns, m);
                    lemma_clamp_sum(buffer + sum(ns), m);
                    ns = ns.push(m);
                }
                total = sat_add(total, d);
                i = i + 1;
            }
            proof {
                assert(json_size_ok(*v, (buffer + sum(ns)) as nat));
            }
            total
        },
        JsonValue::Object(o) => {
            let r = json_object_indirect(o);
            proof {
                let n = choose|n: nat| json_object_size_ok(*o, n) && r as nat == clamp_usize(n);
                assert(json_size_ok(*v, n));
            }
            r
        },
    }
}

/// The entry-summing loop behind `JsonObject::indirect_size`.
fn json_object_indirect(o: &JsonObject) -> (r: usize)
    ensures
        exists|n: nat| json_object_size_ok(*o, n) && r as nat == clamp_usize(n),
    decreases *o, 0nat,
{
    let mut total: usize = 0;
    let ghost mut sbs: Seq<nat> = Seq::empty();
    let ghost mut vbs: Seq<nat> = Seq::empty();
    let ghost pair: nat = vstd::layout::size_of::<String>()
        + vstd::layout::size_of::<JsonValue>();
    let mut i: usize = 0;
    while i < o.entries.len()
        invariant
            i <= o.entries@.len(),
            sbs.len() == i,
            vbs.len() == i,
            pair == vstd::layout::size_of::<String>() + vstd::layout::size_of::<JsonValue>(),
            forall|j: int|
                0 <= j < i ==> o.entries@[j].0@.len() <= #[trigger] sbs[j] <= isize::MAX as nat,
            forall|j: int| 0 <= j < i ==> json_size_ok(o.entries@[j].1, #[trigger] vbs[j]),
            total as nat == clamp_usize((i * pair + sum(sbs) + sum(vbs)) as nat),
        decreases o.entries@.len() - i,
    {
        let a = o.entries[i].0.full_size();
        let b = json_full(&o.entries[i].1);
        let entry = sat_add(a, b);
        proof {
            let sb = choose|w: nat|
                o.entries@[i as int].0.is_indirect_size(w) && a as nat == clamp_usize(
                    (vstd::layout::size_of::<String>() + w) as nat,
                );
            let vb = choose|w: nat|
                json_size_ok(o.entries@[i as int].1, w) && b as nat == clamp_usize(
                    (vstd::layout::size_of::<JsonValue>() + w) as nat,
                );
            lemma_clamp_sum(
                (vstd::layout::size_of::<String>() + sb) as nat,
                (vstd::layout::size_of::<JsonValue>() + vb) as nat,
            );
            lemma_clamp_sum((i * pair + sum(sbs) + sum(vbs)) as nat, (pair + sb + vb) as nat);
            lemma_sum_push(sbs, sb);
            lemma_sum_push(vbs, vb);
            sbs = sbs.push(sb);
            vbs = vbs.push(vb);
            assert((i + 1) * pair == i * pair + pair) by (nonlinear_arith);
        }
        total = sat_add(total, entry);
        i = i + 1;
    }
    proof {
        assert(json_object_size_ok(
            *o,
            (o.entries@.len() * pair + sum(sbs) + sum(vbs)) as nat,
        ));
    }
    total
}

/// The full size of a dynamic value: its fixed inline footprint plus its
/// indirect size.
fn json_full(v: &JsonValue) -> (r: usize)
    ensures
        exists|n: nat|
            json_size_ok(*v, n) && r as nat == clamp_usize(
                (vstd::layout::size_of::<JsonValue>() + n) as nat,
            ),
    decreases *v, 1nat,
{
    let inline: usize = core::mem::size_of::<JsonValue>();
    let ind = json_indirect(v);
    proof {
        let n = choose|n: nat| json_size_ok(*v, n) && ind as nat == clamp_usize(n);
        crate::size::lemma_clamp_add(inline as nat, n);
    }
    sat_add(inline, ind)
}

} // verus!
