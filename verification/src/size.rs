//! The size-reporting contract and its implementations for scalars and the
//! standard containers.
//!
//! The indirect size of a value is a mathematical byte count; what a call
//! can report is a `usize`, so every reported count is the mathematical one
//! clamped to `usize::MAX`. Container capacities are decided by the
//! allocator, not by the value's contents, so the contract of
//! [`Size::indirect_size`] is a relation: it admits every count that some
//! capacity choice makes true, and each call reports one of them.

use vstd::prelude::*;

verus! {

/// Clamp a mathematical byte count to what a `usize` can report.
pub open spec fn clamp_usize(n: nat) -> nat {
    if n <= usize::MAX {
        n
    } else {
        usize::MAX as nat
    }
}

/// Saturating addition on reported byte counts.
pub fn sat_add(a: usize, b: usize) -> (r: usize)
    ensures
        r as nat == clamp_usize((a + b) as nat),
{
    a.saturating_add(b)
}

/// Adding onto an already-clamped count clamps the mathematical sum.
pub proof fn lemma_clamp_add(a: nat, b: nat)
    requires
        a <= usize::MAX,
    ensures
        clamp_usize((a + clamp_usize(b)) as nat) == clamp_usize((a + b) as nat),
{
}

/// The sum of a sequence of byte counts.
pub open spec fn sum(ns: Seq<nat>) -> nat
    decreases ns.len(),
{
    if ns.len() == 0 {
        0
    } else {
        sum(ns.drop_last()) + ns.last()
    }
}

pub proof fn lemma_sum_push(ns: Seq<nat>, x: nat)
    ensures
        sum(ns.push(x)) == sum(ns) + x,
{
    assert(ns.push(x).drop_last() =~= ns);
    assert(ns.push(x).last() == x);
}

/// `ns` lists, element by element, an admissible indirect size for each
/// element of `s`.
pub open spec fn elem_indirect_sizes<T: Size>(s: Seq<T>, ns: Seq<nat>) -> bool {
    &&& ns.len() == s.len()
    &&& forall|i: int| 0 <= i < s.len() ==> s[i].is_indirect_size(#[trigger] ns[i])
}

/// The footprint-accounting contract.
///
/// `indirect_size` reports the bytes a value owns outside of its own inline
/// representation; `full_size` adds the type's fixed inline footprint. Both
/// are total: they never fail and never panic, and a count too large for a
/// `usize` is reported as `usize::MAX`.
pub trait Size: Sized {
    /// The mathematical indirect byte counts that this value admits.
    ///
    /// For types whose out-of-line storage is fully determined by the value
    /// (scalars, options, boxes) the relation holds of exactly one count;
    /// for types with an allocator-chosen capacity it holds of one count per
    /// admissible capacity.
    spec fn is_indirect_size(&self, n: nat) -> bool;

    /// Report the bytes owned by this value but stored outside of it, such
    /// as in the allocation of a growable sequence or a box.
    ///
    /// This is 0 for simple scalars (such as `u8`).
    fn indirect_size(&self) -> (r: usize)
        ensures
            exists|n: nat| self.is_indirect_size(n) && r as nat == clamp_usize(n),
    ;

    /// Report the full footprint of this value: the fixed inline size of the
    /// type plus the value's indirect size.
    fn full_size(&self) -> (r: usize)
        ensures
            exists|n: nat|
                self.is_indirect_size(n) && r as nat == clamp_usize(
                    (vstd::layout::size_of::<Self>() + n) as nat,
                ),
    {
        let inline: usize = core::mem::size_of::<Self>();
        let ind = self.indirect_size();
        proof {
            let n = choose|n: nat| self.is_indirect_size(n) && ind as nat == clamp_usize(n);
            lemma_clamp_add(inline as nat, n);
        }
        sat_add(inline, ind)
    }
}

impl Size for u8 {
    open spec fn is_indirect_size(&self, n: nat) -> bool {
        n == 0
    }

    fn indirect_size(&self) -> (r: usize)
        ensures
            r == 0,
    {
        proof {
            assert(self.is_indirect_size(0) && 0 as nat == clamp_usize(0));
        }
        0
    }
}

impl Size for i32 {
    open spec fn is_indirect_size(&self, n: nat) -> bool {
        n == 0
    }

    fn indirect_size(&self) -> (r: usize)
        ensures
            r == 0,
    {
        proof {
            assert(self.is_indirect_size(0) && 0 as nat == clamp_usize(0));
        }
        0
    }
}

impl Size for i64 {
    open spec fn is_indirect_size(&self, n: nat) -> bool {
        n == 0
    }

    fn indirect_size(&self) -> (r: usize)
        ensures
            r == 0,
    {
        proof {
            assert(self.is_indirect_size(0) && 0 as nat == clamp_usize(0));
        }
        0
    }
}

impl Size for bool {
    open spec fn is_indirect_size(&self, n: nat) -> bool {
        n == 0
    }

    fn indirect_size(&self) -> (r: usize)
        ensures
            r == 0,
    {
        proof {
            assert(self.is_indirect_size(0) && 0 as nat == clamp_usize(0));
        }
        0
    }
}

impl<T: Size> Size for Option<T> {
    /// An empty optional owns nothing out of line; a populated one owns
    /// exactly what its contained value owns.
    open spec fn is_indirect_size(&self, n: nat) -> bool {
        match self {
            Option::None => n == 0,
            Option::Some(x) => x.is_indirect_size(n),
        }
    }

    fn indirect_size(&self) -> (r: usize) {
        match self {
            Option::None => {
                proof {
                    assert(self.is_indirect_size(0) && 0 as nat == clamp_usize(0));
                }
                0
            },
            Option::Some(x) => x.indirect_size(),
        }
    }
}

impl<T: Size> Size for Box<T> {
    /// The owned value's entire representation lives outside the box's own
    /// pointer-sized slot, so the box's indirect size is the owned value's
    /// full size.
    open spec fn is_indirect_size(&self, n: nat) -> bool {
        exists|m: nat|
            (**self).is_indirect_size(m) && n == vstd::layout::size_of::<T>() + m
    }

    fn indirect_size(&self) -> (r: usize) {
        let r = T::full_size(&**self);
        proof {
            let m = choose|m: nat|
                (**self).is_indirect_size(m) && r as nat == clamp_usize(
                    (vstd::layout::size_of::<T>() + m) as nat,
                );
            assert(self.is_indirect_size((vstd::layout::size_of::<T>() + m) as nat));
        }
        r
    }
}

/// Relies on `Vec::capacity`: the number of elements the vector can hold
/// without reallocating, which is at least its length; and on the vector's
/// documented guarantee that it never allocates more than `isize::MAX`
/// bytes.
#[verifier::external_body]
pub(crate) fn vec_capacity<T>(v: &Vec<T>) -> (r: usize)
    ensures
        v@.len() <= r,
        r * vstd::layout::size_of::<T>() <= isize::MAX as nat,
{
    v.capacity()
}

impl<T: Size> Size for Vec<T> {
    /// The whole reserved buffer counts — capacity, not length — because
    /// unused reserved capacity still occupies allocated memory; each
    /// present element then contributes its own indirect size.
    open spec fn is_indirect_size(&self, n: nat) -> bool {
        exists|cap: nat, ns: Seq<nat>|
            {
                &&& self@.len() <= cap
                &&& #[trigger] (cap * vstd::layout::size_of::<T>()) <= isize::MAX as nat
                &&& #[trigger] elem_indirect_sizes(self@, ns)
                &&& n == cap * vstd::layout::size_of::<T>() + sum(ns)
            }
    }

    fn indirect_size(&self) -> (r: usize) {
        let cap = vec_capacity(self);
        let elem: usize = core::mem::size_of::<T>();
        let mut total: usize = cap * elem;
        let ghost buffer: nat = (cap * elem) as nat;
        let ghost mut ns: Seq<nat> = Seq::empty();
        let mut i: usize = 0;
        while i < self.len()
            invariant
                i <= self@.len(),
                cap * vstd::layout::size_of::<T>() <= isize::MAX as nat,
                self@.len() <= cap,
                elem as nat == vstd::layout::size_of::<T>(),
                buffer == cap * vstd::layout::size_of::<T>(),
                ns.len() == i,
                forall|j: int| 0 <= j < i ==> self@[j].is_indirect_size(#[trigger] ns[j]),
                total as nat == clamp_usize((buffer + sum(ns)) as nat),
            decreases self@.len() - i,
        {
            let d = self[i].indirect_size();
            proof {
                let m = choose|m: nat|
                    self@[i as int].is_indirect_size(m) && d as nat == clamp_usize(m);
                lemma_sum_push(ns, m);
                lemma_clamp_sum(buffer + sum(ns), m);
                ns = ns.push(m);
            }
            total = sat_add(total, d);
            i = i + 1;
        }
        proof {
            assert(elem_indirect_sizes(self@, ns));
            assert(self.is_indirect_size((buffer + sum(ns)) as nat));
        }
        total
    }
}

/// Clamped counts add up to the clamp of the mathematical sum.
pub proof fn lemma_clamp_sum(a: nat, b: nat)
    ensures
        clamp_usize((clamp_usize(a) + clamp_usize(b)) as nat) == clamp_usize((a + b) as nat),
{
}

/// Relies on `String::capacity`: the buffer size in bytes, at least the
/// string's byte length (itself at least the number of characters, since
/// every character occupies at least one byte); and on the documented
/// guarantee that an allocation never exceeds `isize::MAX` bytes.
#[verifier::external_body]
pub(crate) fn string_capacity(s: &String) -> (r: usize)
    ensures
        s@.len() <= r,
        r <= isize::MAX as nat,
{
    s.capacity()
}

impl Size for String {
    /// A text buffer owns its whole allocation: its capacity in bytes,
    /// whatever its current length.
    open spec fn is_indirect_size(&self, n: nat) -> bool {
        self@.len() <= n <= isize::MAX as nat
    }

    fn indirect_size(&self) -> (r: usize)
        ensures
            self@.len() <= r,
            self.is_indirect_size(r as nat),
    {
        let r = string_capacity(self);
        proof {
            assert(self.is_indirect_size(r as nat) && r as nat == clamp_usize(r as nat));
        }
        r
    }
}

} // verus!
