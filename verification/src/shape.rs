//! The implementation generator.
//!
//! Given the declared shape of a user type — a record with one field set,
//! or a tagged union with one field set per alternative — the generator
//! plans a [`crate::size::Size`] implementation: one match arm per variant,
//! binding every field and summing the fields' indirect sizes, with every
//! generic type parameter bound by the size contract. Unrestricted-layout
//! unions are rejected; that is the generator's only failure.

use crate::text::{dec_digits, dec_string, str_views};
use vstd::prelude::*;
use vstd::string::*;

verus! {

/// The field set of a record or of one alternative of a tagged union.
pub enum FieldsShape {
    /// Fields declared with names, in declaration order.
    Named(Vec<String>),
    /// Fields declared positionally; only their count is declared.
    Positional(usize),
    /// No fields at all.
    Unit,
}

/// The declared data shape of a user type.
pub enum DataShape {
    /// A record: a single set of fields.
    Record(FieldsShape),
    /// A tagged union: named alternatives, each with its own field set.
    Alternatives(Vec<(String, FieldsShape)>),
    /// An unrestricted-layout union, which the generator rejects.
    Union,
}

/// The declaration the generator reads: the type's name, its generic type
/// parameters, and its data shape.
pub struct TypeDecl {
    pub name: String,
    pub params: Vec<String>,
    pub data: DataShape,
}

/// How a planned match arm destructures its variant.
pub enum ArmPattern {
    /// `Type::Variant { a, b }` — fields bound under their declared names.
    Named,
    /// `Type::Variant(field0, field1)` — synthesized positional names.
    Positional,
    /// `Type::Variant` — nothing to bind.
    Unit,
}

/// One planned match arm: the variant it selects (`None` for the sole arm
/// of a record), how it destructures, and the bound field variables whose
/// indirect sizes its body sums, in field-declaration order.
pub struct GenArm {
    pub variant: Option<String>,
    pub pattern: ArmPattern,
    pub bindings: Vec<String>,
}

/// A planned `Size` implementation for one type: the dispatch arms of its
/// `indirect_size`, with the type's name and generic parameters, each
/// parameter implicitly bound by the size contract.
pub struct GenImpl {
    pub target: String,
    pub params: Vec<String>,
    pub arms: Vec<GenArm>,
}

/// The generator's only failure: an unrestricted-layout union.
#[derive(Debug)]
pub enum GenError {
    UnionUnsupported,
}

impl GenError {
    /// The fatal build-time message reported for a rejected union.
    pub fn message(&self) -> (m: String)
        ensures
            m@ == "unions are for people, not data!"@,
    {
        String::from_str("unions are for people, not data!")
    }
}

/// The synthesized name of the `j`-th positional field.
pub open spec fn positional_binding(j: nat) -> Seq<char> {
    "field"@ + dec_digits(j)
}

/// The planned arm binds exactly the declared fields, in declaration
/// order: their declared names for named fields, `field0, field1, …` for
/// positional fields, and nothing for a unit field set.
pub open spec fn arm_matches(arm: GenArm, fields: FieldsShape) -> bool {
    match fields {
        FieldsShape::Named(names) => {
            &&& arm.pattern is Named
            &&& str_views(arm.bindings@) == str_views(names@)
        },
        FieldsShape::Positional(k) => {
            &&& arm.pattern is Positional
            &&& arm.bindings@.len() == k
            &&& forall|j: int|
                0 <= j < k ==> (#[trigger] arm.bindings@[j])@ == positional_binding(j as nat)
        },
        FieldsShape::Unit => {
            &&& arm.pattern is Unit
            &&& arm.bindings@.len() == 0
        },
    }
}

fn clone_strings(v: &Vec<String>) -> (r: Vec<String>)
    ensures
        r@ == v@,
{
    let mut r: Vec<String> = Vec::new();
    let mut i: usize = 0;
    while i < v.len()
        invariant
            i <= v@.len(),
            r@ == v@.take(i as int),
        decreases v@.len() - i,
    {
        r.push(v[i].clone());
        proof {
            assert(v@.take(i as int).push(v@[i as int]) =~= v@.take(i + 1));
        }
        i = i + 1;
    }
    proof {
        assert(v@.take(v@.len() as int) =~= v@);
    }
    r
}

fn make_arm(variant: Option<String>, fields: &FieldsShape) -> (arm: GenArm)
    ensures
        arm.variant == variant,
        arm_matches(arm, *fields),
{
    match fields {
        FieldsShape::Named(names) => GenArm {
            variant,
            pattern: ArmPattern::Named,
            bindings: clone_strings(names),
        },
        FieldsShape::Positional(k) => {
            let mut bindings: Vec<String> = Vec::new();
            let mut j: usize = 0;
            while j < *k
                invariant
                    j <= *k,
                    bindings@.len() == j,
                    forall|l: int|
                        0 <= l < j ==> (#[trigger] bindings@[l])@ == positional_binding(l as nat),
                decreases *k - j,
            {
                let mut b = String::from_str("field");
                let digits = dec_string(j);
                b.append(digits.as_str());
                bindings.push(b);
                j = j + 1;
            }
            GenArm { variant, pattern: ArmPattern::Positional, bindings }
        },
        FieldsShape::Unit => GenArm { variant, pattern: ArmPattern::Unit, bindings: Vec::new() },
    }
}

/// Plan the `Size` implementation for a declared type shape.
///
/// A record becomes a single arm with no variant discriminant; each
/// alternative of a tagged union becomes its own arm under its declared
/// name, in declaration order; each arm binds exactly its declared fields
/// and sums their indirect sizes. An unrestricted-layout union is rejected
/// and no implementation is produced for it.
pub fn generate(decl: &TypeDecl) -> (r: Result<GenImpl, GenError>)
    ensures
        r is Err <==> decl.data is Union,
        r matches Ok(g) ==> {
            &&& g.target@ == decl.name@
            &&& str_views(g.params@) == str_views(decl.params@)
            &&& match decl.data {
                DataShape::Record(fields) => {
                    &&& g.arms@.len() == 1
                    &&& g.arms@[0].variant is None
                    &&& arm_matches(g.arms@[0], fields)
                },
                DataShape::Alternatives(alts) => {
                    &&& g.arms@.len() == alts@.len()
                    &&& forall|i: int|
                        0 <= i < alts@.len() ==> {
                            &&& (#[trigger] g.arms@[i]).variant matches Some(v) && v@ == alts@[i].0@
                            &&& arm_matches(g.arms@[i], alts@[i].1)
                        }
                },
                DataShape::Union => false,
            }
        },
{
    let mut arms: Vec<GenArm> = Vec::new();
    match &decl.data {
        DataShape::Union => {
            return Result::Err(GenError::UnionUnsupported);
        },
        DataShape::Record(fields) => {
            let arm = make_arm(Option::None, fields);
            arms.push(arm);
        },
        DataShape::Alternatives(alts) => {
            let mut i: usize = 0;
            while i < alts.len()
                invariant
                    i <= alts@.len(),
                    arms@.len() == i,
                    forall|l: int|
                        0 <= l < i ==> {
                            &&& (#[trigger] arms@[l]).variant matches Some(v) && v@ == alts@[l].0@
                            &&& arm_matches(arms@[l], alts@[l].1)
                        },
                decreases alts@.len() - i,
            {
                let name = alts[i].0.clone();
                let arm = make_arm(Option::Some(name), &alts[i].1);
                arms.push(arm);
                i = i + 1;
            }
        },
    }
    Result::Ok(GenImpl { target: decl.name.clone(), params: clone_strings(&decl.params), arms })
}

} // verus!
