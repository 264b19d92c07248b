//! Rendering a planned implementation as Rust source text.
//!
//! The emitted implementation defines only `indirect_size`; `full_size` is
//! inherited from the contract's default. Every generic type parameter of
//! the target type is bound by `value_size::Size` in the emitted `where`
//! clause, so that `indirect_size` is callable on fields of parameter type.

use crate::shape::{ArmPattern, GenArm, GenImpl};
use crate::text::{append_wrapped_list, joined, wrapped_views};
use vstd::prelude::*;
use vstd::string::*;

verus! {

/// `<A, B>`, or nothing when the type has no generic parameters.
pub open spec fn generics_text(params: Seq<String>) -> Seq<char> {
    if params.len() == 0 {
        Seq::empty()
    } else {
        "<"@ + joined(wrapped_views(params, ""@, ""@), ", "@) + ">"@
    }
}

/// ` where A: value_size::Size, B: value_size::Size`, or nothing when the
/// type has no generic parameters.
pub open spec fn where_text(params: Seq<String>) -> Seq<char> {
    if params.len() == 0 {
        Seq::empty()
    } else {
        " where "@ + joined(wrapped_views(params, ""@, ": value_size::Size"@), ", "@)
    }
}

/// The destructuring pattern of one arm.
pub open spec fn pattern_text(arm: GenArm) -> Seq<char> {
    match arm.pattern {
        ArmPattern::Named => " { "@ + joined(wrapped_views(arm.bindings@, ""@, ""@), ", "@)
            + " }"@,
        ArmPattern::Positional => "("@ + joined(wrapped_views(arm.bindings@, ""@, ""@), ", "@)
            + ")"@,
        ArmPattern::Unit => Seq::empty(),
    }
}

/// The arm's body: the sum of the bound fields' indirect sizes, or the
/// additive identity `0` when the arm binds no fields.
pub open spec fn body_text(arm: GenArm) -> Seq<char> {
    if arm.bindings@.len() == 0 {
        "0"@
    } else {
        joined(wrapped_views(arm.bindings@, "value_size::Size::indirect_size("@, ")"@), " + "@)
    }
}

/// The arm's match path: the bare type name for a record, or
/// `Type::Variant` for an alternative of a tagged union.
pub open spec fn path_text(target: Seq<char>, arm: GenArm) -> Seq<char> {
    match arm.variant {
        Option::None => target,
        Option::Some(v) => target + "::"@ + v@,
    }
}

/// One full match arm.
pub open spec fn arm_text(target: Seq<char>, arm: GenArm) -> Seq<char> {
    path_text(target, arm) + pattern_text(arm) + " => "@ + body_text(arm) + ", "@
}

/// All match arms, in plan order.
pub open spec fn arms_text(target: Seq<char>, arms: Seq<GenArm>) -> Seq<char>
    decreases arms.len(),
{
    if arms.len() == 0 {
        Seq::empty()
    } else {
        arms_text(target, arms.drop_last()) + arm_text(target, arms.last())
    }
}

/// The full source text of the planned implementation.
pub open spec fn render_text(g: GenImpl) -> Seq<char> {
    "impl"@ + generics_text(g.params@) + " value_size::Size for "@ + g.target@ + generics_text(
        g.params@,
    ) + where_text(g.params@) + " { fn indirect_size(&self) -> usize { match self { "@ + arms_text(
        g.target@,
        g.arms@,
    ) + "} } }"@
}

fn append_generics(out: &mut String, params: &Vec<String>)
    ensures
        final(out)@ == old(out)@ + generics_text(params@),
{
    if params.len() > 0 {
        out.append("<");
        append_wrapped_list(out, params, ", ", "", "");
        out.append(">");
        proof {
            assert(out@ =~= old(out)@ + generics_text(params@));
        }
    } else {
        proof {
            assert(out@ =~= old(out)@ + generics_text(params@));
        }
    }
}

fn append_where(out: &mut String, params: &Vec<String>)
    ensures
        final(out)@ == old(out)@ + where_text(params@),
{
    if params.len() > 0 {
        out.append(" where ");
        append_wrapped_list(out, params, ", ", "", ": value_size::Size");
        proof {
            assert(out@ =~= old(out)@ + where_text(params@));
        }
    } else {
        proof {
            assert(out@ =~= old(out)@ + where_text(params@));
        }
    }
}

fn append_arm(out: &mut String, target: &String, arm: &GenArm)
    ensures
        final(out)@ == old(out)@ + arm_text(target@, *arm),
{
    out.append(target.as_str());
    match &arm.variant {
        Option::Some(v) => {
            out.append("::");
            out.append(v.as_str());
        },
        Option::None => {},
    }
    proof {
        assert(out@ =~= old(out)@ + path_text(target@, *arm));
    }
    let ghost with_path: Seq<char> = out@;
    match &arm.pattern {
        ArmPattern::Named => {
            out.append(" { ");
            append_wrapped_list(out, &arm.bindings, ", ", "", "");
            out.append(" }");
        },
        ArmPattern::Positional => {
            out.append("(");
            append_wrapped_list(out, &arm.bindings, ", ", "", "");
            out.append(")");
        },
        ArmPattern::Unit => {},
    }
    proof {
        assert(out@ =~= with_path + pattern_text(*arm));
    }
    let ghost with_pattern: Seq<char> = out@;
    out.append(" => ");
    if arm.bindings.len() == 0 {
        out.append("0");
    } else {
        append_wrapped_list(out, &arm.bindings, " + ", "value_size::Size::indirect_size(", ")");
    }
    out.append(", ");
    proof {
        assert(out@ =~= with_pattern + " => "@ + body_text(*arm) + ", "@);
        assert(out@ =~= old(out)@ + arm_text(target@, *arm));
    }
}

/// Render the planned implementation as Rust source text.
pub fn render(g: &GenImpl) -> (r: String)
    ensures
        r@ == render_text(*g),
{
    let mut out = String::from_str("impl");
    append_generics(&mut out, &g.params);
    out.append(" value_size::Size for ");
    out.append(g.target.as_str());
    append_generics(&mut out, &g.params);
    append_where(&mut out, &g.params);
    out.append(" { fn indirect_size(&self) -> usize { match self { ");
    let ghost head: Seq<char> = out@;
    let mut i: usize = 0;
    while i < g.arms.len()
        invariant
            i <= g.arms@.len(),
            head == "impl"@ + generics_text(g.params@) + " value_size::Size for "@ + g.target@
                + generics_text(g.params@) + where_text(g.params@)
                + " { fn indirect_size(&self) -> usize { match self { "@,
            out@ == head + arms_text(g.target@, g.arms@.take(i as int)),
        decreases g.arms@.len() - i,
    {
        append_arm(&mut out, &g.target, &g.arms[i]);
        proof {
            assert(g.arms@.take(i + 1).drop_last() =~= g.arms@.take(i as int));
            assert(g.arms@.take(i + 1).last() == g.arms@[i as int]);
            assert(out@ =~= head + arms_text(g.target@, g.arms@.take(i + 1)));
        }
        i = i + 1;
    }
    out.append("} } }");
    proof {
        assert(g.arms@.take(g.arms@.len() as int) =~= g.arms@);
        assert(out@ =~= render_text(*g));
    }
    out
}

} // verus!
