//! Laws of the two engines, proved once over all inputs.

use vstd::prelude::*;

use crate::ast::{Function, IdentifierOrCall, MemberExpression, Statement};
use crate::builder::BuilderModel;
use crate::macros::{
    first_invocation, first_missing, last_macro_def, missing_in, strip_decorators,
    strip_macro_declares,
};
use crate::render::{render_reference, VisitError};

verus! {

/// Passthrough: a program with no macro-decorator statements passes
/// phase two through unchanged, in the same order.  Expansion drops
/// nothing (`strip_decorators` keeps every statement), meets no
/// undefined macro reference and attempts no evaluation, so by the
/// contract of [`crate::macros::MacroExpander::expand_macros`] the only
/// possible outcome is success with the same statements.
pub proof fn lemma_expand_passthrough(defined: Set<Seq<char>>, ss: Seq<Statement>)
    requires
        forall|i: int| 0 <= i < ss.len() ==> !((#[trigger] ss[i]) is MacroDecorator),
    ensures
        strip_decorators(ss) == ss,
        first_missing(defined, ss) is None,
        first_invocation(ss) is None,
    decreases ss.len(),
{
    if ss.len() > 0 {
        assert forall|i: int| 0 <= i < ss.len() - 1 implies !((#[trigger] ss.drop_last()[i])
            is MacroDecorator) by {
            assert(ss.drop_last()[i] == ss[i]);
        }
        lemma_expand_passthrough(defined, ss.drop_last());
        assert(ss.last() == ss[ss.len() - 1]);
        assert(strip_decorators(ss) =~= ss);
    } else {
        assert(strip_decorators(ss) =~= ss);
    }
}

/// A program holding exactly one macro definition and nothing else
/// compiles to an empty-statement program, and the macro table then
/// maps exactly one name: that function's.  With an empty table before
/// phase one, the contract of
/// [`crate::macros::MacroExpander::compile_macros`] then gives a table
/// whose only key is the definition's name, holding the definition and
/// its rendered code.
pub proof fn lemma_compile_single_macro(ss: Seq<Statement>, f: Function)
    requires
        ss.len() == 1,
        ss[0] == Statement::MacroDeclare(f),
    ensures
        strip_macro_declares(ss) == Seq::<Statement>::empty(),
        last_macro_def(ss, f.name.0@) == Some(f),
        forall|name: Seq<char>|
            name != f.name.0@ ==> #[trigger] last_macro_def(ss, name) is None,
{
    assert(ss.last() == ss[0]);
    assert(ss.drop_last().len() == 0);
    assert(strip_macro_declares(ss.drop_last()) =~= Seq::<Statement>::empty());
    assert(last_macro_def(ss.drop_last(), f.name.0@) is None);
    assert(strip_macro_declares(ss) =~= Seq::<Statement>::empty());
    assert forall|name: Seq<char>|
        name != f.name.0@ implies #[trigger] last_macro_def(ss, name) is None by {
        assert(last_macro_def(ss.drop_last(), name) is None);
    }
}

/// The first macro name an invocation list references while every name
/// before it is defined: when the list's first reference is absent, it
/// is the missing one, whatever follows it.
pub proof fn lemma_missing_first(defined: Set<Seq<char>>, ms: Seq<IdentifierOrCall>)
    requires
        ms.len() > 0,
        !defined.contains(ms[0].target.0@),
    ensures
        missing_in(defined, ms) == Some(ms[0].target.0@),
    decreases ms.len(),
{
    if ms.len() > 1 {
        assert(ms.drop_last()[0] == ms[0]);
        lemma_missing_first(defined, ms.drop_last());
    } else {
        assert(ms.last() == ms[0]);
        assert(ms.drop_last().len() == 0);
        assert(missing_in(defined, ms.drop_last()) is None);
    }
}

/// A program whose only statement is a decorator whose first macro
/// reference names an absent macro: the expansion scan meets exactly
/// that name as its first missing one, and its first invocation is
/// undefined, so no evaluation is ever attempted.  By the contract of
/// [`crate::macros::MacroExpander::expand_macros`] the only possible
/// outcome is the named-missing-macro error carrying exactly that
/// name, and the statement produces no emission.
pub proof fn lemma_missing_macro_rejected(defined: Set<Seq<char>>, ss: Seq<Statement>)
    requires
        ss.len() == 1,
        ss[0] matches Statement::MacroDecorator(d) && d.macros@.len() > 0 && !defined.contains(
            d.macros@[0].target.0@,
        ),
    ensures
        ss[0] matches Statement::MacroDecorator(d) ==> {
            &&& first_missing(defined, ss) == Some(d.macros@[0].target.0@)
            &&& match first_invocation(ss) {
                Some(q) => !defined.contains(q.target.0@),
                None => false,
            }
        },
{
    let s0 = ss[0];
    assert(ss.last() == ss[0]);
    assert(ss.drop_last().len() == 0);
    assert(first_missing(defined, ss.drop_last()) is None);
    assert(first_invocation(ss.drop_last()) is None);
    match s0 {
        Statement::MacroDecorator(d) => {
            lemma_missing_first(defined, d.macros@);
        },
        _ => {},
    }
}

/// A reference expression whose first segment is computed or indexed
/// always fails with the structural error, independent of what follows
/// it: there is no left operand to index into.
pub proof fn lemma_computed_first_segment_rejected(m: MemberExpression, b: BuilderModel)
    requires
        !(m.head is Identifier),
    ensures
        render_reference(m, b) == Err::<BuilderModel, VisitError>(
            VisitError::ComputedFirstSegment,
        ),
{
}

} // verus!
