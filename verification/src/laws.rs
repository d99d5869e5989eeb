//! The laws of the evaluator, stated over its mathematical model and proved
//! once and for all.

use vstd::prelude::*;

use crate::ast::{Expr, PhaseOp};
use crate::eval::{spec_and3, spec_eval, spec_imp3, spec_or3, Evaluator};
use crate::phase::Phase;
use crate::value::V;

verus! {

/// Evaluation is pure: its outcome is a function of the tree and the store
/// snapshot alone, so repeated evaluations of one tree under one snapshot
/// agree.
pub proof fn lemma_eval_deterministic(
    e: Expr,
    mem: Map<Seq<char>, bool>,
    r1: (V, Phase),
    r2: (V, Phase),
)
    requires
        r1 == spec_eval(e, mem),
        r2 == spec_eval(e, mem),
    ensures
        r1 == r2,
{
}

/// The ternary conjunction table: false if either operand is false, true if
/// both are true, unknown in every remaining case.
pub proof fn lemma_and3_table(a: V, b: V)
    ensures
        spec_and3(a, b) == V::Bool(false) <==> (a == V::Bool(false) || b == V::Bool(false)),
        spec_and3(a, b) == V::Bool(true) <==> (a == V::Bool(true) && b == V::Bool(true)),
        spec_and3(a, b) == V::Unknown <==> (!(a == V::Bool(false) || b == V::Bool(false)) && !(a
            == V::Bool(true) && b == V::Bool(true))),
{
}

/// The ternary disjunction table: true if either operand is true, false if
/// both are false, unknown in every remaining case.
pub proof fn lemma_or3_table(a: V, b: V)
    ensures
        spec_or3(a, b) == V::Bool(true) <==> (a == V::Bool(true) || b == V::Bool(true)),
        spec_or3(a, b) == V::Bool(false) <==> (a == V::Bool(false) && b == V::Bool(false)),
        spec_or3(a, b) == V::Unknown <==> (!(a == V::Bool(true) || b == V::Bool(true)) && !(a
            == V::Bool(false) && b == V::Bool(false))),
{
}

/// The ternary implication table: true on a false antecedent or a true
/// consequent, false on a true antecedent with a false consequent, unknown
/// in every remaining case.
pub proof fn lemma_imp3_table(a: V, b: V)
    ensures
        spec_imp3(a, b) == V::Bool(true) <==> (a == V::Bool(false) || b == V::Bool(true)),
        spec_imp3(a, b) == V::Bool(false) <==> (a == V::Bool(true) && b == V::Bool(false)),
        spec_imp3(a, b) == V::Unknown <==> (!(a == V::Bool(false) || b == V::Bool(true)) && !(a
            == V::Bool(true) && b == V::Bool(false))),
{
}

/// Double negation of a literal gives the literal back, still directly
/// computed: negation swaps true and false and keeps the phase of a
/// definite result.
pub proof fn lemma_not_involution(e: Expr, b: bool, mem: Map<Seq<char>, bool>)
    requires
        (e matches Expr::Not(x) && *x matches Expr::Not(y) && *y == Expr::Bool(b)),
    ensures
        spec_eval(e, mem) == (V::Bool(b), Phase::ALIVE),
{
    if let Expr::Not(x) = e {
        if let Expr::Not(y) = *x {
            assert(spec_eval(*y, mem) == (V::Bool(b), Phase::ALIVE));
            assert(spec_eval(*x, mem) == (V::Bool(!b), Phase::ALIVE));
        }
    }
}

/// The collapse to vacuity: a binary connector whose combined value is
/// unknown reports phase `VAC`, whatever the phases of its operands were.
pub proof fn lemma_vac_collapse(e: Expr, mem: Map<Seq<char>, bool>)
    requires
        e matches Expr::And(_, _) || e matches Expr::Or(_, _) || e matches Expr::Imp(_, _),
        spec_eval(e, mem).0 == V::Unknown,
    ensures
        spec_eval(e, mem).1 == Phase::VAC,
{
}

/// Phase forcing: `Alive`, `Jam` and `Mem` keep the computed value and only
/// override the phase tag, while `Vac` discards the value as well, forcing
/// unknown.
pub proof fn lemma_phase_force(e: Expr, mem: Map<Seq<char>, bool>)
    requires
        e matches Expr::PhaseOp(_, _),
    ensures
        e matches Expr::PhaseOp(op, x) ==> spec_eval(e, mem) == (match op {
            PhaseOp::Alive => (spec_eval(*x, mem).0, Phase::ALIVE),
            PhaseOp::Jam => (spec_eval(*x, mem).0, Phase::JAM),
            PhaseOp::Mem => (spec_eval(*x, mem).0, Phase::MEM),
            PhaseOp::Vac => (V::Unknown, Phase::VAC),
        }),
{
}

/// The memory round trip: after importing facts into a store, an identifier
/// whose name the facts bind evaluates to its stored boolean with phase
/// `MEM`, and one bound nowhere stays unknown with phase `VAC`.
pub proof fn lemma_import_then_lookup(
    mem0: Map<Seq<char>, bool>,
    facts: Map<Seq<char>, bool>,
    name: String,
)
    ensures
        facts.contains_key(name@) ==> spec_eval(
            Expr::Ident(name),
            mem0.union_prefer_right(facts),
        ) == (V::Bool(facts[name@]), Phase::MEM),
        !facts.contains_key(name@) && !mem0.contains_key(name@) ==> spec_eval(
            Expr::Ident(name),
            mem0.union_prefer_right(facts),
        ) == (V::Unknown, Phase::VAC),
{
}

/// With memory disabled the store is empty, so every identifier is a free
/// variable with no information: it evaluates to unknown with phase `VAC`.
pub proof fn lemma_mem_disabled_ident(ev: &Evaluator, name: String)
    requires
        ev.wf(),
        !ev.memory_enabled(),
    ensures
        spec_eval(Expr::Ident(name), ev.mem()) == (V::Unknown, Phase::VAC),
{
    assert(!Map::<Seq<char>, bool>::empty().contains_key(name@));
}

} // verus!
