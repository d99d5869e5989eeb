//! The evaluator: big-step reduction of an expression tree to a ternary
//! value paired with a phase tag.
//!
//! Both operands of a binary connector are always evaluated; there is no
//! short-circuiting. A connector whose combined value is unknown reports
//! phase `VAC` whatever its operands' phases were, and so does a negation
//! whose result is unknown.

use vstd::prelude::*;

use crate::ast::{Expr, PhaseOp};
use crate::mem::MemStore;
use crate::phase::{spec_join, Phase};
use crate::value::V;

verus! {

/// Result of evaluating an expression.
#[derive(Clone, Debug)]
pub struct EvalResult {
    pub value: V,
    pub phase: Phase,
}

/// Ternary conjunction: false dominates, then both-true, else unknown.
pub open spec fn spec_and3(a: V, b: V) -> V {
    if a == V::Bool(false) || b == V::Bool(false) {
        V::Bool(false)
    } else if a == V::Bool(true) && b == V::Bool(true) {
        V::Bool(true)
    } else {
        V::Unknown
    }
}

/// Ternary disjunction: true dominates, then both-false, else unknown.
pub open spec fn spec_or3(a: V, b: V) -> V {
    if a == V::Bool(true) || b == V::Bool(true) {
        V::Bool(true)
    } else if a == V::Bool(false) && b == V::Bool(false) {
        V::Bool(false)
    } else {
        V::Unknown
    }
}

/// Ternary implication: a false antecedent or a true consequent makes it
/// true, a true antecedent with a false consequent makes it false, and
/// every remaining combination is unknown.
pub open spec fn spec_imp3(a: V, b: V) -> V {
    if a == V::Bool(false) || b == V::Bool(true) {
        V::Bool(true)
    } else if a == V::Bool(true) && b == V::Bool(false) {
        V::Bool(false)
    } else {
        V::Unknown
    }
}

/// Ternary negation: true and false swap, unknown stays unknown.
pub open spec fn spec_not3(a: V) -> V {
    match a {
        V::Bool(b) => V::Bool(!b),
        V::Unknown => V::Unknown,
    }
}

/// What evaluating `e` under the store snapshot `mem` yields. This is the
/// whole behaviour of [`Evaluator::eval`], node kind by node kind.
pub open spec fn spec_eval(e: Expr, mem: Map<Seq<char>, bool>) -> (V, Phase)
    decreases e,
{
    match e {
        Expr::Bool(b) => (V::Bool(b), Phase::ALIVE),
        Expr::Ident(name) => if mem.contains_key(name@) {
            (V::Bool(mem[name@]), Phase::MEM)
        } else {
            (V::Unknown, Phase::VAC)
        },
        Expr::Not(x) => {
            let r = spec_eval(*x, mem);
            let v = spec_not3(r.0);
            (v, if v == V::Unknown { Phase::VAC } else { r.1 })
        },
        Expr::And(a, b) => {
            let ra = spec_eval(*a, mem);
            let rb = spec_eval(*b, mem);
            let v = spec_and3(ra.0, rb.0);
            (v, if v == V::Unknown { Phase::VAC } else { spec_join(ra.1, rb.1) })
        },
        Expr::Or(a, b) => {
            let ra = spec_eval(*a, mem);
            let rb = spec_eval(*b, mem);
            let v = spec_or3(ra.0, rb.0);
            (v, if v == V::Unknown { Phase::VAC } else { spec_join(ra.1, rb.1) })
        },
        Expr::Imp(a, b) => {
            let ra = spec_eval(*a, mem);
            let rb = spec_eval(*b, mem);
            let v = spec_imp3(ra.0, rb.0);
            (v, if v == V::Unknown { Phase::VAC } else { spec_join(ra.1, rb.1) })
        },
        Expr::PhaseOp(op, x) => {
            let r = spec_eval(*x, mem);
            match op {
                PhaseOp::Alive => (r.0, Phase::ALIVE),
                PhaseOp::Jam => (r.0, Phase::JAM),
                PhaseOp::Mem => (r.0, Phase::MEM),
                PhaseOp::Vac => (V::Unknown, Phase::VAC),
            }
        },
    }
}

/// Ternary conjunction over both operands' values.
pub fn and3(a: V, b: V) -> (r: V)
    ensures
        r == spec_and3(a, b),
{
    match (a.to_bool(), b.to_bool()) {
        (Some(false), _) | (_, Some(false)) => V::Bool(false),
        (Some(true), Some(true)) => V::Bool(true),
        _ => V::Unknown,
    }
}

/// Ternary disjunction over both operands' values.
pub fn or3(a: V, b: V) -> (r: V)
    ensures
        r == spec_or3(a, b),
{
    match (a.to_bool(), b.to_bool()) {
        (Some(true), _) | (_, Some(true)) => V::Bool(true),
        (Some(false), Some(false)) => V::Bool(false),
        _ => V::Unknown,
    }
}

/// Ternary implication over both operands' values.
pub fn imp3(a: V, b: V) -> (r: V)
    ensures
        r == spec_imp3(a, b),
{
    match (a.to_bool(), b.to_bool()) {
        (Some(false), _) => V::Bool(true),
        (Some(true), Some(v)) => V::Bool(v),
        (Some(true), None) => V::Unknown,
        (None, Some(true)) => V::Bool(true),
        _ => V::Unknown,
    }
}

/// Evaluator with optional memory semantics and a small persistent store.
///
/// The store is read by evaluation and written only by [`Evaluator::import_mem`];
/// with memory disabled it stays empty for the whole session.
pub struct Evaluator {
    /// Whether memory semantics are enabled; fixed at construction.
    pub mem_enabled: bool,
    mem_store: MemStore,
}

impl Evaluator {
    /// The store snapshot that identifier lookups read.
    pub closed spec fn mem(&self) -> Map<Seq<char>, bool> {
        self.mem_store@
    }

    /// Whether memory semantics are enabled, as the contracts speak of it.
    pub closed spec fn memory_enabled(&self) -> bool {
        self.mem_enabled
    }

    /// With memory disabled the store never holds a fact.
    pub open spec fn wf(&self) -> bool {
        !self.memory_enabled() ==> self.mem() == Map::<Seq<char>, bool>::empty()
    }

    /// A fresh evaluator with an empty store.
    pub fn new(mem_enabled: bool) -> (r: Self)
        ensures
            r.memory_enabled() == mem_enabled,
            r.mem() == Map::<Seq<char>, bool>::empty(),
            r.wf(),
    {
        Evaluator { mem_enabled, mem_store: MemStore::new() }
    }

    /// Merges external facts into the store, a key already present being
    /// overwritten; with memory disabled this is a no-op.
    pub fn import_mem(&mut self, facts: MemStore)
        ensures
            final(self).memory_enabled() == old(self).memory_enabled(),
            !old(self).memory_enabled() ==> *final(self) == *old(self),
            old(self).memory_enabled() ==> final(self).mem() == old(
                self,
            ).mem().union_prefer_right(facts@),
            old(self).wf() ==> final(self).wf(),
    {
        if !self.mem_enabled {
            return;
        }
        self.mem_store.extend(facts);
    }

    /// A snapshot of the current store, independent of the evaluator's own;
    /// with memory disabled, an empty mapping.
    pub fn export_mem(&self) -> (r: MemStore)
        ensures
            self.memory_enabled() ==> r@ == self.mem(),
            !self.memory_enabled() ==> r@ == Map::<Seq<char>, bool>::empty(),
    {
        if !self.mem_enabled {
            return MemStore::new();
        }
        self.mem_store.duplicate()
    }

    /// Evaluates an expression: a pure, total function of the tree and the
    /// current store snapshot, as [`spec_eval`] states node by node.
    pub fn eval(&self, e: &Expr) -> (r: EvalResult)
        ensures
            r.value == spec_eval(*e, self.mem()).0,
            r.phase == spec_eval(*e, self.mem()).1,
        decreases *e,
    {
        match e {
            Expr::Bool(b) => EvalResult { value: V::Bool(*b), phase: Phase::ALIVE },
            Expr::Ident(name) => {
                match self.mem_store.get(name) {
                    Some(b) => EvalResult { value: V::Bool(b), phase: Phase::MEM },
                    None => EvalResult { value: V::Unknown, phase: Phase::VAC },
                }
            },
            Expr::Not(x) => {
                let r = self.eval(x);
                let v = match r.value.to_bool() {
                    Some(true) => V::Bool(false),
                    Some(false) => V::Bool(true),
                    None => V::Unknown,
                };
                let phase = if v.to_bool().is_none() {
                    Phase::VAC
                } else {
                    r.phase
                };
                EvalResult { value: v, phase }
            },
            Expr::And(a, b) => {
                let ra = self.eval(a);
                let rb = self.eval(b);
                let v = and3(ra.value, rb.value);
                let phase = if v.to_bool().is_none() {
                    Phase::VAC
                } else {
                    ra.phase.join(rb.phase)
                };
                EvalResult { value: v, phase }
            },
            Expr::Or(a, b) => {
                let ra = self.eval(a);
                let rb = self.eval(b);
                let v = or3(ra.value, rb.value);
                let phase = if v.to_bool().is_none() {
                    Phase::VAC
                } else {
                    ra.phase.join(rb.phase)
                };
                EvalResult { value: v, phase }
            },
            Expr::Imp(a, b) => {
                let ra = self.eval(a);
                let rb = self.eval(b);
                let v = imp3(ra.value, rb.value);
                let phase = if v.to_bool().is_none() {
                    Phase::VAC
                } else {
                    ra.phase.join(rb.phase)
                };
                EvalResult { value: v, phase }
            },
            Expr::PhaseOp(op, x) => {
                let r = self.eval(x);
                match op {
                    PhaseOp::Alive => EvalResult { value: r.value, phase: Phase::ALIVE },
                    PhaseOp::Jam => EvalResult { value: r.value, phase: Phase::JAM },
                    PhaseOp::Vac => EvalResult { value: V::Unknown, phase: Phase::VAC },
                    PhaseOp::Mem => EvalResult { value: r.value, phase: Phase::MEM },
                }
            },
        }
    }
}

} // verus!
