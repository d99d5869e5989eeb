//! The expression tree: a closed set of node kinds, built once by a parser
//! collaborator and read, never rewritten, by the evaluator.

use vstd::prelude::*;
use vstd::string::*;

verus! {

/// A phase-forcing operator: wraps one sub-expression and overrides the
/// phase (and, for `Vac`, the value) of its result.
#[derive(Debug, Clone, PartialEq, Eq, Structural)]
pub enum PhaseOp {
    Mem,
    Jam,
    Alive,
    Vac,
}

/// An expression tree node. The variant set is closed, so evaluation is
/// total: there is no "unrecognized node" failure.
#[derive(Debug, PartialEq, Eq)]
pub enum Expr {
    Bool(bool),
    Ident(String),
    Not(Box<Expr>),
    And(Box<Expr>, Box<Expr>),
    Or(Box<Expr>, Box<Expr>),
    Imp(Box<Expr>, Box<Expr>),
    PhaseOp(PhaseOp, Box<Expr>),
}

/// The surface spelling of a phase-forcing operator.
pub open spec fn spec_phase_op_name(op: PhaseOp) -> Seq<char> {
    match op {
        PhaseOp::Mem => "@mem"@,
        PhaseOp::Jam => "@jam"@,
        PhaseOp::Alive => "@alive"@,
        PhaseOp::Vac => "@vac"@,
    }
}

/// The s-expression rendering of a tree, character by character.
pub open spec fn spec_sexpr(e: Expr) -> Seq<char>
    decreases e,
{
    match e {
        Expr::Bool(b) => if b { "true"@ } else { "false"@ },
        Expr::Ident(s) => "id:"@ + s@,
        Expr::Not(x) => "(~ "@ + spec_sexpr(*x) + ")"@,
        Expr::And(a, b) => "(& "@ + spec_sexpr(*a) + " "@ + spec_sexpr(*b) + ")"@,
        Expr::Or(a, b) => "(| "@ + spec_sexpr(*a) + " "@ + spec_sexpr(*b) + ")"@,
        Expr::Imp(a, b) => "(-> "@ + spec_sexpr(*a) + " "@ + spec_sexpr(*b) + ")"@,
        Expr::PhaseOp(op, x) => "("@ + spec_phase_op_name(op) + " "@ + spec_sexpr(*x) + ")"@,
    }
}

/// The printable name of a phase-forcing operator.
fn phase_op_name(op: &PhaseOp) -> (r: &'static str)
    ensures
        r@ == spec_phase_op_name(*op),
{
    match op {
        PhaseOp::Mem => "@mem",
        PhaseOp::Jam => "@jam",
        PhaseOp::Alive => "@alive",
        PhaseOp::Vac => "@vac",
    }
}

/// Renders a tree as an s-expression, exactly as [`spec_sexpr`] states it.
pub fn to_sexpr(e: &Expr) -> (r: String)
    ensures
        r@ == spec_sexpr(*e),
    decreases e,
{
    match e {
        Expr::Bool(b) => {
            if *b {
                String::from_str("true")
            } else {
                String::from_str("false")
            }
        }
        Expr::Ident(s) => {
            let mut out = String::from_str("id:");
            out.append(s.as_str());
            out
        }
        Expr::Not(x) => {
            let mut out = String::from_str("(~ ");
            let sx = to_sexpr(x);
            out.append(sx.as_str());
            out.append(")");
            out
        }
        Expr::And(a, b) => {
            let mut out = String::from_str("(& ");
            let sa = to_sexpr(a);
            out.append(sa.as_str());
            out.append(" ");
            let sb = to_sexpr(b);
            out.append(sb.as_str());
            out.append(")");
            out
        }
        Expr::Or(a, b) => {
            let mut out = String::from_str("(| ");
            let sa = to_sexpr(a);
            out.append(sa.as_str());
            out.append(" ");
            let sb = to_sexpr(b);
            out.append(sb.as_str());
            out.append(")");
            out
        }
        Expr::Imp(a, b) => {
            let mut out = String::from_str("(-> ");
            let sa = to_sexpr(a);
            out.append(sa.as_str());
            out.append(" ");
            let sb = to_sexpr(b);
            out.append(sb.as_str());
            out.append(")");
            out
        }
        Expr::PhaseOp(op, x) => {
            let mut out = String::from_str("(");
            out.append(phase_op_name(op));
            out.append(" ");
            let sx = to_sexpr(x);
            out.append(sx.as_str());
            out.append(")");
            out
        }
    }
}

} // verus!
