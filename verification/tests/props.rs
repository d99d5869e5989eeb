use grieg::ast::{Expr, PhaseOp};
use grieg::eval::Evaluator;
use grieg::phase::Phase;

fn imp(a: Expr, b: Expr) -> Expr {
    Expr::Imp(Box::new(a), Box::new(b))
}

fn and(a: Expr, b: Expr) -> Expr {
    Expr::And(Box::new(a), Box::new(b))
}

fn or(a: Expr, b: Expr) -> Expr {
    Expr::Or(Box::new(a), Box::new(b))
}

fn not(a: Expr) -> Expr {
    Expr::Not(Box::new(a))
}

fn forced(op: PhaseOp, a: Expr) -> Expr {
    Expr::PhaseOp(op, Box::new(a))
}

#[test]
fn implication_truth_table() {
    let ev = Evaluator::new(false);

    // true -> false
    let r = ev.eval(&imp(Expr::Bool(true), Expr::Bool(false)));
    assert_eq!(r.value.to_bool(), Some(false));
    assert_eq!(r.phase, Phase::ALIVE);

    // true -> true
    let r = ev.eval(&imp(Expr::Bool(true), Expr::Bool(true)));
    assert_eq!(r.value.to_bool(), Some(true));
    assert_eq!(r.phase, Phase::ALIVE);

    // false -> true
    let r = ev.eval(&imp(Expr::Bool(false), Expr::Bool(true)));
    assert_eq!(r.value.to_bool(), Some(true));
    assert_eq!(r.phase, Phase::ALIVE);

    // false -> false
    let r = ev.eval(&imp(Expr::Bool(false), Expr::Bool(false)));
    assert_eq!(r.value.to_bool(), Some(true));
    assert_eq!(r.phase, Phase::ALIVE);
}

#[test]
fn mem_recovery_simple() {
    let ev = Evaluator::new(true);
    // @mem(true -> false)
    let e = forced(PhaseOp::Mem, imp(Expr::Bool(true), Expr::Bool(false)));
    let r = ev.eval(&e);
    assert_eq!(r.value.to_bool(), Some(false));
    assert_eq!(r.phase, Phase::MEM);
}

#[test]
fn vac_for_free_ident() {
    let ev = Evaluator::new(false);
    // @vac(x)
    let e = forced(PhaseOp::Vac, Expr::Ident(String::from("x")));
    let r = ev.eval(&e);
    assert_eq!(r.phase, Phase::VAC);
    assert_eq!(r.value.to_bool(), None);
}

#[test]
fn jam_dominance_in_join() {
    let ev = Evaluator::new(false);
    // @jam(true & true)
    let e = forced(PhaseOp::Jam, and(Expr::Bool(true), Expr::Bool(true)));
    let r = ev.eval(&e);
    assert_eq!(r.phase, Phase::JAM);
    assert_eq!(r.value.to_bool(), Some(true));
}

#[test]
fn mem_transport_preserves_truth() {
    let ev = Evaluator::new(true); // mem enabled
    let cases: Vec<fn() -> Expr> = vec![
        || Expr::Bool(true),
        || Expr::Bool(false),
        // ~false & (true | false)
        || and(not(Expr::Bool(false)), or(Expr::Bool(true), Expr::Bool(false))),
    ];
    for mk in &cases {
        let r0 = ev.eval(&mk());
        let r1 = ev.eval(&forced(PhaseOp::Mem, mk()));
        assert_eq!(
            r0.value.to_bool(),
            r1.value.to_bool(),
            "MEM must preserve boolean truth"
        );
    }
}

#[test]
fn vac_projects_to_counterfactual() {
    let ev = Evaluator::new(true);
    // @vac(x)
    let e = forced(PhaseOp::Vac, Expr::Ident(String::from("x")));
    let r = ev.eval(&e);
    assert!(r.value.to_bool().is_none(), "VAC => no total boolean");
    assert_eq!(r.phase, Phase::VAC, "VAC phase marks counterfactual sheet");
}
