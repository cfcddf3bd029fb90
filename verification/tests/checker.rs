use fur::{Context, Env, Expr, Neutral, TypeError, Value};

fn lit(i: i64) -> Expr {
    Expr::IntLit(i)
}

fn var(x: &str) -> Expr {
    Expr::Var(x.to_string())
}

fn sum(a: Expr, b: Expr) -> Expr {
    Expr::Add(Box::new(a), Box::new(b))
}

fn ann(e: Expr, t: Expr) -> Expr {
    Expr::Ann(Box::new(e), Box::new(t))
}

fn quoted(v: &Value) -> String {
    v.quote().to_string()
}

#[test]
fn synthesis_is_accepted_by_checking() {
    let ctx = Context::new();
    let terms = vec![
        lit(7),
        Expr::Int,
        Expr::Trivial,
        Expr::Sole,
        Expr::U(0),
        Expr::U(254),
        sum(lit(1), lit(2)),
        ann(lit(5), Expr::Int),
        ann(Expr::Int, Expr::U(0)),
        ann(sum(lit(1), ann(lit(2), Expr::Int)), Expr::Int),
    ];
    for e in terms {
        let t = e.infer(&ctx).unwrap();
        assert_eq!(e.check(&t, &ctx), Ok(()));
    }
}

#[test]
fn synthesis_is_accepted_by_checking_with_names() {
    let mut ctx = Context::new();
    ctx.insert("n".to_string(), Value::Int, None);
    ctx.insert("t".to_string(), Value::U(255), Some(Value::Int));
    let e = ann(sum(var("n"), lit(1)), var("t"));
    let t = e.infer(&ctx).unwrap();
    assert!(matches!(t, Value::Int));
    assert_eq!(e.check(&t, &ctx), Ok(()));
}

#[test]
fn universes_are_strictly_cumulative() {
    let ctx = Context::new();
    assert_eq!(Expr::U(0).check(&Value::U(1), &ctx), Ok(()));
    assert_eq!(Expr::U(0).check(&Value::U(200), &ctx), Ok(()));
    assert_eq!(Expr::U(1).check(&Value::U(1), &ctx), Err(TypeError::TypeMismatch));
    assert_eq!(Expr::U(2).check(&Value::U(1), &ctx), Err(TypeError::TypeMismatch));
}

#[test]
fn a_universe_has_the_next_universe_as_its_type() {
    let ctx = Context::new();
    assert!(matches!(Expr::U(0).infer(&ctx), Ok(Value::U(1))));
    assert!(matches!(Expr::U(254).infer(&ctx), Ok(Value::U(255))));
}

#[test]
fn the_top_universe_has_no_type() {
    let ctx = Context::new();
    assert!(matches!(Expr::U(255).infer(&ctx), Err(TypeError::UniverseOverflow)));
    assert_eq!(Expr::U(255).check(&Value::U(255), &ctx), Err(TypeError::UniverseOverflow));
    assert_eq!(Expr::U(255).check(&Value::Int, &ctx), Err(TypeError::UniverseOverflow));
}

#[test]
fn integer_arithmetic() {
    let e = sum(lit(2), lit(3));
    assert!(matches!(e.infer(&Context::new()), Ok(Value::Int)));
    assert!(matches!(e.eval(&Env::new()), Value::IntLit(5)));
    assert!(matches!(e.checked_eval(&Env::new()), Some(Value::IntLit(5))));
}

#[test]
fn sums_are_of_integers_only() {
    let ctx = Context::new();
    assert!(matches!(sum(lit(1), Expr::Sole).infer(&ctx), Err(TypeError::TypeMismatch)));
    assert!(matches!(sum(Expr::Int, lit(1)).infer(&ctx), Err(TypeError::TypeMismatch)));
    assert!(matches!(sum(lit(1), var("y")).infer(&ctx), Err(TypeError::NameNotFound)));
}

#[test]
fn a_free_variable_makes_a_sum_neutral() {
    let v = sum(lit(1), var("x")).eval(&Env::new());
    match &v {
        Value::Neutral(Neutral::Add(n, rhs)) => {
            assert!(matches!(&**n, Neutral::Var(x) if x == "x"));
            assert!(matches!(&**rhs, Value::IntLit(1)));
        },
        _ => panic!("not a neutral sum: {:?}", v),
    }
    assert!(v.quote().alpha_eq(&sum(var("x"), lit(1))));
    assert!(!v.quote().alpha_eq(&sum(lit(1), var("x"))));
}

#[test]
fn of_two_neutral_operands_the_left_one_leads() {
    let v = sum(var("x"), var("y")).eval(&Env::new());
    assert!(v.quote().alpha_eq(&sum(var("x"), var("y"))));
    let w = sum(sum(lit(1), var("x")), lit(2)).eval(&Env::new());
    assert!(w.quote().alpha_eq(&sum(sum(var("x"), lit(1)), lit(2))));
}

#[test]
fn an_unbound_name_is_not_found() {
    assert!(matches!(var("y").infer(&Context::new()), Err(TypeError::NameNotFound)));
    assert_eq!(var("y").check(&Value::Int, &Context::new()), Err(TypeError::NameNotFound));
}

#[test]
fn a_bound_name_has_its_recorded_type() {
    let mut ctx = Context::new();
    ctx.insert("x".to_string(), Value::Int, Some(Value::IntLit(4)));
    ctx.insert("u".to_string(), Value::Trivial, None);
    assert!(matches!(var("x").infer(&ctx), Ok(Value::Int)));
    assert!(matches!(var("u").infer(&ctx), Ok(Value::Trivial)));
    assert_eq!(var("u").check(&Value::Trivial, &ctx), Ok(()));
    assert_eq!(var("u").check(&Value::Int, &ctx), Err(TypeError::TypeMismatch));
    assert!(matches!(var("z").infer(&ctx), Err(TypeError::NameNotFound)));
}

#[test]
fn the_unit_type_and_its_inhabitant() {
    let ctx = Context::new();
    assert!(matches!(Expr::Sole.infer(&ctx), Ok(Value::Trivial)));
    assert!(matches!(Expr::Trivial.infer(&ctx), Ok(Value::U(0))));
    assert_eq!(Expr::Sole.check(&Value::Trivial, &ctx), Ok(()));
    assert_eq!(Expr::Sole.check(&Value::Int, &ctx), Err(TypeError::TypeMismatch));
    assert_eq!(Expr::Trivial.check(&Value::U(0), &ctx), Ok(()));
    assert_eq!(Expr::Trivial.check(&Value::U(9), &ctx), Ok(()));
}

#[test]
fn the_integer_type_lives_in_every_universe() {
    let ctx = Context::new();
    assert!(matches!(Expr::Int.infer(&ctx), Ok(Value::U(0))));
    assert_eq!(Expr::Int.check(&Value::U(0), &ctx), Ok(()));
    assert_eq!(Expr::Int.check(&Value::U(255), &ctx), Ok(()));
    assert_eq!(Expr::Int.check(&Value::Int, &ctx), Err(TypeError::TypeMismatch));
    assert_eq!(lit(3).check(&Value::Int, &ctx), Ok(()));
    assert_eq!(lit(3).check(&Value::U(0), &ctx), Err(TypeError::TypeMismatch));
}

#[test]
fn an_annotation_gives_the_type_and_not_the_value() {
    let e = ann(lit(5), Expr::Int);
    assert!(matches!(e.infer(&Context::new()), Ok(Value::Int)));
    assert!(matches!(e.eval(&Env::new()), Value::IntLit(5)));
}

#[test]
fn an_annotation_must_be_a_type_and_fit_the_term() {
    let ctx = Context::new();
    assert!(matches!(ann(lit(5), lit(3)).infer(&ctx), Err(TypeError::TypeMismatch)));
    assert!(matches!(ann(lit(5), Expr::Trivial).infer(&ctx), Err(TypeError::TypeMismatch)));
    assert!(matches!(ann(Expr::Sole, Expr::Trivial).infer(&ctx), Ok(Value::Trivial)));
    assert!(matches!(ann(Expr::U(3), Expr::U(4)).infer(&ctx), Ok(Value::U(4))));
    assert!(matches!(ann(Expr::U(4), Expr::U(4)).infer(&ctx), Err(TypeError::TypeMismatch)));
    assert!(matches!(ann(lit(1), Expr::U(255)).infer(&ctx), Err(TypeError::UniverseOverflow)));
    assert!(matches!(ann(lit(1), var("t")).infer(&ctx), Err(TypeError::NameNotFound)));
}

#[test]
fn an_annotation_is_evaluated_under_the_definitions_of_the_context() {
    let mut ctx = Context::new();
    ctx.insert("t".to_string(), Value::U(255), Some(Value::Int));
    ctx.insert("s".to_string(), Value::U(255), None);
    assert!(matches!(ann(lit(5), var("t")).infer(&ctx), Ok(Value::Int)));
    assert!(matches!(ann(lit(5), var("s")).infer(&ctx), Err(TypeError::TypeMismatch)));
}

#[test]
fn literals_are_their_own_normal_form() {
    let literals = vec![
        Expr::U(0),
        Expr::U(255),
        Expr::Int,
        lit(0),
        lit(-12),
        lit(i64::MAX),
        lit(i64::MIN),
        Expr::Trivial,
        Expr::Sole,
    ];
    for e in literals {
        assert!(e.eval(&Env::new()).quote().alpha_eq(&e));
    }
}

#[test]
fn a_quotation_evaluates_to_the_value_it_quotes() {
    let v = sum(sum(var("x"), lit(1)), sum(lit(2), lit(3))).eval(&Env::new());
    let again = v.quote().eval(&Env::new());
    assert!(again.quote().alpha_eq(&v.quote()));
    assert_eq!(quoted(&again), "x + 1 + 5");
}

#[test]
fn evaluation_looks_names_up_in_the_environment() {
    let mut env = Env::new();
    env.insert("x".to_string(), Value::IntLit(40));
    assert!(matches!(sum(var("x"), lit(2)).eval(&env), Value::IntLit(42)));
    assert_eq!(quoted(&sum(var("y"), var("x")).eval(&env)), "y + 40");
    env.insert("x".to_string(), Value::IntLit(1));
    assert!(matches!(var("x").eval(&env), Value::IntLit(1)));
    assert!(matches!(env.get(&"x".to_string()), Some(Value::IntLit(1))));
    assert!(env.get(&"y".to_string()).is_none());
}

#[test]
fn the_environment_of_a_context_holds_its_defined_names() {
    let mut ctx = Context::new();
    ctx.insert("a".to_string(), Value::Int, Some(Value::IntLit(1)));
    ctx.insert("b".to_string(), Value::Int, None);
    ctx.insert("c".to_string(), Value::Int, Some(Value::IntLit(3)));
    ctx.insert("c".to_string(), Value::Int, None);
    ctx.insert("b".to_string(), Value::Int, Some(Value::IntLit(2)));
    let env = ctx.env();
    assert!(matches!(env.get(&"a".to_string()), Some(Value::IntLit(1))));
    assert!(matches!(env.get(&"b".to_string()), Some(Value::IntLit(2))));
    assert!(env.get(&"c".to_string()).is_none());
    assert!(env.get(&"d".to_string()).is_none());
    assert!(matches!(ctx.get(&"c".to_string()), Some(Value::Int)));
    assert!(ctx.get(&"d".to_string()).is_none());
}

#[test]
fn checked_evaluation_refuses_what_cannot_be_added() {
    let env = Env::new();
    assert!(sum(lit(i64::MAX), lit(1)).checked_eval(&env).is_none());
    assert!(sum(lit(i64::MIN), lit(-1)).checked_eval(&env).is_none());
    assert!(sum(Expr::U(0), Expr::U(0)).checked_eval(&env).is_none());
    assert!(sum(lit(1), Expr::Sole).checked_eval(&env).is_none());
    assert!(ann(sum(Expr::Int, lit(1)), Expr::Int).checked_eval(&env).is_none());
    assert!(matches!(
        sum(lit(i64::MAX), lit(-1)).checked_eval(&env),
        Some(Value::IntLit(9223372036854775806))
    ));
    assert!(matches!(ann(lit(1), sum(Expr::Int, Expr::Int)).checked_eval(&env), Some(Value::IntLit(1))));
    assert_eq!(quoted(&sum(var("x"), Expr::Sole).checked_eval(&env).unwrap()), "x + sole");
}

#[test]
fn addition_of_values() {
    assert!(matches!(Value::IntLit(2) + Value::IntLit(3), Value::IntLit(5)));
    assert_eq!(quoted(&(Value::IntLit(2) + Value::var("x".to_string()))), "x + 2");
    assert_eq!(quoted(&(Value::var("x".to_string()) + Value::IntLit(2))), "x + 2");
    assert!(Value::IntLit(i64::MAX).checked_add(Value::IntLit(1)).is_none());
    assert!(Value::Int.checked_add(Value::IntLit(1)).is_none());
    assert!(matches!(Value::IntLit(-2).checked_add(Value::IntLit(2)), Some(Value::IntLit(0))));
    let n = Neutral::Var("x".to_string()) + Value::Sole;
    assert_eq!(n.quote().to_string(), "x + sole");
}

#[test]
fn conversions_wrap_their_argument() {
    assert_eq!(Expr::from(5), lit(5));
    assert!(matches!(Value::from(-5), Value::IntLit(-5)));
    assert!(matches!(Value::from(Neutral::Var("x".to_string())), Value::Neutral(Neutral::Var(x)) if x == "x"));
    assert_eq!(lit(1) + var("x"), sum(lit(1), var("x")));
}

#[test]
fn quotation_mirrors_the_value() {
    assert!(Value::U(7).quote().alpha_eq(&Expr::U(7)));
    assert!(Value::Int.quote().alpha_eq(&Expr::Int));
    assert!(Value::IntLit(-3).quote().alpha_eq(&lit(-3)));
    assert!(Value::Trivial.quote().alpha_eq(&Expr::Trivial));
    assert!(Value::Sole.quote().alpha_eq(&Expr::Sole));
    assert!(Value::var("x".to_string()).quote().alpha_eq(&var("x")));
}

#[test]
fn equality_of_terms_is_structural() {
    assert!(sum(lit(1), var("x")).alpha_eq(&sum(lit(1), var("x"))));
    assert!(!sum(lit(1), var("x")).alpha_eq(&sum(var("x"), lit(1))));
    assert!(!var("x").alpha_eq(&var("y")));
    assert!(!Expr::Int.alpha_eq(&Expr::Trivial));
    assert!(!ann(lit(1), Expr::Int).alpha_eq(&lit(1)));
    assert!(!Expr::U(1).alpha_eq(&Expr::U(2)));
    assert_eq!(ann(lit(1), Expr::Int), ann(lit(1), Expr::Int));
    assert_ne!(lit(1), lit(2));
    assert_eq!(sum(lit(1), var("x")).clone(), sum(lit(1), var("x")));
}

#[test]
fn errors_have_messages() {
    assert_eq!(TypeError::NameNotFound.message(), "Not found");
    assert_eq!(TypeError::TypeMismatch.message(), "Type mismatch");
    assert_eq!(TypeError::UniverseOverflow.message(), "Failed to synthesize a type");
    assert_eq!(TypeError::SynthesisFailure.message(), "Failed to synthesize a type");
}
