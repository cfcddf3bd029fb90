use fur::{Expr, ParseError};

fn lit(i: i64) -> Expr {
    Expr::IntLit(i)
}

fn var(x: &str) -> Expr {
    Expr::Var(x.to_string())
}

fn sum(a: Expr, b: Expr) -> Expr {
    Expr::Add(Box::new(a), Box::new(b))
}

fn ann(e: Expr, t: Expr) -> Expr {
    Expr::Ann(Box::new(e), Box::new(t))
}

#[test]
fn atoms_are_rendered_bare() {
    assert_eq!(Expr::U(0).to_string(), "U(0)");
    assert_eq!(Expr::U(255).to_string(), "U(255)");
    assert_eq!(Expr::Int.to_string(), "Int");
    assert_eq!(Expr::Trivial.to_string(), "Trivial");
    assert_eq!(Expr::Sole.to_string(), "sole");
    assert_eq!(var("x_1'").to_string(), "x_1'");
}

#[test]
fn integers_are_rendered_in_decimal() {
    assert_eq!(lit(0).to_string(), "0");
    assert_eq!(lit(7).to_string(), "7");
    assert_eq!(lit(10).to_string(), "10");
    assert_eq!(lit(-5).to_string(), "-5");
    assert_eq!(lit(1234567890).to_string(), "1234567890");
    assert_eq!(lit(i64::MAX).to_string(), "9223372036854775807");
    assert_eq!(lit(i64::MIN).to_string(), "-9223372036854775808");
}

#[test]
fn an_annotation_inside_a_sum_is_bracketed() {
    assert_eq!(sum(lit(1), lit(2)).to_string(), "1 + 2");
    assert_eq!(sum(sum(lit(1), lit(2)), lit(3)).to_string(), "1 + 2 + 3");
    assert_eq!(sum(lit(1), sum(lit(2), lit(3))).to_string(), "1 + 2 + 3");
    assert_eq!(sum(ann(lit(1), Expr::Int), lit(2)).to_string(), "(1 : Int) + 2");
    assert_eq!(sum(lit(2), ann(lit(1), Expr::Int)).to_string(), "2 + (1 : Int)");
    assert_eq!(ann(sum(lit(1), lit(2)), Expr::Int).to_string(), "1 + 2 : Int");
    assert_eq!(ann(ann(var("a"), var("b")), var("c")).to_string(), "a : b : c");
}

#[test]
fn fmt_parens_brackets_on_demand() {
    let mut out = String::from(">");
    lit(1).fmt_parens(&mut out, true);
    lit(2).fmt_parens(&mut out, false);
    sum(lit(3), lit(4)).fmt(&mut out);
    assert_eq!(out, ">(1)23 + 4");
}

#[test]
fn atoms_are_read() {
    assert_eq!(Expr::parse("Int"), Ok(Expr::Int));
    assert_eq!(Expr::parse("Trivial"), Ok(Expr::Trivial));
    assert_eq!(Expr::parse("sole"), Ok(Expr::Sole));
    assert_eq!(Expr::parse("42"), Ok(lit(42)));
    assert_eq!(Expr::parse("x"), Ok(var("x")));
    assert_eq!(Expr::parse("_"), Ok(var("_")));
    assert_eq!(Expr::parse("_a1'b'"), Ok(var("_a1'b'")));
    assert_eq!(Expr::parse("Sole"), Ok(var("Sole")));
    assert_eq!(Expr::parse("U"), Ok(var("U")));
    assert_eq!(Expr::parse("Ux"), Ok(var("Ux")));
    assert_eq!(Expr::parse("In"), Ok(var("In")));
}

#[test]
fn integers_are_read_with_their_sign() {
    assert_eq!(Expr::parse("0"), Ok(lit(0)));
    assert_eq!(Expr::parse("007"), Ok(lit(7)));
    assert_eq!(Expr::parse("-5"), Ok(lit(-5)));
    assert_eq!(Expr::parse("+5"), Ok(lit(5)));
    assert_eq!(Expr::parse("-0"), Ok(lit(0)));
    assert_eq!(Expr::parse("9223372036854775807"), Ok(lit(i64::MAX)));
    assert_eq!(Expr::parse("-9223372036854775808"), Ok(lit(i64::MIN)));
    assert_eq!(Expr::parse("9223372036854775808"), Err(ParseError::NoTerm));
    assert_eq!(Expr::parse("-9223372036854775809"), Err(ParseError::NoTerm));
    assert_eq!(Expr::parse("99999999999999999999999999999999999999999"), Err(ParseError::NoTerm));
    assert_eq!(Expr::parse("-"), Err(ParseError::NoTerm));
    assert_eq!(Expr::parse("--1"), Err(ParseError::NoTerm));
    assert_eq!(Expr::parse("- 1"), Err(ParseError::NoTerm));
    assert_eq!(Expr::parse("1x"), Err(ParseError::Trailing(1)));
}

#[test]
fn universes_are_read() {
    assert_eq!(Expr::parse("U(0)"), Ok(Expr::U(0)));
    assert_eq!(Expr::parse("U(255)"), Ok(Expr::U(255)));
    assert_eq!(Expr::parse("U(007)"), Ok(Expr::U(7)));
    assert_eq!(Expr::parse("U ( 3 )"), Ok(Expr::U(3)));
    assert_eq!(Expr::parse("U\t(\n3\r)"), Ok(Expr::U(3)));
    assert_eq!(Expr::parse("U(256)"), Err(ParseError::Trailing(1)));
    assert_eq!(Expr::parse("U(-1)"), Err(ParseError::Trailing(1)));
    assert_eq!(Expr::parse("U(+1)"), Err(ParseError::Trailing(1)));
    assert_eq!(Expr::parse("U()"), Err(ParseError::Trailing(1)));
    assert_eq!(Expr::parse("U(1"), Err(ParseError::Trailing(1)));
    assert_eq!(Expr::parse("U(x)"), Err(ParseError::Trailing(1)));
}

#[test]
fn a_keyword_is_taken_before_a_name() {
    assert_eq!(Expr::parse("Intx"), Err(ParseError::Trailing(3)));
    assert_eq!(Expr::parse("Integer"), Err(ParseError::Trailing(3)));
    assert_eq!(Expr::parse("solenoid"), Err(ParseError::Trailing(4)));
    assert_eq!(Expr::parse("Trivially"), Err(ParseError::Trailing(7)));
    assert_eq!(Expr::parse("Int+sole"), Ok(sum(Expr::Int, Expr::Sole)));
}

#[test]
fn sums_associate_to_the_left() {
    assert_eq!(Expr::parse("1+2"), Ok(sum(lit(1), lit(2))));
    assert_eq!(Expr::parse("1 + 2 + 3"), Ok(sum(sum(lit(1), lit(2)), lit(3))));
    assert_eq!(Expr::parse("1 + (2 + 3)"), Ok(sum(lit(1), sum(lit(2), lit(3)))));
    assert_eq!(Expr::parse("x \t+\n y"), Ok(sum(var("x"), var("y"))));
    assert_eq!(Expr::parse("1 + -2"), Ok(sum(lit(1), lit(-2))));
    assert_eq!(Expr::parse("1++2"), Ok(sum(lit(1), lit(2))));
    assert_eq!(Expr::parse("1+"), Err(ParseError::Trailing(1)));
    assert_eq!(Expr::parse("1 + 2 +"), Err(ParseError::Trailing(5)));
    assert_eq!(Expr::parse("+"), Err(ParseError::NoTerm));
    assert_eq!(Expr::parse("1 2"), Err(ParseError::Trailing(1)));
}

#[test]
fn an_annotation_joins_two_sums() {
    assert_eq!(Expr::parse("5 : Int"), Ok(ann(lit(5), Expr::Int)));
    assert_eq!(Expr::parse("5:Int"), Ok(ann(lit(5), Expr::Int)));
    assert_eq!(
        Expr::parse("1 + 2 : Int + x"),
        Ok(ann(sum(lit(1), lit(2)), sum(Expr::Int, var("x"))))
    );
    assert_eq!(Expr::parse("(1 : Int) + 2"), Ok(sum(ann(lit(1), Expr::Int), lit(2))));
    assert_eq!(Expr::parse("1 : (Int : U(0))"), Ok(ann(lit(1), ann(Expr::Int, Expr::U(0)))));
    assert_eq!(Expr::parse("1 : Int : U(0)"), Err(ParseError::Trailing(7)));
    assert_eq!(Expr::parse("1 :"), Err(ParseError::Trailing(1)));
    assert_eq!(Expr::parse(": Int"), Err(ParseError::NoTerm));
}

#[test]
fn brackets_hold_a_term_and_blanks() {
    assert_eq!(Expr::parse("(1)"), Ok(lit(1)));
    assert_eq!(Expr::parse("((x))"), Ok(var("x")));
    assert_eq!(Expr::parse("( 1 + 2 )"), Ok(sum(lit(1), lit(2))));
    assert_eq!(Expr::parse("(\n1\t)"), Ok(lit(1)));
    assert_eq!(Expr::parse("()"), Err(ParseError::NoTerm));
    assert_eq!(Expr::parse("(1"), Err(ParseError::NoTerm));
    assert_eq!(Expr::parse("1)"), Err(ParseError::Trailing(1)));
    assert_eq!(Expr::parse("(1 +)"), Err(ParseError::NoTerm));
}

#[test]
fn the_whole_text_must_be_the_term() {
    assert_eq!(Expr::parse(""), Err(ParseError::NoTerm));
    assert_eq!(Expr::parse(" 1"), Err(ParseError::NoTerm));
    assert_eq!(Expr::parse("1 "), Err(ParseError::Trailing(1)));
    assert_eq!(Expr::parse("x y"), Err(ParseError::Trailing(1)));
    assert_eq!(Expr::parse("\u{e9}"), Err(ParseError::NoTerm));
    assert_eq!(Expr::parse("x\u{e9}"), Err(ParseError::Trailing(1)));
    assert_eq!(Expr::parse("\u{661}"), Err(ParseError::NoTerm));
}

#[test]
fn white_space_around_the_text_is_left_aside() {
    assert_eq!(Expr::from_str("  1 + 2\n"), Ok(sum(lit(1), lit(2))));
    assert_eq!(Expr::from_str("\u{a0}\u{2003}sole\u{3000}"), Ok(Expr::Sole));
    assert_eq!(Expr::from_str("x"), Ok(var("x")));
    assert_eq!(Expr::from_str(""), Err(ParseError::NoTerm));
    assert_eq!(Expr::from_str("   "), Err(ParseError::NoTerm));
    assert_eq!(Expr::from_str(" 1 2 "), Err(ParseError::Trailing(1)));
}

#[test]
fn what_is_rendered_can_be_read() {
    let terms = vec![
        sum(sum(lit(1), lit(-2)), var("x")),
        sum(ann(lit(1), Expr::Int), Expr::U(3)),
        ann(sum(Expr::Sole, Expr::Trivial), sum(lit(i64::MIN), lit(i64::MAX))),
    ];
    for e in terms {
        assert_eq!(Expr::parse(&e.to_string()), Ok(e));
    }
}

#[test]
fn parse_errors_have_messages() {
    assert_eq!(ParseError::NoTerm.message(), "Expected a term");
    assert_eq!(ParseError::Trailing(3).message(), "Unexpected text after the term");
}
