use unit_convert::dimension::expander::Expander;
use unit_convert::dimension::{Op, ParseError, Token, Unit};
use unit_convert::units::{length, time};

fn meter() -> Token {
    Token::Unit(Unit { conversion: length::meter(), power: 1, sci_exponent: 0 })
}

fn second() -> Token {
    Token::Unit(Unit { conversion: time::second(), power: 1, sci_exponent: 0 })
}

fn tree(op: Op, left: Token, right: Token) -> Token {
    Token::Tree(op, Box::new(left), Box::new(right))
}

#[test]
fn expander_test_expander() {
    let inp = Token::Tree(
        Op::Div,
        Box::new(Token::Unit(Unit { conversion: length::meter(), power: 1, sci_exponent: 0 })),
        Box::new(Token::Tree(
            Op::Pow,
            Box::new(Token::Unit(Unit { conversion: time::second(), power: 1, sci_exponent: 0 })),
            Box::new(Token::Num(2)),
        )),
    );

    let exp = Expander::expand(inp).unwrap();
    assert_eq!(
        exp,
        vec![
            Unit { conversion: length::meter(), power: 1, sci_exponent: 0 },
            Unit { conversion: time::second(), power: -2, sci_exponent: 0 }
        ]
    );
}

#[test]
fn dimension_test_expander() {
    let inp = tree(Op::Div, meter(), tree(Op::Pow, second(), Token::Num(2)));
    let exp = Expander::expand(inp).unwrap();
    assert_eq!(exp.len(), 2);
    assert_eq!(exp[0], Unit { conversion: length::meter(), power: 1, sci_exponent: 0 });
    assert_eq!(exp[1], Unit { conversion: time::second(), power: -2, sci_exponent: 0 });
}

#[test]
fn expand_multiplies_nested_powers() {
    let inp = tree(
        Op::Pow,
        tree(Op::Div, meter(), tree(Op::Pow, second(), Token::Num(2))),
        Token::Num(-3),
    );
    assert_eq!(
        Expander::expand(inp),
        Ok(vec![
            Unit { conversion: length::meter(), power: -3, sci_exponent: 0 },
            Unit { conversion: time::second(), power: 6, sci_exponent: 0 },
        ])
    );
}

#[test]
fn expand_keeps_the_scale_and_multiplies_the_own_power() {
    let inp = tree(
        Op::Div,
        meter(),
        Token::Unit(Unit { conversion: time::second(), power: -2, sci_exponent: -3 }),
    );
    assert_eq!(
        Expander::expand(inp),
        Ok(vec![
            Unit { conversion: length::meter(), power: 1, sci_exponent: 0 },
            Unit { conversion: time::second(), power: 2, sci_exponent: -3 },
        ])
    );
}

#[test]
fn expand_group_is_a_product() {
    let inp = tree(Op::Div, meter(), Token::Group(vec![second(), second()]));
    assert_eq!(
        Expander::expand(inp),
        Ok(vec![
            Unit { conversion: length::meter(), power: 1, sci_exponent: 0 },
            Unit { conversion: time::second(), power: -1, sci_exponent: 0 },
            Unit { conversion: time::second(), power: -1, sci_exponent: 0 },
        ])
    );
    assert_eq!(Expander::expand(Token::Group(vec![])), Ok(vec![]));
}

#[test]
fn expand_invalid_exponent() {
    assert_eq!(
        Expander::expand(tree(Op::Pow, meter(), second())),
        Err(ParseError::InvalidExponent)
    );
    assert_eq!(
        Expander::expand(tree(Op::Pow, meter(), Token::Op(Op::Mul))),
        Err(ParseError::InvalidExponent)
    );
}

#[test]
fn expand_number_or_operator_in_place_of_a_unit() {
    assert_eq!(Expander::expand(Token::Num(2)), Err(ParseError::UnexpectedNumber));
    assert_eq!(
        Expander::expand(tree(Op::Mul, Token::Num(2), meter())),
        Err(ParseError::UnexpectedNumber)
    );
    assert_eq!(Expander::expand(Token::Op(Op::Div)), Err(ParseError::MissingOperand));
    assert_eq!(
        Expander::expand(Token::Group(vec![meter(), Token::Op(Op::Mul), second()])),
        Err(ParseError::MissingOperand)
    );
}

#[test]
fn expand_first_failure_wins() {
    assert_eq!(
        Expander::expand(tree(Op::Mul, tree(Op::Pow, meter(), second()), Token::Num(1))),
        Err(ParseError::InvalidExponent)
    );
}

#[test]
fn expand_power_beyond_the_limit() {
    let big = 4_000_000_000i64;
    let inp = tree(
        Op::Pow,
        tree(Op::Pow, meter(), Token::Num(big)),
        Token::Num(big),
    );
    assert_eq!(Expander::expand(inp), Err(ParseError::ExponentOverflow));
    let inp = tree(Op::Pow, meter(), Token::Num(i64::MIN));
    assert_eq!(Expander::expand(inp), Err(ParseError::ExponentOverflow));
    let inp = tree(Op::Pow, meter(), Token::Num(i64::MAX));
    assert_eq!(
        Expander::expand(inp),
        Ok(vec![Unit { conversion: length::meter(), power: i64::MAX, sci_exponent: 0 }])
    );
    let inp = tree(
        Op::Pow,
        Token::Unit(Unit { conversion: length::meter(), power: 2, sci_exponent: 0 }),
        Token::Num(i64::MAX),
    );
    assert_eq!(Expander::expand(inp), Err(ParseError::ExponentOverflow));
}
