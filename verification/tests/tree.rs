use unit_convert::dimension::tree::Treeifyer;
use unit_convert::dimension::{Op, ParseError, Token, Unit};
use unit_convert::units::{length, time};

fn minute() -> Token {
    Token::Unit(Unit { conversion: time::minute(), power: 1, sci_exponent: 1 })
}

fn second() -> Token {
    Token::Unit(Unit { conversion: time::second(), power: 1, sci_exponent: 1 })
}

fn meter() -> Token {
    Token::Unit(Unit { conversion: length::meter(), power: 1, sci_exponent: 0 })
}

fn tree(op: Op, left: Token, right: Token) -> Token {
    Token::Tree(op, Box::new(left), Box::new(right))
}

#[test]
fn tree_test_tree() {
    let tokens = vec![
        Token::Unit(Unit { conversion: time::minute(), power: 1, sci_exponent: 1 }),
        Token::Op(Op::Div),
        Token::Unit(Unit { conversion: time::second(), power: 1, sci_exponent: 1 }),
        Token::Op(Op::Pow),
        Token::Num(2),
    ];

    let tree = Treeifyer::treeify(tokens).unwrap();

    assert_eq!(
        tree,
        Token::Tree(
            Op::Div,
            Box::new(Token::Unit(Unit { conversion: time::minute(), power: 1, sci_exponent: 1 })),
            Box::new(Token::Tree(
                Op::Pow,
                Box::new(Token::Unit(Unit {
                    conversion: time::second(),
                    power: 1,
                    sci_exponent: 1,
                })),
                Box::new(Token::Num(2)),
            ))
        )
    );
}

#[test]
fn dimension_test_tree() {
    let tokens = vec![minute(), Token::Op(Op::Div), second(), Token::Op(Op::Pow), Token::Num(2)];
    let got = Treeifyer::treeify(tokens).unwrap();
    assert_eq!(got, tree(Op::Div, minute(), tree(Op::Pow, second(), Token::Num(2))));
}

#[test]
fn treeify_single_unit_is_itself() {
    assert_eq!(Treeifyer::treeify(vec![meter()]), Ok(meter()));
}

#[test]
fn treeify_single_group_is_the_tree_of_what_it_holds() {
    let tokens = vec![Token::Group(vec![Token::Group(vec![
        meter(),
        Token::Op(Op::Mul),
        second(),
    ])])];
    assert_eq!(Treeifyer::treeify(tokens), Ok(tree(Op::Mul, meter(), second())));
}

#[test]
fn treeify_is_left_associative() {
    let tokens = vec![meter(), Token::Op(Op::Div), second(), Token::Op(Op::Div), minute()];
    assert_eq!(
        Treeifyer::treeify(tokens),
        Ok(tree(Op::Div, tree(Op::Div, meter(), second()), minute()))
    );
    let tokens = vec![meter(), Token::Op(Op::Div), second(), Token::Op(Op::Mul), minute()];
    assert_eq!(
        Treeifyer::treeify(tokens),
        Ok(tree(Op::Mul, tree(Op::Div, meter(), second()), minute()))
    );
    let tokens = vec![meter(), Token::Op(Op::Pow), Token::Num(2), Token::Op(Op::Pow), Token::Num(3)];
    assert_eq!(
        Treeifyer::treeify(tokens),
        Ok(tree(Op::Pow, tree(Op::Pow, meter(), Token::Num(2)), Token::Num(3)))
    );
}

#[test]
fn treeify_power_binds_tighter() {
    let tokens = vec![
        meter(),
        Token::Op(Op::Mul),
        second(),
        Token::Op(Op::Pow),
        Token::Num(2),
        Token::Op(Op::Div),
        minute(),
    ];
    assert_eq!(
        Treeifyer::treeify(tokens),
        Ok(tree(
            Op::Div,
            tree(Op::Mul, meter(), tree(Op::Pow, second(), Token::Num(2))),
            minute()
        ))
    );
}

#[test]
fn treeify_groups_become_operands() {
    let tokens = vec![
        meter(),
        Token::Op(Op::Div),
        Token::Group(vec![second(), Token::Op(Op::Mul), second()]),
    ];
    assert_eq!(
        Treeifyer::treeify(tokens),
        Ok(tree(Op::Div, meter(), tree(Op::Mul, second(), second())))
    );
}

#[test]
fn treeify_missing_operator() {
    assert_eq!(Treeifyer::treeify(vec![meter(), second()]), Err(ParseError::MissingOperator));
    assert_eq!(
        Treeifyer::treeify(vec![meter(), Token::Op(Op::Div), second(), minute()]),
        Err(ParseError::MissingOperator)
    );
    // an operator taken as an operand leaves two operands side by side
    assert_eq!(
        Treeifyer::treeify(vec![meter(), Token::Op(Op::Pow), Token::Op(Op::Div), second()]),
        Err(ParseError::MissingOperator)
    );
}

#[test]
fn treeify_missing_operand() {
    assert_eq!(Treeifyer::treeify(vec![]), Err(ParseError::MissingOperand));
    assert_eq!(Treeifyer::treeify(vec![Token::Op(Op::Mul)]), Err(ParseError::MissingOperand));
    assert_eq!(
        Treeifyer::treeify(vec![meter(), Token::Op(Op::Div)]),
        Err(ParseError::MissingOperand)
    );
    assert_eq!(
        Treeifyer::treeify(vec![Token::Op(Op::Div), meter()]),
        Err(ParseError::MissingOperand)
    );
    assert_eq!(
        Treeifyer::treeify(vec![meter(), Token::Op(Op::Div), Token::Group(vec![])]),
        Err(ParseError::MissingOperand)
    );
}

#[test]
fn treeify_lone_number_is_refused() {
    assert_eq!(Treeifyer::treeify(vec![Token::Num(2)]), Err(ParseError::UnexpectedNumber));
    assert_eq!(
        Treeifyer::treeify(vec![Token::Group(vec![Token::Num(2)])]),
        Err(ParseError::UnexpectedNumber)
    );
}

#[test]
fn treeify_failure_of_the_left_operand_comes_first() {
    let tokens = vec![
        Token::Group(vec![Token::Num(1)]),
        Token::Op(Op::Mul),
        Token::Group(vec![meter(), second()]),
    ];
    assert_eq!(Treeifyer::treeify(tokens), Err(ParseError::UnexpectedNumber));
    let tokens = vec![
        meter(),
        Token::Op(Op::Mul),
        Token::Group(vec![meter(), second()]),
    ];
    assert_eq!(Treeifyer::treeify(tokens), Err(ParseError::MissingOperator));
}

#[test]
fn treeify_a_tree_is_its_own_tree() {
    let whole = tree(Op::Mul, meter(), second());
    assert_eq!(Treeifyer::treeify(vec![whole.clone()]), Ok(whole));
}
