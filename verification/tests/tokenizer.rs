use unit_convert::dimension::tokenizer::{add_conversion_tokens, Tokenizer};
use unit_convert::dimension::{Op, ParseError, Token, Unit};
use unit_convert::units::derived::constant;
use unit_convert::units::{find_unit, length, mass, time, ConversionType, Decimal, UnitTable};

fn unit(conversion: unit_convert::units::Conversion, power: i64, sci_exponent: i64) -> Token {
    Token::Unit(Unit { conversion, power, sci_exponent })
}

#[test]
fn tokenizer_test_tokenize() {
    let tokens = Tokenizer::tokenize("m/s^2").unwrap();
    assert_eq!(
        tokens,
        vec![
            Token::Unit(Unit { conversion: length::meter(), power: 1, sci_exponent: 0 }),
            Token::Op(Op::Div),
            Token::Unit(Unit { conversion: time::second(), power: 1, sci_exponent: 0 }),
            Token::Op(Op::Pow),
            Token::Num(2),
        ]
    );
}

#[test]
fn tokenizer_test_tokenize_2() {
    let tokens = Tokenizer::tokenize("m / (s * s)").unwrap();
    assert_eq!(
        tokens,
        vec![
            Token::Unit(Unit { conversion: length::meter(), power: 1, sci_exponent: 0 }),
            Token::Op(Op::Div),
            Token::Group(vec![
                Token::Unit(Unit { conversion: time::second(), power: 1, sci_exponent: 0 }),
                Token::Op(Op::Mul),
                Token::Unit(Unit { conversion: time::second(), power: 1, sci_exponent: 0 })
            ]),
        ]
    );
}

#[test]
fn dimension_test_tokenize() {
    let tokens = Tokenizer::tokenize("m/s^2").unwrap();
    assert_eq!(
        tokens,
        vec![
            unit(length::meter(), 1, 0),
            Token::Op(Op::Div),
            unit(time::second(), 1, 0),
            Token::Op(Op::Pow),
            Token::Num(2),
        ]
    );
}

#[test]
fn dimension_test_tokenize_2() {
    let tokens = Tokenizer::tokenize("m / (s * s)").unwrap();
    assert_eq!(
        tokens,
        vec![
            unit(length::meter(), 1, 0),
            Token::Op(Op::Div),
            Token::Group(vec![
                unit(time::second(), 1, 0),
                Token::Op(Op::Mul),
                unit(time::second(), 1, 0),
            ]),
        ]
    );
}

#[test]
fn tokenize_empty_text_gives_no_tokens() {
    assert_eq!(Tokenizer::tokenize(""), Ok(vec![]));
    assert_eq!(Tokenizer::tokenize("  \t "), Ok(vec![]));
}

#[test]
fn tokenize_unmatched_closing_parenthesis() {
    assert_eq!(Tokenizer::tokenize(")"), Err(ParseError::UnmatchedParenthesis));
    assert_eq!(Tokenizer::tokenize("m/(s))"), Err(ParseError::UnmatchedParenthesis));
}

#[test]
fn tokenize_unclosed_parenthesis() {
    assert_eq!(Tokenizer::tokenize("m/("), Err(ParseError::UnclosedParenthesis));
    assert_eq!(Tokenizer::tokenize("((m)"), Err(ParseError::UnclosedParenthesis));
}

#[test]
fn tokenize_invalid_token_keeps_the_text() {
    assert_eq!(
        Tokenizer::tokenize("xyz123notaunit"),
        Err(ParseError::InvalidToken("xyz123notaunit".to_string()))
    );
    assert_eq!(
        Tokenizer::tokenize("m/not_a-unit"),
        Err(ParseError::InvalidToken("not_a-unit".to_string()))
    );
    assert_eq!(
        Tokenizer::tokenize("(m*zz)"),
        Err(ParseError::InvalidToken("zz".to_string()))
    );
}

#[test]
fn tokenize_white_space_ends_a_token() {
    assert_eq!(
        Tokenizer::tokenize("m s"),
        Ok(vec![unit(length::meter(), 1, 0), unit(time::second(), 1, 0)])
    );
    assert_eq!(
        Tokenizer::tokenize("ms"),
        Ok(vec![unit(time::second(), 1, -3)])
    );
}

#[test]
fn tokenize_numbers_are_whole() {
    assert_eq!(Tokenizer::tokenize("2"), Ok(vec![Token::Num(2)]));
    assert_eq!(Tokenizer::tokenize("-3"), Ok(vec![Token::Num(-3)]));
    assert_eq!(Tokenizer::tokenize("+12"), Ok(vec![Token::Num(12)]));
    assert_eq!(Tokenizer::tokenize("2.0"), Ok(vec![Token::Num(2)]));
    assert_eq!(Tokenizer::tokenize("2."), Ok(vec![Token::Num(2)]));
    assert_eq!(
        Tokenizer::tokenize("9223372036854775807"),
        Ok(vec![Token::Num(i64::MAX)])
    );
    assert_eq!(
        Tokenizer::tokenize("-9223372036854775807"),
        Ok(vec![Token::Num(-i64::MAX)])
    );
    assert_eq!(
        Tokenizer::tokenize("9223372036854775808"),
        Err(ParseError::InvalidToken("9223372036854775808".to_string()))
    );
    assert_eq!(
        Tokenizer::tokenize("0.5"),
        Err(ParseError::InvalidToken("0.5".to_string()))
    );
    assert_eq!(
        Tokenizer::tokenize(".5"),
        Err(ParseError::InvalidToken(".5".to_string()))
    );
    assert_eq!(
        Tokenizer::tokenize("1e3"),
        Err(ParseError::InvalidToken("1e3".to_string()))
    );
}

#[test]
fn tokenize_nested_parentheses_join_the_outer_group() {
    assert_eq!(
        Tokenizer::tokenize("(m*(s/s))"),
        Ok(vec![Token::Group(vec![
            unit(length::meter(), 1, 0),
            Token::Op(Op::Mul),
            unit(time::second(), 1, 0),
            Token::Op(Op::Div),
            unit(time::second(), 1, 0),
        ])])
    );
}

#[test]
fn tokenize_text_before_a_group_waits_behind_it() {
    assert_eq!(
        Tokenizer::tokenize("m(s)"),
        Ok(vec![Token::Group(vec![unit(time::second(), 1, 0)]), unit(length::meter(), 1, 0)])
    );
}

#[test]
fn tokenize_prefixes() {
    assert_eq!(Tokenizer::tokenize("km"), Ok(vec![unit(length::meter(), 1, 3)]));
    assert_eq!(
        Tokenizer::tokenize("kilometer"),
        Ok(vec![unit(length::meter(), 1, 3)])
    );
    assert_eq!(Tokenizer::tokenize("kg"), Ok(vec![unit(mass::gram(), 1, 3)]));
    assert_eq!(Tokenizer::tokenize("dam"), Ok(vec![unit(length::meter(), 1, 1)]));
    assert_eq!(Tokenizer::tokenize("us"), Ok(vec![unit(time::second(), 1, -6)]));
    // a name that stands by itself wins over a prefix
    assert_eq!(Tokenizer::tokenize("min"), Ok(vec![unit(time::minute(), 1, 0)]));
    assert_eq!(
        Tokenizer::tokenize("mi"),
        Ok(vec![unit(length::statute_mile(), 1, 0)])
    );
    // a unit that is not metric takes no prefix
    assert_eq!(
        Tokenizer::tokenize("kinch"),
        Err(ParseError::InvalidToken("kinch".to_string()))
    );
}

#[test]
fn tokenize_names_with_spaces() {
    assert_eq!(
        Tokenizer::tokenize("nautical_mile"),
        Ok(vec![unit(length::nautical_mile(), 1, 0)])
    );
    assert_eq!(
        Tokenizer::tokenize("light-year"),
        Err(ParseError::InvalidToken("light-year".to_string()))
    );
    assert_eq!(
        Tokenizer::tokenize("METER"),
        Ok(vec![unit(length::meter(), 1, 0)])
    );
}

#[test]
fn tokenize_derived_unit_is_a_group() {
    assert_eq!(
        Tokenizer::tokenize("N"),
        Ok(vec![Token::Group(vec![
            unit(mass::gram(), 1, 3),
            Token::Op(Op::Mul),
            unit(length::meter(), 1, 0),
            Token::Op(Op::Mul),
            unit(time::second(), -2, 0),
        ])])
    );
}

#[test]
fn tokenize_scaled_derived_unit_carries_a_virtual_unit() {
    assert_eq!(
        Tokenizer::tokenize("kHz"),
        Ok(vec![Token::Group(vec![
            unit(time::second(), -1, 0),
            Token::Op(Op::Mul),
            Token::Unit(constant(Decimal { mantissa: 1, exponent: 0 }, 3)),
        ])])
    );
}

#[test]
fn tokenize_shorthand_is_spliced_in() {
    assert_eq!(
        Tokenizer::tokenize("mph"),
        Ok(vec![
            unit(length::statute_mile(), 1, 0),
            Token::Op(Op::Mul),
            unit(time::hour(), -1, 0),
        ])
    );
    assert_eq!(
        Tokenizer::tokenize("kWh"),
        Ok(vec![
            Token::Group(vec![
                unit(mass::gram(), 1, 3),
                Token::Op(Op::Mul),
                unit(length::meter(), 2, 0),
                Token::Op(Op::Mul),
                unit(time::second(), -3, 0),
                Token::Op(Op::Mul),
                Token::Unit(constant(Decimal { mantissa: 1, exponent: 0 }, 3)),
            ]),
            Token::Op(Op::Mul),
            unit(time::hour(), 1, 0),
        ])
    );
}

#[test]
fn add_conversion_tokens_uses_the_power_of_a_plain_unit() {
    let mut tokens = vec![Token::Num(7)];
    add_conversion_tokens(&mut tokens, ConversionType::Conversion(length::meter()), Some(-2), 3);
    assert_eq!(tokens, vec![Token::Num(7), unit(length::meter(), -2, 3)]);
    add_conversion_tokens(&mut tokens, ConversionType::Conversion(time::second()), None, 0);
    assert_eq!(
        tokens,
        vec![Token::Num(7), unit(length::meter(), -2, 3), unit(time::second(), 1, 0)]
    );
}

#[test]
fn add_conversion_tokens_of_an_empty_shorthand_takes_a_token_away() {
    let empty = unit_convert::shorthand::Shorthand::new("none", vec![]);
    let mut tokens = vec![Token::Num(7), Token::Op(Op::Mul)];
    add_conversion_tokens(&mut tokens, ConversionType::Shorthand(&empty), None, 0);
    assert_eq!(tokens, vec![Token::Num(7)]);
    let mut nothing: Vec<Token> = vec![];
    add_conversion_tokens(&mut nothing, ConversionType::Shorthand(&empty), None, 0);
    assert_eq!(nothing, vec![]);
}

#[test]
fn find_unit_order_of_lookup() {
    let table = UnitTable::standard();
    assert_eq!(find_unit(&table, "m"), Some(ConversionType::Conversion(length::meter())));
    assert_eq!(
        find_unit(&table, "Wh").map(|found| found.is_metric()),
        Some(true)
    );
    assert!(matches!(find_unit(&table, "N"), Some(ConversionType::DerivedConversion(_))));
    assert!(matches!(find_unit(&table, "mph"), Some(ConversionType::Shorthand(_))));
    assert_eq!(find_unit(&table, "nothing"), None);
}

#[test]
fn tokenize_with_a_table_of_its_own() {
    let mut table = UnitTable::standard();
    assert_eq!(
        Tokenizer::tokenize_with("mph", &table).map(|tokens| tokens.len()),
        Ok(3)
    );
    table.shorthands.clear();
    assert_eq!(
        Tokenizer::tokenize_with("mph", &table),
        Err(ParseError::InvalidToken("mph".to_string()))
    );
    table.prefixes.clear();
    assert_eq!(
        Tokenizer::tokenize_with("km", &table),
        Err(ParseError::InvalidToken("km".to_string()))
    );
    assert_eq!(Tokenizer::tokenize_with("m", &table), Ok(vec![unit(length::meter(), 1, 0)]));
}

#[test]
fn feed_character_by_character() {
    let table = UnitTable::standard();
    let mut scan = Tokenizer::new();
    for (chr, white) in [('k', false), ('m', false), (' ', true), ('/', false), ('h', false)] {
        assert_eq!(scan.feed(chr, white, &table), Ok(()));
        assert_eq!(scan.depth(), 0);
    }
    assert_eq!(
        scan.finish(&table),
        Ok(vec![unit(length::meter(), 1, 3), Token::Op(Op::Div), unit(time::hour(), 1, 0)])
    );
}

#[test]
fn feed_goes_by_the_flag_it_is_given() {
    let table = UnitTable::standard();
    // a space that is not flagged as white space joins the text
    let mut scan = Tokenizer::new();
    for chr in ['m', ' ', 's'] {
        assert_eq!(scan.feed(chr, false, &table), Ok(()));
    }
    assert_eq!(scan.finish(&table), Err(ParseError::InvalidToken("m s".to_string())));
    // a letter that is flagged as white space ends the text and is dropped
    let mut scan = Tokenizer::new();
    assert_eq!(scan.feed('m', false, &table), Ok(()));
    assert_eq!(scan.feed('x', true, &table), Ok(()));
    assert_eq!(scan.feed('s', false, &table), Ok(()));
    assert_eq!(
        scan.finish(&table),
        Ok(vec![unit(length::meter(), 1, 0), unit(time::second(), 1, 0)])
    );
    // inside parentheses the flag does not matter; operators come first
    let mut scan = Tokenizer::new();
    assert_eq!(scan.feed('*', true, &table), Ok(()));
    assert_eq!(scan.feed('(', true, &table), Ok(()));
    assert_eq!(scan.depth(), 1);
    assert_eq!(scan.feed('(', true, &table), Ok(()));
    assert_eq!(scan.depth(), 2);
    assert_eq!(scan.feed('s', true, &table), Ok(()));
    assert_eq!(scan.feed(')', true, &table), Ok(()));
    assert_eq!(scan.depth(), 1);
    assert_eq!(scan.feed(')', true, &table), Ok(()));
    assert_eq!(scan.depth(), 0);
    assert_eq!(
        scan.finish(&table),
        Ok(vec![Token::Op(Op::Mul), Token::Group(vec![unit(time::second(), 1, 0)])])
    );
}

#[test]
fn feed_refuses_what_tokenize_refuses() {
    let table = UnitTable::standard();
    let mut scan = Tokenizer::new();
    assert_eq!(scan.feed(')', false, &table), Err(ParseError::UnmatchedParenthesis));
    let mut scan = Tokenizer::new();
    assert_eq!(scan.feed('(', false, &table), Ok(()));
    assert_eq!(scan.feed('z', false, &table), Ok(()));
    assert_eq!(scan.feed('z', false, &table), Ok(()));
    assert_eq!(
        scan.feed(')', false, &table),
        Err(ParseError::InvalidToken("zz".to_string()))
    );
    let mut scan = Tokenizer::new();
    assert_eq!(scan.feed('(', false, &table), Ok(()));
    assert_eq!(scan.finish(&table), Err(ParseError::UnclosedParenthesis));
    let mut scan = Tokenizer::new();
    assert_eq!(scan.feed('q', false, &table), Ok(()));
    assert_eq!(scan.feed('/', false, &table), Err(ParseError::InvalidToken("q".to_string())));
}
