use bmc::lexer::Token;

#[test]
fn token_categories_are_distinct() {
    let categories = vec![
        Token::LineComment,
        Token::BlockComment,
        Token::NewLine,
        Token::WhiteSpace,
        Token::Integer,
        Token::HexInteger,
        Token::OctalInteger,
        Token::BinaryInteger,
        Token::Float,
        Token::Directive,
        Token::Label,
        Token::Identifier,
        Token::DotSymbol,
    ];
    for (i, a) in categories.iter().enumerate() {
        for (j, b) in categories.iter().enumerate() {
            assert_eq!(i == j, a == b);
        }
    }
}
