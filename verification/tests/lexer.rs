use compiler::lexer::{Lexer, Token, TokenType};

fn lex(input: &str) -> Vec<Token> {
    Lexer::new(input).tokenize().expect("the text has tokens only")
}

fn kinds(input: &str) -> Vec<TokenType> {
    lex(input).iter().map(|t| t.token_type).collect()
}

fn values(input: &str) -> Vec<String> {
    lex(input).iter().map(|t| t.value.clone()).collect()
}

#[test]
fn empty_text_has_no_tokens() {
    assert!(lex("").is_empty());
    assert!(lex("  \t\n\r\n ").is_empty());
}

#[test]
fn declaration_and_assignment() {
    assert_eq!(
        kinds("var x: u32; x = 3 + 4;"),
        vec![
            TokenType::Var,
            TokenType::Identifier,
            TokenType::Colon,
            TokenType::Type,
            TokenType::SemiColon,
            TokenType::Identifier,
            TokenType::EqualSign,
            TokenType::IntLiteral,
            TokenType::Plus,
            TokenType::IntLiteral,
            TokenType::SemiColon,
        ]
    );
    assert_eq!(
        values("var x: u32; x = 3 + 4;"),
        vec!["var", "x", ":", "u32", ";", "x", "=", "3", "+", "4", ";"]
    );
}

#[test]
fn token_kinds_are_the_same_on_every_run() {
    let text = "fn f(a: u8) { if (a <= 3) { print8(a); } else { while a != 0 { a = a - 1; } } }";
    let first = kinds(text);
    for _ in 0..5 {
        assert_eq!(kinds(text), first);
    }
}

#[test]
fn every_punctuation_token() {
    assert_eq!(
        kinds("+ - * / ( ) { } ; : ,"),
        vec![
            TokenType::Plus,
            TokenType::Minus,
            TokenType::Star,
            TokenType::Slash,
            TokenType::LeftParen,
            TokenType::RightParen,
            TokenType::LeftBrace,
            TokenType::RightBrace,
            TokenType::SemiColon,
            TokenType::Colon,
            TokenType::Comma,
        ]
    );
}

#[test]
fn single_and_compound_operators() {
    assert_eq!(
        kinds("= == ! != < <= > >="),
        vec![
            TokenType::EqualSign,
            TokenType::DoubleEqualSign,
            TokenType::ExclamationMark,
            TokenType::NotEqualSign,
            TokenType::LessThan,
            TokenType::LessThanOrEqual,
            TokenType::GreaterThan,
            TokenType::GreaterThanOrEqual,
        ]
    );
    assert_eq!(values("a<=b"), vec!["a", "<=", "b"]);
    assert_eq!(kinds("==="), vec![TokenType::DoubleEqualSign, TokenType::EqualSign]);
}

#[test]
fn an_operator_at_the_end_of_the_text() {
    assert_eq!(kinds("x ="), vec![TokenType::Identifier, TokenType::EqualSign]);
    assert_eq!(kinds("<"), vec![TokenType::LessThan]);
}

#[test]
fn keywords_and_type_names() {
    assert_eq!(
        kinds("if else var while fn"),
        vec![
            TokenType::If,
            TokenType::Else,
            TokenType::Var,
            TokenType::While,
            TokenType::Function,
        ]
    );
    for name in ["i8", "i16", "i32", "i64", "u8", "u16", "u32", "u64", "bool"] {
        let tokens = lex(name);
        assert_eq!(tokens.len(), 1);
        assert_eq!(tokens[0].token_type, TokenType::Type);
        assert_eq!(tokens[0].value, name);
    }
    assert_eq!(kinds("iff u128 Var"), vec![TokenType::Identifier; 3]);
}

#[test]
fn words_may_hold_digits_after_the_first_letter() {
    let tokens = lex("x1 print64 9lives");
    assert_eq!(tokens[0].token_type, TokenType::Identifier);
    assert_eq!(tokens[0].value, "x1");
    assert_eq!(tokens[1].token_type, TokenType::Identifier);
    assert_eq!(tokens[1].value, "print64");
    assert_eq!(tokens[2].token_type, TokenType::IntLiteral);
    assert_eq!(tokens[2].value, "9");
    assert_eq!(tokens[3].token_type, TokenType::Identifier);
    assert_eq!(tokens[3].value, "lives");
}

#[test]
fn lines_and_columns_are_one_based() {
    let tokens = lex("var x: u8;\n  x = 10;\r\n\tif");
    let places: Vec<(usize, usize)> = tokens.iter().map(|t| (t.line, t.col)).collect();
    assert_eq!(
        places,
        vec![(1, 1), (1, 5), (1, 6), (1, 8), (1, 10), (2, 3), (2, 5), (2, 7), (2, 9), (3, 2)]
    );
}

#[test]
fn comments_run_to_the_end_of_the_line() {
    assert_eq!(values("# nothing here\nx # trailing = 1\n# another\n\n  # and more\ny"), vec!["x", "y"]);
}

#[test]
fn a_comment_may_end_the_text() {
    assert_eq!(values("x # the end"), vec!["x"]);
    assert_eq!(values("x # the end\n"), vec!["x"]);
    assert!(lex("#").is_empty());
}

#[test]
fn an_unexpected_character_is_reported_with_its_place() {
    let error = Lexer::new("var x;\n  x = $;").tokenize().unwrap_err();
    assert_eq!(error.line, 2);
    assert_eq!(error.col, 7);
    assert_eq!(error.character, "$");
}

#[test]
fn a_cluster_that_only_begins_with_a_letter_is_no_word() {
    let error = Lexer::new("a\u{20dd}").tokenize().unwrap_err();
    assert_eq!(error.line, 1);
    assert_eq!(error.col, 1);
    assert_eq!(error.character, "a\u{20dd}");
}

#[test]
fn clusters_of_several_characters_count_as_one_column() {
    let error = Lexer::new("\r\n\r\n  @").tokenize().unwrap_err();
    assert_eq!((error.line, error.col), (3, 3));
}

#[test]
fn a_second_call_finds_nothing_left() {
    let mut lexer = Lexer::new("x = 1;");
    assert_eq!(lexer.tokenize().unwrap().len(), 4);
    assert!(lexer.tokenize().unwrap().is_empty());
}

#[test]
fn words_continue_over_letters_of_any_script() {
    let tokens = lex("na\u{ef}ve");
    assert_eq!(tokens.len(), 1);
    assert_eq!(tokens[0].value, "na\u{ef}ve");
    assert_eq!(tokens[0].col, 1);
}

#[test]
fn a_text_may_be_given_cluster_by_cluster() {
    let tokens = Lexer::from_clusters(vec!["x", " ", "<", "=", "\r\n", "1", "2", ";"])
        .tokenize()
        .unwrap();
    let kinds: Vec<TokenType> = tokens.iter().map(|t| t.token_type).collect();
    assert_eq!(
        kinds,
        vec![
            TokenType::Identifier,
            TokenType::LessThanOrEqual,
            TokenType::IntLiteral,
            TokenType::SemiColon,
        ]
    );
    assert_eq!(tokens[1].value, "<=");
    assert_eq!(tokens[2].value, "12");
    assert_eq!((tokens[2].line, tokens[2].col), (2, 1));
    assert_eq!((tokens[3].line, tokens[3].col), (2, 3));
    assert!(Lexer::from_clusters(Vec::new()).tokenize().unwrap().is_empty());
}

#[test]
fn given_clusters_are_taken_as_they_are() {
    let tokens = Lexer::from_clusters(vec!["wh", "ile", " ", "x", "12", "y"]).tokenize().unwrap();
    assert_eq!(tokens.len(), 2);
    assert_eq!(tokens[0].token_type, TokenType::While);
    assert_eq!(tokens[0].value, "while");
    assert_eq!(tokens[1].token_type, TokenType::Identifier);
    assert_eq!(tokens[1].value, "x12y");
    assert_eq!(tokens[1].col, 4);
    let error = Lexer::from_clusters(vec!["ok", "7x"]).tokenize().unwrap_err();
    assert_eq!((error.line, error.col), (1, 2));
    assert_eq!(error.character, "7x");
    let tokens = Lexer::from_clusters(vec!["=="]).tokenize().unwrap();
    assert_eq!(tokens.len(), 1);
    assert_eq!(tokens[0].token_type, TokenType::EqualSign);
    assert_eq!(tokens[0].value, "==");
    let error = Lexer::from_clusters(vec![""]).tokenize().unwrap_err();
    assert_eq!(error.character, "");
}

#[test]
fn ascii_letters_and_digits_are_what_words_and_numbers_are_made_of() {
    for c in 0u8..128 {
        let c = c as char;
        let text = format!("a{}", c);
        let tokens = Lexer::new(&text).tokenize();
        let continues = c.is_ascii_alphanumeric();
        match tokens {
            Ok(tokens) if continues => {
                assert_eq!(tokens.len(), 1);
                assert_eq!(tokens[0].value, text);
            }
            Ok(tokens) => assert!(tokens.is_empty() || tokens[0].value == "a"),
            Err(error) => {
                assert!(!continues);
                assert_eq!(error.col, 2);
            }
        }
    }
}
