use raven::template::{parse_to_token, Token, TemplateBuilder};

#[test]
fn parse_to_token_test() {
    let plain = parse_to_token("https://application/");
    assert_eq!(
        plain,
        Ok(vec![Token::PlainText("https://application/".to_owned())])
    );

    let contain_keys = parse_to_token("https://application/{{number}}");
    assert_eq!(
        contain_keys,
        Ok(vec![
            Token::PlainText("https://application/".to_owned()),
            Token::Key("number".to_owned())
        ])
    );

    let chaus = parse_to_token("https://application//{{numer{}}}/{index}}/{{{number}}}/{{item");
    let expected = vec![
        Token::PlainText("https://application//".to_owned()),
        Token::Key("numer{".to_owned()),
        Token::PlainText("}/{index}}/".to_owned()),
        Token::Key("{number".to_owned()),
        Token::PlainText("}/".to_owned()),
        Token::PlainText("{{".to_owned()),
        Token::PlainText("item".to_owned()),
    ];
    assert_eq!(chaus, Ok(expected));
}

#[test]
fn raven_template_parser_parse_to_token_test() {
    let plain = parse_to_token("https://raven/");
    assert_eq!(plain, Ok(vec![Token::PlainText("https://raven/".to_owned())]));

    let contain_keys = parse_to_token("https://raven/{{number}}");
    assert_eq!(
        contain_keys,
        Ok(vec![
            Token::PlainText("https://raven/".to_owned()),
            Token::Key("number".to_owned())
        ])
    );

    let chaus = parse_to_token("https://raven//{{numer{}}}/{index}}/{{{number}}}/{{item");
    let expected = vec![
        Token::PlainText("https://raven//".to_owned()),
        Token::Key("numer{".to_owned()),
        Token::PlainText("}/{index}}/".to_owned()),
        Token::Key("{number".to_owned()),
        Token::PlainText("}/".to_owned()),
        Token::PlainText("{{".to_owned()),
        Token::PlainText("item".to_owned()),
    ];
    assert_eq!(chaus, Ok(expected));
}

#[test]
fn build_string_embeds_values() {
    let mut key_val_map: Vec<(String, String)> = Vec::new();
    key_val_map.push(("id".to_owned(), "tsuboshy".to_owned()));
    key_val_map.push(("number".to_owned(), "1234567".to_owned()));

    let builder = TemplateBuilder::new("http://localhost/{{id}}/{{number}}");

    let result1 = builder.build_string(&key_val_map);
    assert_eq!(result1, Ok("http://localhost/tsuboshy/1234567".to_owned()));

    let empty: Vec<(String, String)> = Vec::new();
    let result2 = builder.build_string(&empty);
    assert_eq!(result2, Err("could not find value: id".to_owned()));
}

#[test]
fn build_string_later_entry_wins() {
    let mut key_val_map: Vec<(String, String)> = Vec::new();
    key_val_map.push(("id".to_owned(), "first".to_owned()));
    key_val_map.push(("id".to_owned(), "second".to_owned()));
    let builder = TemplateBuilder::new("{{id}}");
    assert_eq!(builder.build_string(&key_val_map), Ok("second".to_owned()));
}

#[test]
fn parse_rejects_only_the_empty_template() {
    assert!(parse_to_token("").is_err());
    assert!(parse_to_token("{").is_ok());
    assert!(parse_to_token("{{").is_ok());
    assert!(parse_to_token("}}").is_ok());
}

#[test]
fn round_trip_renders_source_back() {
    // rendering the parsed tokens with each key mapped back to its
    // {{name}} form reproduces the source
    let source = "https://host//{{numer{}}}/{index}}/{{{number}}}/{{item";
    let tokens = parse_to_token(source).unwrap();
    let mut map: Vec<(String, String)> = Vec::new();
    for token in &tokens {
        if let Token::Key(k) = token {
            map.push((k.clone(), format!("{{{{{}}}}}", k)));
        }
    }
    let builder = TemplateBuilder::new(source);
    assert_eq!(builder.build_string(&map), Ok(source.to_owned()));
}

#[test]
fn empty_key_reference_stays_literal() {
    assert_eq!(
        parse_to_token("{{}}ab"),
        Ok(vec![
            Token::PlainText("{{".to_owned()),
            Token::PlainText("}}ab".to_owned())
        ])
    );
}
