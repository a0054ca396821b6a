use arashi::transform::{judge_parse, transform_typescript, ParseError, ParseReport};

#[test]
fn typescript_types_are_stripped() {
    let script = transform_typescript("const a: number = 1;\nexport function f(x: string): string { return x; }\n", false)
        .unwrap();
    assert_eq!(script, "const a = 1;\nexport function f(x) {\n\treturn x;\n}\n");
}

#[test]
fn tsx_becomes_create_element_calls() {
    let script = transform_typescript("const e = <div className=\"a\">hi</div>;\n", true).unwrap();
    assert!(script.contains("React.createElement(\"div\""), "{script}");
    assert!(!script.contains("<div"), "{script}");
}

#[test]
fn imports_survive_the_transform() {
    let script = transform_typescript("import x from 'left-pad';\nconsole.log(x as any);\n", false).unwrap();
    assert!(script.starts_with("import x from \"left-pad\";\n"), "{script}");
}

#[test]
fn source_with_syntax_errors_is_not_transformed() {
    let error = transform_typescript("const = ;", false).unwrap_err();
    assert!(!error.messages.is_empty());
    assert!(error.text().starts_with("Parse Error: ["));
    assert!(error.text().ends_with(']'));
    let jsx_in_ts = transform_typescript("const e = <div>hi</div>;\n", false);
    assert!(jsx_in_ts.is_err());
}

#[test]
fn transform_gives_the_same_script_each_time() {
    let source = "enum Color { Red, Green }\nexport const c: Color = Color.Red;\n";
    assert_eq!(transform_typescript(source, false), transform_typescript(source, false));
    assert_ne!(transform_typescript(source, false), Ok(source.to_string()));
}

#[test]
fn parse_is_judged_by_its_report() {
    assert_eq!(judge_parse(ParseReport { panicked: false, errors: vec![] }), Ok(()));
    assert_eq!(
        judge_parse(ParseReport { panicked: false, errors: vec!["e".to_string()] }),
        Err(ParseError { messages: vec!["e".to_string()] })
    );
    assert_eq!(
        judge_parse(ParseReport { panicked: true, errors: vec![] }),
        Err(ParseError { messages: vec![] })
    );
    assert_eq!(
        judge_parse(ParseReport { panicked: true, errors: vec!["x".to_string(), "y".to_string()] }),
        Err(ParseError { messages: vec!["x".to_string(), "y".to_string()] })
    );
}

#[test]
fn parse_error_lists_its_messages() {
    assert_eq!(ParseError { messages: vec![] }.text(), "Parse Error: []");
    assert_eq!(ParseError { messages: vec!["one".to_string()] }.text(), "Parse Error: [one]");
    assert_eq!(
        ParseError { messages: vec!["one".to_string(), "two".to_string(), "three".to_string()] }.text(),
        "Parse Error: [one, two, three]"
    );
}
