use promptcmd::dotprompt::args::ArgValue;
use promptcmd::dotprompt::renderers::{InputArgKind, InputValue, PromptInputs, RenderError};
use promptcmd::dotprompt::{DotPrompt, Frontmatter, Input};

fn typed_prompt(schema: Vec<(&str, &str)>) -> DotPrompt {
    DotPrompt {
        frontmatter: Frontmatter {
            model: "test/model".to_string(),
            input: Some(Input {
                schema: Some(schema.into_iter().map(|(k, v)| (k.to_string(), v.to_string())).collect()),
            }),
            output: None,
        },
        template: String::new(),
    }
}

fn value_of<'a>(inputs: &'a PromptInputs, key: &str) -> &'a InputValue {
    &inputs.map.iter().find(|(k, _)| k == key).unwrap().1
}

#[test]
fn prompt_inputs_by_type() {
    let p = typed_prompt(vec![
        ("verbose?", "boolean"),
        ("count?", "integer"),
        ("ratio?", "number"),
        ("files!", "string"),
        ("name", "string"),
        ("mode", "enum"),
    ]);
    let matched = vec![
        ("count".to_string(), ArgValue::Int(-4)),
        ("ratio".to_string(), ArgValue::Number(0.5f32.to_bits())),
        ("files".to_string(), ArgValue::Many(vec!["a".to_string(), "b".to_string()])),
        ("name".to_string(), ArgValue::One("Ann".to_string())),
    ];
    let inputs = p.prompt_inputs(&matched).unwrap();
    assert_eq!(inputs.map.len(), 6);
    assert!(matches!(value_of(&inputs, "verbose"), InputValue::Bool(false)));
    assert!(matches!(value_of(&inputs, "count"), InputValue::Int(-4)));
    match value_of(&inputs, "ratio") {
        InputValue::Number(bits) => assert_eq!(f32::from_bits(*bits), 0.5),
        other => panic!("unexpected {:?}", other),
    }
    match value_of(&inputs, "files") {
        InputValue::Text(t) => assert_eq!(t, "a b"),
        other => panic!("unexpected {:?}", other),
    }
    match value_of(&inputs, "mode") {
        InputValue::Text(t) => assert_eq!(t, ""),
        other => panic!("unexpected {:?}", other),
    }
}

#[test]
fn prompt_inputs_reject_unknown_type() {
    let p = typed_prompt(vec![("when", "date")]);
    match p.prompt_inputs(&Vec::new()) {
        Err(RenderError::UnsupportedDataType { key, data_type }) => {
            assert_eq!(key, "when");
            assert_eq!(data_type, "date");
        }
        other => panic!("unexpected {:?}", other),
    }
}

#[test]
fn prompt_inputs_insert_replaces() {
    let mut inputs = PromptInputs::new();
    inputs.insert("a".to_string(), InputValue::Int(1));
    inputs.insert("b".to_string(), InputValue::Bool(true));
    inputs.insert("a".to_string(), InputValue::Int(2));
    assert_eq!(inputs.map.len(), 2);
    assert!(matches!(value_of(&inputs, "a"), InputValue::Int(2)));
}

#[test]
fn input_arg_specs_cover_every_input_type() {
    let p = typed_prompt(vec![
        ("verbose", "boolean, be loud"),
        ("words?", "integer, how many words"),
        ("ratio", "number"),
        ("files!", "string, the files"),
        ("rest?!", "string"),
        ("name?", "string"),
        ("mode", "enum, the mode"),
    ]);
    let specs = p.input_arg_specs().unwrap();
    assert_eq!(specs.len(), 7);
    let find = |k: &str| specs.iter().find(|s| s.key == k).unwrap();
    let verbose = find("verbose");
    assert!(matches!(verbose.kind, InputArgKind::Flag));
    assert!(!verbose.required);
    assert_eq!(verbose.help, " be loud");
    let words = find("words");
    assert!(matches!(words.kind, InputArgKind::Int));
    assert!(!words.required);
    assert_eq!(words.help, " how many words");
    let ratio = find("ratio");
    assert!(matches!(ratio.kind, InputArgKind::Number));
    assert!(ratio.required);
    assert!(matches!(find("files").kind, InputArgKind::Positional { min_values: 1 }));
    assert!(find("files").required);
    assert!(matches!(find("rest").kind, InputArgKind::Positional { min_values: 0 }));
    assert!(matches!(find("name").kind, InputArgKind::Named));
    match &find("mode").kind {
        InputArgKind::Choice { choices } => assert!(choices.is_empty()),
        other => panic!("unexpected {:?}", other),
    }
}

#[test]
fn input_arg_specs_reject_unknown_type() {
    let p = typed_prompt(vec![("name", "string"), ("when", "date, a day")]);
    match p.input_arg_specs() {
        Err(RenderError::UnsupportedDataType { key, data_type }) => {
            assert_eq!(key, "when");
            assert_eq!(data_type, "date");
        }
        other => panic!("unexpected {:?}", other),
    }
}

#[test]
fn input_arg_specs_of_prompt_without_inputs() {
    let p = typed_prompt(vec![]);
    assert!(p.input_arg_specs().unwrap().is_empty());
}

#[test]
fn summarize_prompt_takes_words_as_integer() {
    let p = typed_prompt(vec![("words?", "integer, Summary length in words")]);
    let specs = p.input_arg_specs().unwrap();
    assert_eq!(specs.len(), 1);
    assert_eq!(specs[0].key, "words");
    assert_eq!(specs[0].help, " Summary length in words");
    assert!(!specs[0].required);
    assert!(matches!(specs[0].kind, InputArgKind::Int));
    let given = p.prompt_inputs(&vec![("words".to_string(), ArgValue::Int(10))]).unwrap();
    assert!(matches!(value_of(&given, "words"), InputValue::Int(10)));
    let absent = p.prompt_inputs(&Vec::new()).unwrap();
    assert!(matches!(value_of(&absent, "words"), InputValue::Int(0)));
}
