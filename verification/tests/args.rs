use promptcmd::dotprompt::args::{ArgKind, ArgValue, DotPromptArgsError};
use promptcmd::dotprompt::{DotPrompt, Frontmatter, Input, Output};

fn prompt_with(schema: Vec<(&str, &str)>, template: &str) -> DotPrompt {
    DotPrompt {
        frontmatter: Frontmatter {
            model: "test/model".to_string(),
            input: if schema.is_empty() {
                None
            } else {
                Some(Input {
                    schema: Some(schema.into_iter().map(|(k, v)| (k.to_string(), v.to_string())).collect()),
                })
            },
            output: Some(Output { format: "text".to_string(), schema: None }),
        },
        template: template.to_string(),
    }
}

#[test]
fn test_args_from_dotprompt_string_field() {
    let dotprompt = prompt_with(vec![("name", "string, User name")], "Hello {{name}}");
    let args = dotprompt.arg_specs();

    assert!(args.is_ok(), "Should generate args successfully");
    let args = args.unwrap();
    assert_eq!(args.len(), 1);
    assert_eq!(args[0].kind, ArgKind::Named);
    assert!(args[0].required);
    assert_eq!(args[0].help, " User name");
}

#[test]
fn test_args_from_dotprompt_boolean_field() {
    let dotprompt = prompt_with(vec![("verbose?", "boolean, Enable verbose mode")], "Verbose: {{verbose}}");
    let args = dotprompt.arg_specs();

    assert!(args.is_ok(), "Should generate boolean arg");
    let args = args.unwrap();
    assert_eq!(args.len(), 1);
    assert_eq!(args[0].kind, ArgKind::Flag);
}

#[test]
fn test_args_from_dotprompt_multiple_fields() {
    let dotprompt = prompt_with(
        vec![("name", "string, User name"), ("age?", "string, User age"), ("verbose?", "boolean, Verbose mode")],
        "Template",
    );
    let args = dotprompt.arg_specs();

    assert!(args.is_ok());
    let args = args.unwrap();
    assert_eq!(args.len(), 3);
}

#[test]
fn test_args_positional_field() {
    let dotprompt = prompt_with(vec![("files!", "string, Files to process")], "Files: {{files}}");
    let args = dotprompt.arg_specs();

    assert!(args.is_ok(), "Should handle positional args");
    assert_eq!(args.unwrap()[0].kind, ArgKind::Positional { min_values: 1 });
}

#[test]
fn test_no_input_schema() {
    let dotprompt = prompt_with(vec![], "No input needed");
    let args = dotprompt.arg_specs();

    assert!(args.is_ok());
    let args = args.unwrap();
    assert_eq!(args.len(), 0, "Should generate no args");
}

#[test]
fn args_reject_unsupported_type() {
    let dotprompt = prompt_with(vec![("n", "integer, A number")], "{{n}}");
    match dotprompt.arg_specs() {
        Err(DotPromptArgsError::UnsupportedDataType { key, data_type }) => {
            assert_eq!(key, "n");
            assert_eq!(data_type, "integer");
        }
        other => panic!("unexpected {:?}", other.map(|v| v.len())),
    }
}

#[test]
fn args_optional_positional_takes_none() {
    let dotprompt = prompt_with(vec![("rest?!", "string, more")], "{{rest}}");
    assert_eq!(dotprompt.arg_specs().unwrap()[0].kind, ArgKind::Positional { min_values: 0 });
}

#[test]
fn test_render_with_string_values() {
    let dotprompt = prompt_with(
        vec![("name", "string, User name"), ("message", "string, Message text")],
        "Hello {{name}}, your message: {{message}}",
    );
    let matched = vec![
        ("name".to_string(), ArgValue::One("Alice".to_string())),
        ("message".to_string(), ArgValue::One("Hi there".to_string())),
    ];
    let rendered = dotprompt.render(&matched, &Vec::new());
    assert!(rendered.is_ok());
    assert_eq!(rendered.unwrap(), "Hello Alice, your message: Hi there");
}

#[test]
fn test_render_with_boolean_values() {
    let dotprompt = prompt_with(vec![("verbose?", "boolean, Verbose mode")], "Verbose mode: {{verbose}}");
    let matched = vec![("verbose".to_string(), ArgValue::Flag(true))];
    let rendered = dotprompt.render(&matched, &Vec::new());
    assert!(rendered.is_ok());
    assert_eq!(rendered.unwrap(), "Verbose mode: true");
}

#[test]
fn test_render_with_positional_args() {
    let dotprompt = prompt_with(vec![("positionals!", "string, Positional inputs")], "Processing: {{positionals}}");
    let matched = vec![(
        "positionals".to_string(),
        ArgValue::Many(vec!["pos1".to_string(), "pos2".to_string(), "pos3".to_string()]),
    )];
    let rendered = dotprompt.render(&matched, &Vec::new());
    assert!(rendered.is_ok());
    assert_eq!(rendered.unwrap(), "Processing: pos1 pos2 pos3");
}

#[test]
fn test_render_with_extra_variables() {
    let dotprompt = prompt_with(vec![("name", "string")], "Hello {{name}}, extra: {{STDIN}}");
    let matched = vec![("name".to_string(), ArgValue::One("Bob".to_string()))];
    let extra = vec![("STDIN".to_string(), "extra data".to_string())];
    let rendered = dotprompt.render(&matched, &extra);
    assert!(rendered.is_ok());
    assert_eq!(rendered.unwrap(), "Hello Bob, extra: extra data");
}

#[test]
fn test_render_optional_field_missing() {
    let dotprompt = prompt_with(vec![("name?", "string, Optional name")], "Name: {{name}}");
    let rendered = dotprompt.render(&Vec::new(), &Vec::new());
    assert!(rendered.is_ok());
    // Optional field should be empty string when not provided
    assert_eq!(rendered.unwrap(), "Name: ");
}

#[test]
fn test_render_no_input_schema() {
    let dotprompt = prompt_with(vec![], "Static template with no variables");
    let rendered = dotprompt.render(&Vec::new(), &Vec::new());
    assert!(rendered.is_ok());
    assert_eq!(rendered.unwrap(), "Static template with no variables");
}

#[test]
fn render_schema_value_replaces_extra() {
    let dotprompt = prompt_with(vec![("x", "string")], "{{x}}");
    let matched = vec![("x".to_string(), ArgValue::One("from args".to_string()))];
    let extra = vec![("x".to_string(), "from extra".to_string())];
    assert_eq!(dotprompt.render(&matched, &extra).unwrap(), "from args");
}

#[test]
fn render_reports_bad_template() {
    let dotprompt = prompt_with(vec![], "{{#if}}");
    match dotprompt.render(&Vec::new(), &Vec::new()) {
        Err(DotPromptArgsError::HandlebarsRegisterTemplateError(_)) => {}
        other => panic!("unexpected {:?}", other),
    }
}
