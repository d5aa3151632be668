use promptcmd::dotprompt::{split_source, DotPrompt, Frontmatter, Input, Output, ParseDotPromptError};

fn yaml_pairs(v: Option<&serde_yaml::Value>) -> Option<Vec<(String, String)>> {
    let m = v?.as_mapping()?;
    Some(
        m.iter()
            .map(|(k, v)| {
                (
                    k.as_str().unwrap_or_default().to_string(),
                    v.as_str().unwrap_or_default().to_string(),
                )
            })
            .collect(),
    )
}

/// Reads frontmatter text the way the application does, for the tests.
fn read_frontmatter(text: &str) -> Result<Frontmatter, String> {
    let v: serde_yaml::Value = serde_yaml::from_str(text).map_err(|e| e.to_string())?;
    let model = v
        .get("model")
        .and_then(|m| m.as_str())
        .ok_or_else(|| "missing field `model`".to_string())?
        .to_string();
    let input = v.get("input").map(|i| Input { schema: yaml_pairs(i.get("schema")) });
    let output = v.get("output").map(|o| Output {
        format: o.get("format").and_then(|f| f.as_str()).unwrap_or_default().to_string(),
        schema: yaml_pairs(o.get("schema")),
    });
    Ok(Frontmatter { model, input, output })
}

fn parse(content: &str) -> Result<DotPrompt, ParseDotPromptError> {
    let (fm, template) = split_source(content)?;
    DotPrompt::from_parts(read_frontmatter(&fm), template)
}

#[test]
fn test_parse_basic_dotprompt() {
    let content = r#"---
model: anthropic/sonnet-3-5-20241022
input:
  schema:
    message: string, The message to translate
output:
  format: text
---
Translate this: {{message}}"#;

    let result = parse(content);
    assert!(result.is_ok(), "Should parse valid dotprompt");

    let dotprompt = result.unwrap();
    assert_eq!(dotprompt.frontmatter.model, "anthropic/sonnet-3-5-20241022");
    assert_eq!(dotprompt.template, "Translate this: {{message}}");
    assert_eq!(dotprompt.frontmatter.output.unwrap().format, "text");
}

#[test]
fn test_parse_with_comments() {
    let content = r#"# This is a comment
# Another comment

---
model: ollama/llama3
input:
  schema:
    query: string
output:
  format: text
---
Query: {{query}}"#;

    let result = parse(content);
    assert!(result.is_ok(), "Should skip comments and parse successfully");

    let dotprompt = result.unwrap();
    assert_eq!(dotprompt.frontmatter.model, "ollama/llama3");
}

#[test]
fn test_parse_without_frontmatter_delimiter() {
    let content = r#"model: test/model
output:
  format: text"#;

    let result = parse(content);
    assert!(result.is_err(), "Should fail without frontmatter delimiter");

    if let Err(e) = result {
        assert!(e.0.contains("frontmatter delimiter"));
    }
}

#[test]
fn test_parse_invalid_yaml() {
    let content = r#"---
model: test
this is not valid yaml: [
output:
  format: text
---
Template"#;

    let result = parse(content);
    assert!(result.is_err(), "Should fail on invalid YAML");

    if let Err(e) = result {
        assert!(e.0.contains("invalid YAML"));
    }
}

#[test]
fn test_parse_missing_template() {
    let content = r#"---
model: test/model
output:
  format: text
---"#;

    let result = parse(content);
    // This should actually succeed with an empty template
    assert!(result.is_ok());
    assert_eq!(result.unwrap().template, "");
}

#[test]
fn test_input_schema_required_field() {
    let content = r#"---
model: test/model
input:
  schema:
    name: string, User's name
output:
  format: text
---
Hello {{name}}"#;

    let dotprompt = parse(content).unwrap();
    let schema = dotprompt.input_schema();

    assert_eq!(schema.len(), 1);
    let name_field = schema.get("name").unwrap();
    assert_eq!(name_field.key, "name");
    assert_eq!(name_field.data_type, "string");
    assert_eq!(name_field.description, " User's name");
    assert!(name_field.required, "Should be required by default");
    assert!(!name_field.positional, "Should not be positional by default");
}

#[test]
fn test_input_schema_optional_field() {
    let content = r#"---
model: test/model
input:
  schema:
    "age?": string, Optional age
output:
  format: text
---
Age: {{age}}"#;

    let dotprompt = parse(content).unwrap();
    let schema = dotprompt.input_schema();

    let age_field = schema.get("age").unwrap();
    assert_eq!(age_field.key, "age");
    assert!(!age_field.required, "Should be optional");
    assert!(!age_field.positional);
}

#[test]
fn test_input_schema_positional_field() {
    let content = r#"---
model: test/model
input:
  schema:
    "files!": string, Files to process
output:
  format: text
---
Files: {{files}}"#;

    let dotprompt = parse(content).unwrap();
    let schema = dotprompt.input_schema();

    let files_field = schema.get("files").unwrap();
    assert_eq!(files_field.key, "files");
    assert!(files_field.required, "Should be required");
    assert!(files_field.positional, "Should be positional");
}

#[test]
fn test_input_schema_optional_positional() {
    let content = r#"---
model: test/model
input:
  schema:
    args?!: string, Optional positional args
output:
  format: text
---
Args: {{args}}"#;

    let dotprompt = parse(content).unwrap();
    let schema = dotprompt.input_schema();

    let args_field = schema.get("args").unwrap();
    assert_eq!(args_field.key, "args");
    assert!(!args_field.required, "Should be optional");
    assert!(args_field.positional, "Should be positional");
}

#[test]
fn test_input_schema_optional_positional_reverse() {
    let content = r#"---
model: test/model
input:
  schema:
    args!?: string, Optional positional args (reverse syntax)
output:
  format: text
---
Args: {{args}}"#;

    let dotprompt = parse(content).unwrap();
    let schema = dotprompt.input_schema();

    let args_field = schema.get("args").unwrap();
    assert_eq!(args_field.key, "args");
    assert!(!args_field.required, "Should be optional");
    assert!(args_field.positional, "Should be positional");
}

#[test]
fn test_input_schema_no_input() {
    let content = r#"---
model: test/model
output:
  format: text
---
No input needed"#;

    let dotprompt = parse(content).unwrap();
    let schema = dotprompt.input_schema();

    assert_eq!(schema.len(), 0, "Should return empty schema");
}

#[test]
fn test_input_schema_multiple_fields() {
    let content = r#"---
model: test/model
input:
  schema:
    name: string, User name
    age?: string, User age
    files!: string, Files to process
    verbose?: boolean, Verbose output
output:
  format: text
---
Template"#;

    let dotprompt = parse(content).unwrap();
    let schema = dotprompt.input_schema();

    assert_eq!(schema.len(), 4);
    assert!(schema.contains_key("name"));
    assert!(schema.contains_key("age"));
    assert!(schema.contains_key("files"));
    assert!(schema.contains_key("verbose"));
}

#[test]
fn test_template_needs_stdin_true() {
    let content = r#"---
model: test/model
output:
  format: text
---
Process this: {{STDIN}}"#;

    let dotprompt = parse(content).unwrap();
    assert!(dotprompt.template_needs_stdin());
}

#[test]
fn test_template_needs_stdin_false() {
    let content = r#"---
model: test/model
output:
  format: text
---
No stdin needed"#;

    let dotprompt = parse(content).unwrap();
    assert!(!dotprompt.template_needs_stdin());
}

#[test]
fn test_model_info_parsing() {
    let content = r#"---
model: anthropic/sonnet-3-5-20241022
output:
  format: text
---
Template"#;

    let dotprompt = parse(content).unwrap();
    let model_info = dotprompt.model_info();

    assert!(model_info.is_ok());
    let info = model_info.unwrap();
    assert_eq!(info.provider, "anthropic");
    assert_eq!(info.model_name, "sonnet-3-5-20241022");
}

#[test]
fn test_model_info_invalid_format() {
    let content = r#"---
model: invalid-model-format
output:
  format: text
---
Template"#;

    let dotprompt = parse(content).unwrap();
    let model_info = dotprompt.model_info();

    assert!(model_info.is_err(), "Should fail on invalid model format");
}

#[test]
fn test_schema_without_description() {
    let content = r#"---
model: test/model
input:
  schema:
    name: string
output:
  format: text
---
Template"#;

    let dotprompt = parse(content).unwrap();
    let schema = dotprompt.input_schema();

    let name_field = schema.get("name").unwrap();
    assert_eq!(name_field.data_type, "string");
    assert_eq!(name_field.description, "");
}

#[test]
fn test_complex_template() {
    let content = r#"---
model: test/model
input:
  schema:
    name: string
    language: string
output:
  format: text
---
Hello {{name}}!
Please translate to {{language}}.
Multiple lines supported."#;

    let dotprompt = parse(content).unwrap();
    assert!(dotprompt.template.contains("Hello {{name}}"));
    assert!(dotprompt.template.contains("{{language}}"));
    assert!(dotprompt.template.contains("Multiple lines"));
}

#[test]
fn split_source_reports_missing_template() {
    let r = split_source("---\nmodel: a/b\n");
    assert_eq!(r.unwrap_err().0, "missing template after frontmatter");
}

#[test]
fn split_source_exact_parts() {
    let (fm, t) = split_source("  \n# c\n---\n model: a/b \n---\n  body \n").unwrap();
    assert_eq!(fm, "model: a/b");
    assert_eq!(t, "body");
}

#[test]
fn split_source_rejects_text_before_fence() {
    let r = split_source("hello\n---\nmodel: a\n---\nbody");
    assert_eq!(r.unwrap_err().0, "input must start with frontmatter delimiter `---`");
}

#[test]
fn from_parts_wraps_yaml_error() {
    let r = DotPrompt::from_parts(Err("bad".to_string()), "t".to_string());
    assert_eq!(r.unwrap_err().0, "invalid YAML frontmatter: bad");
}

#[test]
fn output_format_defaults_to_text() {
    let p = DotPrompt {
        frontmatter: Frontmatter { model: "a/b".to_string(), input: None, output: None },
        template: String::new(),
    };
    assert_eq!(p.output_format(), "text");
    let q = DotPrompt {
        frontmatter: Frontmatter {
            model: "a/b".to_string(),
            input: None,
            output: Some(Output { format: "json".to_string(), schema: None }),
        },
        template: String::new(),
    };
    assert_eq!(q.output_format(), "json");
}

#[test]
fn output_schema_marks_optional_fields() {
    let p = DotPrompt {
        frontmatter: Frontmatter {
            model: "a/b".to_string(),
            input: None,
            output: Some(Output {
                format: "json".to_string(),
                schema: Some(vec![
                    ("title".to_string(), "string, The title".to_string()),
                    ("score?".to_string(), "number".to_string()),
                ]),
            }),
        },
        template: String::new(),
    };
    let s = p.output_schema();
    assert_eq!(s.len(), 2);
    let t = s.get("title").unwrap();
    assert!(t.required && !t.positional);
    assert_eq!(t.description, " The title");
    let sc = s.get("score").unwrap();
    assert!(!sc.required);
    assert_eq!(sc.data_type, "number");
}

#[test]
fn input_schema_later_entry_wins() {
    let p = DotPrompt {
        frontmatter: Frontmatter {
            model: "a/b".to_string(),
            input: Some(Input {
                schema: Some(vec![
                    ("name".to_string(), "string, first".to_string()),
                    ("name?".to_string(), "boolean, second".to_string()),
                ]),
            }),
            output: None,
        },
        template: String::new(),
    };
    let s = p.input_schema();
    assert_eq!(s.len(), 1);
    let e = s.get("name").unwrap();
    assert_eq!(e.data_type, "boolean");
    assert!(!e.required);
    assert_eq!(s.elements().len(), 1);
}

#[test]
fn model_info_cuts_at_first_slash() {
    let p = DotPrompt {
        frontmatter: Frontmatter { model: "ollama/gpt-oss:20b/x".to_string(), input: None, output: None },
        template: String::new(),
    };
    let m = p.model_info().unwrap();
    assert_eq!(m.provider, "ollama");
    assert_eq!(m.model_name, "gpt-oss:20b/x");
    let bad = DotPrompt {
        frontmatter: Frontmatter { model: "plain".to_string(), input: None, output: None },
        template: String::new(),
    };
    assert_eq!(bad.model_info().unwrap_err().0, "Improper model format");
}

#[test]
fn structured_output_fields_map_types() {
    let p = DotPrompt {
        frontmatter: Frontmatter {
            model: "a/b".to_string(),
            input: None,
            output: Some(Output {
                format: "json".to_string(),
                schema: Some(vec![
                    ("score".to_string(), "number, The score".to_string()),
                    ("ok?".to_string(), "boolean".to_string()),
                    ("when".to_string(), "date".to_string()),
                ]),
            }),
        },
        template: String::new(),
    };
    let fields = p.structured_output_fields();
    assert_eq!(fields.len(), 3);
    let find = |k: &str| fields.iter().find(|f| f.key == k).unwrap();
    assert_eq!(find("score").json_type, "number");
    assert!(find("score").required);
    assert_eq!(find("ok").json_type, "boolean");
    assert!(!find("ok").required);
    assert_eq!(find("when").json_type, "string");
}

#[test]
fn written_source_splits_back() {
    let fm = "  model: a/b\ninput:\n  schema:\n    x: string ";
    let template = "\nLine one\n# not a comment here\nLine two\n\n";
    let content = format!("---\n{fm}\n---\n{template}");
    let (f, t) = split_source(&content).unwrap();
    assert_eq!(f, fm.trim());
    assert_eq!(t, template.trim());
}

fn output_prompt(schema: Vec<(&str, &str)>) -> DotPrompt {
    DotPrompt {
        frontmatter: Frontmatter {
            model: "a/b".to_string(),
            input: None,
            output: Some(Output {
                format: "json".to_string(),
                schema: Some(schema.into_iter().map(|(k, v)| (k.to_string(), v.to_string())).collect()),
            }),
        },
        template: String::new(),
    }
}

#[test]
fn structured_json_document_text() {
    let p = output_prompt(vec![("score", "number, The score"), ("ok?", "boolean"), ("when", "date")]);
    let doc = p.output_to_extract_structured_json("extract");
    assert_eq!(
        doc,
        [
            r#"{"name":"extract","schema":{"properties":{"#,
            r#""ok":{"description":"","type":"boolean"},"#,
            r#""score":{"description":" The score","type":"number"},"#,
            r#""when":{"description":"","type":"string"}"#,
            r#"},"required":["score","when"],"type":"object"}}"#,
        ]
        .concat()
    );
    let v: serde_json::Value = serde_json::from_str(&doc).unwrap();
    assert_eq!(v["name"], "extract");
    assert_eq!(v["schema"]["type"], "object");
    assert_eq!(v["schema"]["properties"]["score"]["type"], "number");
    assert_eq!(v["schema"]["properties"]["ok"]["type"], "boolean");
    assert_eq!(v["schema"]["properties"].as_object().unwrap().len(), 3);
}

#[test]
fn structured_json_escapes_strings() {
    let p = output_prompt(vec![("q\"k", "string,a \\ b\n\tc\u{1}\r\u{8}\u{c}é")]);
    let doc = p.output_to_extract_structured_json("n\"1");
    assert_eq!(
        doc,
        [
            r#"{"name":"n\"1","schema":{"properties":{"q\"k":{"description":"a \\ b\n\tc\u0001\r\b\fé","type":"string"}},"#,
            r#""required":["q\"k"],"type":"object"}}"#,
        ]
        .concat()
    );
    let v: serde_json::Value = serde_json::from_str(&doc).unwrap();
    assert_eq!(v["schema"]["properties"]["q\"k"]["description"], "a \\ b\n\tc\u{1}\r\u{8}\u{c}é");
}

#[test]
fn structured_json_without_output_schema() {
    let p = DotPrompt {
        frontmatter: Frontmatter { model: "a/b".to_string(), input: None, output: None },
        template: String::new(),
    };
    assert_eq!(
        p.output_to_extract_structured_json(""),
        r#"{"name":"","schema":{"properties":{},"required":[],"type":"object"}}"#
    );
}

#[test]
fn structured_json_properties_follow_key_order() {
    let p = output_prompt(vec![("b", "string"), ("é", "string"), ("ab?", "string"), ("B", "string"), ("a", "string")]);
    let doc = p.output_to_extract_structured_json("n");
    let order: Vec<usize> = ["\"B\":", "\"a\":", "\"ab\":", "\"b\":", "\"é\":"]
        .iter()
        .map(|k| doc.find(k).unwrap())
        .collect();
    assert!(order.windows(2).all(|w| w[0] < w[1]), "{doc}");
    assert!(doc.ends_with(r#""required":["b","é","B","a"],"type":"object"}}"#), "{doc}");
}
