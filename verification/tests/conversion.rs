use transcode::convert::{json_text, toml_text, transcode, yaml_text};
use transcode::endpoint::{Input, Output, IO};
use transcode::error::ConvertError;
use transcode::format::FileFormat;
use transcode::pipeline::{accept_pair, confirmation, output_path, prepare, conclude};

const FORMATS: [FileFormat; 4] =
    [FileFormat::Json, FileFormat::Yaml, FileFormat::Toml, FileFormat::Unknown];

fn convert(from: FileFormat, to: FileFormat, text: &str) -> Result<String, ConvertError> {
    let input = Input::new(format!("in.{}", from.to_string()));
    let output = Output::new("out".to_string(), Some(to));
    assert_eq!(*input.format(), from);
    assert_eq!(*output.format(), to);
    transcode(&input, &output, text)
}

fn minimal(format: FileFormat) -> &'static str {
    match format {
        FileFormat::Json => "{\"x\":1}",
        FileFormat::Yaml => "x: 1\n",
        FileFormat::Toml => "x = 1\n",
        FileFormat::Unknown => "x",
    }
}

#[test]
fn every_pair_of_distinct_formats_converts_a_minimal_document() {
    for from in [FileFormat::Json, FileFormat::Yaml, FileFormat::Toml] {
        for to in [FileFormat::Json, FileFormat::Yaml, FileFormat::Toml] {
            if from == to {
                continue;
            }
            let text = convert(from, to, minimal(from)).unwrap();
            assert_eq!(text, minimal(to));
            match to {
                FileFormat::Json => {
                    assert!(serde_json::from_str::<serde_json::Value>(&text).is_ok())
                }
                FileFormat::Yaml => {
                    assert!(serde_yaml::from_str::<serde_yaml::Value>(&text).is_ok())
                }
                _ => assert!(toml::from_str::<toml::Value>(&text).is_ok()),
            }
        }
    }
}

#[test]
fn equal_known_formats_are_refused() {
    for format in [FileFormat::Json, FileFormat::Yaml, FileFormat::Toml] {
        let result = convert(format, format, minimal(format));
        assert!(matches!(result, Err(ConvertError::IdenticalFormats)));
    }
}

#[test]
fn unknown_input_is_refused_whatever_the_output() {
    for to in FORMATS {
        let input = Input::new("notes.txt".to_string());
        let output = Output::new("out".to_string(), Some(to));
        let result = transcode(&input, &output, "{\"x\":1}");
        assert!(matches!(result, Err(ConvertError::UnknownInputFormat)));
    }
}

#[test]
fn unknown_output_is_refused_for_a_known_input() {
    for from in [FileFormat::Json, FileFormat::Yaml, FileFormat::Toml] {
        let result = convert(from, FileFormat::Unknown, minimal(from));
        assert!(matches!(result, Err(ConvertError::UnknownOutputFormat)));
    }
}

#[test]
fn json_to_yaml_keeps_the_mapping() {
    let text = convert(FileFormat::Json, FileFormat::Yaml, "{\"a\": 1, \"b\": [true, null]}")
        .unwrap();
    let tree: serde_yaml::Value = serde_yaml::from_str(&text).unwrap();
    let mut expected = serde_yaml::Mapping::new();
    expected.insert(
        serde_yaml::Value::String("a".to_string()),
        serde_yaml::Value::Number(serde_yaml::Number::from(1u64)),
    );
    expected.insert(
        serde_yaml::Value::String("b".to_string()),
        serde_yaml::Value::Sequence(vec![serde_yaml::Value::Bool(true), serde_yaml::Value::Null]),
    );
    assert_eq!(tree, serde_yaml::Value::Mapping(expected));
    assert_eq!(text, "a: 1\nb:\n- true\n- null\n");
}

#[test]
fn config_json_to_config_toml() {
    let (input, output) =
        prepare("config.json".to_string(), Some("config.toml".to_string()), None).unwrap();
    assert_eq!(*input.format(), FileFormat::Json);
    assert_eq!(*output.format(), FileFormat::Toml);
    assert_eq!(output.path(), "config.toml");
    let text = transcode(&input, &output, "{\"x\":1}").unwrap();
    assert_eq!(text, "x = 1\n");
    let line = conclude(&input, &output, true).unwrap();
    assert_eq!(line, "Wrote config.json to config.toml");
}

#[test]
fn format_flag_without_output_replaces_the_extension() {
    let (input, output) = prepare("data.yml".to_string(), None, Some(FileFormat::Toml)).unwrap();
    assert_eq!(input.path(), "data.yml");
    assert_eq!(*input.format(), FileFormat::Yaml);
    assert_eq!(output.path(), "data.toml");
    assert_eq!(*output.format(), FileFormat::Toml);
}

#[test]
fn malformed_input_yields_the_parsers_message() {
    let cases = [
        (FileFormat::Json, FileFormat::Yaml, "{\"x\": "),
        (FileFormat::Json, FileFormat::Toml, "{x}"),
        (FileFormat::Yaml, FileFormat::Json, "a: [1, 2"),
        (FileFormat::Yaml, FileFormat::Toml, "a: b: c: ["),
        (FileFormat::Toml, FileFormat::Json, "x = = 1"),
        (FileFormat::Toml, FileFormat::Yaml, "[table"),
    ];
    for (from, to, text) in cases {
        match convert(from, to, text) {
            Err(ConvertError::ParseError(message)) => assert!(!message.is_empty()),
            other => panic!("{:?} to {:?} gave {:?}", from, to, other),
        }
    }
}

#[test]
fn json_parse_error_is_passed_on_unchanged() {
    let expected = serde_json::from_str::<serde_yaml::Value>("[1,").unwrap_err().to_string();
    let error = convert(FileFormat::Json, FileFormat::Yaml, "[1,").unwrap_err();
    assert!(matches!(&error, ConvertError::ParseError(message) if *message == expected));
    assert_eq!(error.message(), expected);
    assert_eq!(expected, "EOF while parsing a value at line 1 column 3");
}

#[test]
fn yaml_and_toml_parse_errors_are_passed_on_unchanged() {
    let expected = serde_yaml::from_str::<serde_json::Value>("a: [1").unwrap_err().to_string();
    let error = convert(FileFormat::Yaml, FileFormat::Json, "a: [1").unwrap_err();
    assert_eq!(error.message(), expected);
    let expected = toml::from_str::<serde_json::Value>("x = ").unwrap_err().to_string();
    let error = convert(FileFormat::Toml, FileFormat::Json, "x = ").unwrap_err();
    assert_eq!(error.message(), expected);
    assert!(matches!(error, ConvertError::ParseError(_)));
}

#[test]
fn a_tree_without_a_toml_text_is_a_print_error() {
    let expected = toml::to_string(&toml::Value::Integer(1)).unwrap_err().to_string();
    match convert(FileFormat::Json, FileFormat::Toml, "1") {
        Err(ConvertError::PrintError(message)) => assert_eq!(message, expected),
        other => panic!("{:?}", other),
    }
    match convert(FileFormat::Yaml, FileFormat::Toml, "- 1\n- 2\n") {
        Err(ConvertError::PrintError(message)) => assert!(!message.is_empty()),
        other => panic!("{:?}", other),
    }
}

#[test]
fn trees_are_printed_by_their_own_printer() {
    let mut table = toml::Table::new();
    table.insert("x".to_string(), toml::Value::Integer(1));
    assert_eq!(toml_text(&toml::Value::Table(table)).unwrap(), "x = 1\n");
    let error = toml_text(&toml::Value::Boolean(true)).unwrap_err();
    assert!(matches!(error, ConvertError::PrintError(_)));

    let mut object = serde_json::Map::new();
    object.insert("x".to_string(), serde_json::Value::Bool(false));
    assert_eq!(json_text(&serde_json::Value::Object(object)).unwrap(), "{\"x\":false}");
    assert_eq!(json_text(&serde_json::Value::Null).unwrap(), "null");

    let list = serde_yaml::Value::Sequence(vec![serde_yaml::Value::Bool(true)]);
    assert_eq!(yaml_text(&list).unwrap(), "- true\n");
}

#[test]
fn nested_documents_convert() {
    let text = convert(
        FileFormat::Toml,
        FileFormat::Json,
        "title = \"t\"\n[owner]\nname = \"n\"\nports = [1, 2]\n",
    )
    .unwrap();
    assert_eq!(text, "{\"owner\":{\"name\":\"n\",\"ports\":[1,2]},\"title\":\"t\"}");
    let text = convert(FileFormat::Yaml, FileFormat::Toml, "owner:\n  name: n\n").unwrap();
    assert_eq!(text, "[owner]\nname = \"n\"\n");
}

#[test]
fn pairs_are_refused_in_order() {
    for a in FORMATS {
        for b in FORMATS {
            let result = accept_pair(a, b);
            if a == b {
                assert!(matches!(result, Err(ConvertError::IdenticalFormats)));
            } else if a == FileFormat::Unknown {
                assert!(matches!(result, Err(ConvertError::UnknownInputFormat)));
            } else if b == FileFormat::Unknown {
                assert!(matches!(result, Err(ConvertError::UnknownOutputFormat)));
            } else {
                assert!(result.is_ok());
            }
        }
    }
}

#[test]
fn prepare_refuses_equal_formats_first() {
    let result = prepare("a.json".to_string(), Some("b.json".to_string()), None);
    assert!(matches!(result, Err(ConvertError::IdenticalFormats)));
    let result = prepare("a.yaml".to_string(), Some("b.yml".to_string()), None);
    assert!(matches!(result, Err(ConvertError::IdenticalFormats)));
    let result = prepare("a.toml".to_string(), None, Some(FileFormat::Toml));
    assert!(matches!(result, Err(ConvertError::IdenticalFormats)));
    let result = prepare("a.txt".to_string(), Some("b.bin".to_string()), None);
    assert!(matches!(result, Err(ConvertError::IdenticalFormats)));
}

#[test]
fn prepare_refuses_unknown_formats() {
    let result = prepare("a.txt".to_string(), Some("b.json".to_string()), None);
    assert!(matches!(result, Err(ConvertError::UnknownInputFormat)));
    let result = prepare("a".to_string(), None, Some(FileFormat::Yaml));
    assert!(matches!(result, Err(ConvertError::UnknownInputFormat)));
    let result = prepare("a.json".to_string(), Some("b.txt".to_string()), None);
    assert!(matches!(result, Err(ConvertError::UnknownOutputFormat)));
    let result = prepare("a.json".to_string(), Some("b.json".to_string()), Some(FileFormat::Unknown));
    assert!(matches!(result, Err(ConvertError::UnknownOutputFormat)));
}

#[test]
fn explicit_format_overrides_the_output_path() {
    let (input, output) =
        prepare("a.json".to_string(), Some("b.json".to_string()), Some(FileFormat::Yaml)).unwrap();
    assert_eq!(output.path(), "b.json");
    assert_eq!(*output.format(), FileFormat::Yaml);
    assert_eq!(transcode(&input, &output, "[1]").unwrap(), "- 1\n");
}

#[test]
fn output_path_is_given_or_derived() {
    assert_eq!(output_path("a.json", Some("b".to_string()), None), "b");
    assert_eq!(output_path("a.json", Some("b".to_string()), Some(FileFormat::Toml)), "b");
    assert_eq!(output_path("a.json", None, Some(FileFormat::Json)), "a.json");
    assert_eq!(output_path("a.json", None, Some(FileFormat::Yaml)), "a.yml");
    assert_eq!(output_path("dir/a.b.json", None, Some(FileFormat::Toml)), "dir/a.b.toml");
    assert_eq!(output_path("a", None, Some(FileFormat::Unknown)), "a.txt");
}

#[test]
fn conclude_confirms_or_fails() {
    let input = Input::new("in.yml".to_string());
    let output = Output::new("dir/out.json".to_string(), None);
    assert_eq!(confirmation(&input, &output), "Wrote in.yml to dir/out.json");
    assert_eq!(conclude(&input, &output, true).unwrap(), "Wrote in.yml to dir/out.json");
    let error = conclude(&input, &output, false).unwrap_err();
    assert!(matches!(error, ConvertError::WriteError));
    assert_eq!(error.message(), "Failed to write file");
}

#[test]
fn fixed_messages() {
    assert_eq!(
        ConvertError::IdenticalFormats.message(),
        "Input format is the same as output format."
    );
    assert_eq!(ConvertError::UnknownOutputFormat.message(), "Output format is unknown");
    assert_eq!(ConvertError::UnknownInputFormat.message(), "Input format is unknown");
    assert_eq!(ConvertError::WriteError.message(), "Failed to write file");
    assert_eq!(ConvertError::ParseError("p".to_string()).message(), "p");
    assert_eq!(ConvertError::PrintError("q".to_string()).message(), "q");
}
