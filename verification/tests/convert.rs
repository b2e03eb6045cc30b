use any2nix::{ini_to_nix, json_to_nix, toml_to_nix, yaml_to_nix, ConvertError, Format, IniError};

#[test]
fn converts_valid_ini() {
    let ini = "
enable-mouse = no
[dmenu]
mode = index
";
    let nix = ini_to_nix(ini);
    let expected = r#"{
  dmenu = {
    mode = "index";
  };
  enable-mouse = "no";
}"#;

    assert_eq!(nix.unwrap(), expected)
}

#[test]
fn errors_on_invalid_ini() {
    let ini = r#"[broken
nonsense = "
"#;
    let nix = ini_to_nix(ini);

    assert!(matches!(nix, Err(ConvertError::Ini(_))))
}

#[test]
fn converts_valid_json() {
    let json = r#"{
    "name": "forgejo"
}"#;
    let nix = json_to_nix(json);
    let expected = r#"{
  name = "forgejo";
}"#;

    assert_eq!(nix.unwrap(), expected)
}

#[test]
fn errors_on_invalid_json() {
    let json = r#"{
    "unclosed": "
}"#;
    let nix = json_to_nix(json);

    assert!(matches!(nix, Err(ConvertError::Json(_))))
}

#[test]
fn converts_valid_toml() {
    let toml = r#"
[package]
name = "any2nix"
"#;
    let nix = toml_to_nix(toml);
    let expected = r#"{
  package = {
    name = "any2nix";
  };
}"#;

    assert_eq!(nix.unwrap(), expected)
}

#[test]
fn errors_on_invalid_toml() {
    let toml = "[broken
doesnt_work = foo";
    let nix = toml_to_nix(toml);

    assert!(matches!(nix, Err(ConvertError::Toml(_))))
}

#[test]
fn converts_valid_yaml() {
    let yaml = "countries:
  - BR
  - NO";
    let nix = yaml_to_nix(yaml);
    let expected = r#"{
  countries = [
    "BR"
    "NO"
  ];
}"#;

    assert_eq!(nix.unwrap(), expected)
}

#[test]
fn errors_on_invalid_yaml() {
    let yaml = "[unclosed, sequence";
    let nix = yaml_to_nix(yaml);

    assert!(matches!(nix, Err(ConvertError::Yaml(_))))
}

#[test]
fn to_nix_dispatches_on_the_format() {
    let json = "{\"a\": 1}";
    assert_eq!(Format::Json.to_nix(json).unwrap(), json_to_nix(json).unwrap());
    assert_eq!(Format::Json.to_nix(json).unwrap(), "{\n  a = 1;\n}");
    assert_eq!(Format::Toml.to_nix("a = 1").unwrap(), "{\n  a = 1;\n}");
    assert_eq!(Format::Yaml.to_nix("a: 1").unwrap(), "{\n  a = 1;\n}");
    assert_eq!(Format::Ini.to_nix("a = 1").unwrap(), "{\n  a = \"1\";\n}");
    assert!(matches!(Format::Toml.to_nix(json), Err(ConvertError::Toml(_))));
    assert!(matches!(Format::Json.to_nix("a = 1"), Err(ConvertError::Json(_))));
}

#[test]
fn formats_are_listed_once_in_order() {
    assert_eq!(Format::iter(), vec![Format::Ini, Format::Json, Format::Toml, Format::Yaml]);
}

#[test]
fn formats_have_display_names() {
    assert_eq!(Format::Ini.to_string(), "INI");
    assert_eq!(Format::Json.to_string(), "JSON");
    assert_eq!(Format::Toml.to_string(), "TOML");
    assert_eq!(Format::Yaml.to_string(), "YAML");
}

#[test]
fn ini_messages_lose_the_syntax_prefix() {
    assert_eq!(IniError::Custom("INI syntax error: oops".to_string()).to_string(), "oops");
    assert_eq!(IniError::Custom("no prefix here".to_string()).to_string(), "no prefix here");
    assert_eq!(IniError::UnexpectedEof.to_string(), "unexpected end of file");
    assert_eq!(IniError::InvalidState.to_string(), "invalid state");
    assert_eq!(
        ConvertError::Ini(IniError::Custom("INI syntax error: x".to_string())).to_string(),
        "x"
    );
}

#[test]
fn error_messages_come_from_the_readers() {
    let toml_message = toml_to_nix("[broken").unwrap_err().to_string();
    assert!(!toml_message.is_empty());
    let json_message = json_to_nix("{").unwrap_err().to_string();
    assert!(json_message.contains("EOF"));
    let ini_message = ini_to_nix("[broken\nnonsense = \"\n").unwrap_err().to_string();
    assert!(!ini_message.starts_with("INI syntax error: "));
}

#[test]
fn documented_ini_example() {
    let some_ini = "[Actor]
bUseNavMeshForMovement=1
fNotVisibleNavmeshMoveDist=2048.0000";
    let nix = ini_to_nix(some_ini).unwrap();
    assert_eq!(nix, "{\n  Actor = {\n    bUseNavMeshForMovement = \"1\";\n    fNotVisibleNavmeshMoveDist = \"2048.0000\";\n  };\n}");
}

#[test]
fn documented_json_example() {
    let some_json = r#"
{
    "name": "any2nix",
    "version": "0.1.0"
}"#;
    let nix = json_to_nix(some_json).unwrap();
    assert_eq!(nix, "{\n  name = \"any2nix\";\n  version = \"0.1.0\";\n}");
}

#[test]
fn documented_toml_example() {
    let some_toml = r#"
[package]
name = "any2nix"
"#;
    let nix = Format::Toml.to_nix(some_toml).unwrap();
    assert_eq!(nix, "{\n  package = {\n    name = \"any2nix\";\n  };\n}");
}

#[test]
fn documented_yaml_example() {
    let some_yaml = r#"
services:
  db:
    image: postgres:16-alpine
    ports:
      - "5432:5432"
    restart: always
"#;
    let nix = yaml_to_nix(some_yaml).unwrap();
    assert_eq!(nix, "{\n  services = {\n    db = {\n      image = \"postgres:16-alpine\";\n      ports = [\n        \"5432:5432\"\n      ];\n      restart = \"always\";\n    };\n  };\n}");
}

#[test]
fn error_messages_are_the_readers_own() {
    let json_reader = serde_json::from_str::<serde_json::Value>("{").unwrap_err().to_string();
    assert_eq!(json_to_nix("{").unwrap_err().to_string(), json_reader);
    let toml_reader = toml::from_str::<toml::Value>("[broken").unwrap_err();
    assert_eq!(toml_to_nix("[broken").unwrap_err().to_string(), toml_reader.message());
    let yaml_reader = yaml_serde::from_str::<yaml_serde::Value>("[a, b").unwrap_err().to_string();
    assert_eq!(yaml_to_nix("[a, b").unwrap_err().to_string(), yaml_reader);
}

#[test]
fn to_nix_errs_as_the_format_function() {
    let bad = "{\"a\": }";
    assert_eq!(
        Format::Json.to_nix(bad).unwrap_err().to_string(),
        json_to_nix(bad).unwrap_err().to_string()
    );
    let bad_ini = "[broken\nnonsense = \"\n";
    match (Format::Ini.to_nix(bad_ini), ini_to_nix(bad_ini)) {
        (Err(ConvertError::Ini(a)), Err(ConvertError::Ini(b))) => assert_eq!(a, b),
        _ => panic!("both INI conversions must fail with an INI error"),
    }
}

#[test]
fn formats_have_editor_languages() {
    assert_eq!(Format::Ini.language_id(), "ini");
    assert_eq!(Format::Json.language_id(), "json");
    assert_eq!(Format::Toml.language_id(), "toml");
    assert_eq!(Format::Yaml.language_id(), "yaml");
    for f in Format::iter() {
        assert_eq!(f.language_id(), f.to_string().to_lowercase());
    }
}

#[test]
fn reader_errors_convert_into_their_variant() {
    let json_error = serde_json::from_str::<serde_json::Value>("{").unwrap_err();
    assert!(matches!(ConvertError::from(json_error), ConvertError::Json(_)));
    let toml_error = toml::from_str::<toml::Value>("[broken").unwrap_err();
    assert!(matches!(ConvertError::from(toml_error), ConvertError::Toml(_)));
    let yaml_error = yaml_serde::from_str::<yaml_serde::Value>("[a").unwrap_err();
    assert!(matches!(ConvertError::from(yaml_error), ConvertError::Yaml(_)));
    let ini_error = serde_ini::de::Error::UnexpectedEof;
    assert!(matches!(ConvertError::from(ini_error), ConvertError::Ini(IniError::UnexpectedEof)));
}
