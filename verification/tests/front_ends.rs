use any2nix::api::{post_format, ConvertRequest, BAD_REQUEST};
use any2nix::cli::{diagnostic, input_file, input_source};
use any2nix::website::{asset_key, asset_response, NOT_FOUND, OK};
use any2nix::{ConvertError, Format};

#[test]
fn lib_errors_on_invalid_format() {
    let request = ConvertRequest {
        input: "[broken\nnonsense = \"".to_string(),
    };
    let response = post_format(Format::Ini, request);
    let error = match response {
        Err(e) => e,
        Ok(_) => panic!("invalid INI was converted"),
    };
    assert!(matches!(error.0, ConvertError::Ini(_)));
    let (status, _body) = error.into_response();
    assert_eq!(status, BAD_REQUEST);
    assert_eq!(status, 400);
}

#[test]
fn lib_converts_valid_format() {
    let request = ConvertRequest {
        input: "enable-mouse = no\n[dmenu]\nmode = index".to_string(),
    };
    let response = match post_format(Format::Ini, request) {
        Ok(r) => r,
        Err(_) => panic!("valid INI was refused"),
    };
    let expected = r#"{
  dmenu = {
    mode = "index";
  };
  enable-mouse = "no";
}"#;

    assert_eq!(response.nix, expected);
}

#[test]
fn input_comes_from_a_file_unless_dash() {
    assert_eq!(input_file(Some("config.toml")), Some("config.toml"));
    assert_eq!(input_file(Some("-")), None);
    assert_eq!(input_file(None), None);
    assert_eq!(input_source(Some("config.toml")), "config.toml");
    assert_eq!(input_source(None), "-");
}

#[test]
fn diagnostics_name_the_file() {
    assert_eq!(diagnostic("any2nix", "-", "bad input"), "any2nix: bad input");
    assert_eq!(diagnostic("any2nix", "a.ini", "bad input"), "any2nix: a.ini: bad input");
}

#[test]
fn asset_keys_lose_leading_slashes() {
    assert_eq!(asset_key("/css/index.css"), "css/index.css");
    assert_eq!(asset_key("//js/index.js"), "js/index.js");
    assert_eq!(asset_key("bogus"), "bogus");
    assert_eq!(asset_key("/"), "");
}

#[test]
fn assets_are_answered_with_their_media_type() {
    let found = asset_response("css/index.css", Some(vec![1, 2, 3]));
    assert_eq!(found.status, OK);
    assert_eq!(found.content_type.as_deref(), Some("text/css"));
    assert_eq!(found.body, vec![1, 2, 3]);
    let unknown = asset_response("data.unknownext", Some(vec![]));
    assert_eq!(unknown.content_type.as_deref(), Some("application/octet-stream"));
    let missing = asset_response("bogus", None);
    assert_eq!(missing.status, NOT_FOUND);
    assert!(missing.content_type.is_none());
    assert!(missing.body.is_empty());
}

use any2nix::page::{style_scheme_id, FormatPage, Screen};

#[test]
fn page_submits_and_shows_the_result() {
    let mut page = FormatPage::new(Format::Json);
    assert_eq!(page.screen, Screen::Input);
    page.edit("{\"a\": 1}".to_string());
    page.submit();
    assert_eq!(page.screen, Screen::Result);
    assert_eq!(page.result, "{\n  a = 1;\n}");
    assert!(!page.error_shown);
    page.another_one();
    assert_eq!(page.screen, Screen::Input);
    assert_eq!(page.input, "");
    assert_eq!(page.result, "{\n  a = 1;\n}");
}

#[test]
fn page_shows_errors_until_the_text_changes() {
    let mut page = FormatPage::new(Format::Json);
    page.edit("{".to_string());
    page.submit();
    assert_eq!(page.screen, Screen::Input);
    assert!(page.error_shown);
    assert_eq!(page.error, any2nix::json_to_nix("{").unwrap_err().to_string());
    page.edit("{}".to_string());
    assert!(!page.error_shown);
}

#[test]
fn page_attaches_files_or_reports_why_not() {
    let mut page = FormatPage::new(Format::Toml);
    page.attach(Err("invalid utf-8 sequence".to_string()));
    assert!(page.error_shown);
    assert_eq!(page.error, "invalid utf-8 sequence");
    assert_eq!(page.input, "");
    page.attach(Ok("a = 1".to_string()));
    assert!(!page.error_shown);
    assert_eq!(page.input, "a = 1");
}

#[test]
fn another_one_keeps_an_error_of_an_empty_editor() {
    let mut page = FormatPage::new(Format::Yaml);
    page.attach(Err("not found".to_string()));
    page.another_one();
    assert!(page.error_shown);
}

#[test]
fn api_errors_carry_the_message() {
    let request = ConvertRequest { input: "{".to_string() };
    let error = match post_format(Format::Json, request) {
        Err(e) => e,
        Ok(_) => panic!("invalid JSON was converted"),
    };
    let (status, body) = error.into_response();
    assert_eq!(status, 400);
    assert_eq!(body.error, any2nix::json_to_nix("{").unwrap_err().to_string());
}

#[test]
fn editors_follow_the_desktop_theme() {
    assert_eq!(style_scheme_id(true), "Adwaita-dark");
    assert_eq!(style_scheme_id(false), "Adwaita");
}

#[test]
fn page_reaches_results_only_by_successful_submits() {
    let mut page = FormatPage::new(Format::Ini);
    page.edit("[broken".to_string());
    page.submit();
    assert_eq!(page.screen, Screen::Input);
    page.edit("a = 1".to_string());
    page.submit();
    assert_eq!(page.screen, Screen::Result);
    page.attach(Ok("b = 2".to_string()));
    assert_eq!(page.screen, Screen::Result);
    page.another_one();
    assert_eq!(page.screen, Screen::Input);
    assert_eq!(page.input, "");
}
