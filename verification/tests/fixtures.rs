//! Paths, URIs, JSON values, and what the scenarios are made of.

use lsp_configuration::answers::{
    empty_hover, empty_report, hover, location, nowhere, position, range, report,
};
use lsp_configuration::configuration::unscoped;
use lsp_configuration::fixtures::{
    bar_hover, bar_location, get_diagnostics_result, setup_dummy_interpreter, type_error,
};
use lsp_configuration::json::Json;
use lsp_configuration::path::{document_uri, file_uri, join};
use lsp_configuration::payloads::{
    answer, display, folder_added, hover_off, nothing, pylance, python_path, services_off,
};
use lsp_configuration::scenarios::{did_change_workspace_folder, pythonpath_change, Sample};
use lsp_configuration::script::Step;
use serde_json::Value;

fn from_value(value: &Value) -> Json {
    match value {
        Value::Null => Json::Null,
        Value::Bool(b) => Json::Bool(*b),
        Value::Number(n) => Json::Number(n.as_i64().unwrap()),
        Value::String(s) => Json::Text(s.clone()),
        Value::Array(items) => Json::Array(items.iter().map(from_value).collect()),
        Value::Object(members) => Json::Object(
            members.iter().map(|(key, value)| (key.clone(), from_value(value))).collect(),
        ),
    }
}

fn json(text: &str) -> Json {
    from_value(&serde_json::from_str(text).unwrap())
}

fn assert_json(value: &Json, text: &str) {
    assert!(value.same(&json(text)), "{:?} is not {}", value, text);
}

#[test]
fn relative_paths_are_seen_from_the_base() {
    assert_eq!(join("/a", "b/c"), "/a/b/c");
    assert_eq!(join("/a/", "b"), "/a/b");
    assert_eq!(join("", "b"), "b");
    assert_eq!(join("/a", ""), "/a/");
    assert_eq!(join("a", "b"), "a/b");
}

#[test]
fn absolute_paths_stand_for_themselves() {
    assert_eq!(join("/a", "/b"), "/b");
    assert_eq!(join("", "/b"), "/b");
}

#[test]
fn joining_goes_as_the_paths_of_std_do() {
    let pieces = ["", "/", "a", "/a", "a/", "/a/b", "a/b/"];
    for base in pieces {
        for rest in pieces {
            let expected = std::path::Path::new(base).join(rest);
            assert_eq!(join(base, rest), expected.to_str().unwrap());
            for last in pieces {
                assert_eq!(join(&join(base, rest), last), join(base, &join(rest, last)));
            }
        }
    }
}

#[test]
fn plain_absolute_paths_are_behind_file() {
    assert_eq!(file_uri("/home/user/a-b_c.py").as_deref(), Some("file:///home/user/a-b_c.py"));
    assert_eq!(document_uri("/home/user", "foo.py").as_deref(), Some("file:///home/user/foo.py"));
    assert_eq!(document_uri("/home", "/foo.py").as_deref(), Some("file:///foo.py"));
}

#[test]
fn components_may_start_with_a_dot() {
    assert_eq!(file_uri("/tmp/.tmpA").as_deref(), Some("file:///tmp/.tmpA"));
    assert_eq!(file_uri("/tmp/..a/.b.").as_deref(), Some("file:///tmp/..a/.b."));
    assert_eq!(file_uri("/tmp/../a").as_deref(), Some("file:///tmp/../a"));
    assert_eq!(file_uri("/tmp/./a//b/.").as_deref(), Some("file:///tmp/a/b"));
    let sample = Sample::at("/tmp/.tmpA").unwrap();
    assert_eq!(sample.root_uri, "file:///tmp/.tmpA");
    assert_eq!(sample.bar_uri, "file:///tmp/.tmpA/basic/bar.py");
}

#[test]
fn characters_that_print_stand_for_themselves_but_for_ten() {
    for byte in b'!'..=b'~' {
        let path = format!("/a{}b", byte as char);
        let escaped = "\"#%<>?\\`{}".contains(byte as char);
        let uri = file_uri(&path).unwrap();
        assert_eq!(uri != "file://".to_owned() + &path, escaped, "{}", path);
    }
}

#[test]
fn other_absolute_paths_have_a_uri_too() {
    assert_eq!(file_uri("/").as_deref(), Some("file:///"));
    assert_eq!(file_uri("/with space").as_deref(), Some("file:///with%20space"));
}

#[test]
fn relative_paths_have_no_uri() {
    assert_eq!(file_uri("home/user"), None);
    assert_eq!(file_uri(""), None);
    assert_eq!(document_uri("home", "foo.py"), None);
}

#[test]
fn dummy_interpreter_sits_in_bin() {
    let interpreter = setup_dummy_interpreter("/work/custom_interpreter");
    assert_eq!(interpreter.path, "/work/custom_interpreter/bin/python");
}

#[test]
fn dummy_interpreter_reports_its_site_packages() {
    let interpreter = setup_dummy_interpreter("/work/custom_interpreter");
    let expected = [
        r##"#!/usr/bin/env bash"##,
        r##"if [[ "$1" == "-c" && "$2" == *"import json, sys"* ]]; then"##,
        r##"    cat << 'EOF'"##,
        concat_environment("/work/custom_interpreter/bin/site-packages").as_str(),
        r##"EOF"##,
        r##"else"##,
        r##"    echo "Mock python interpreter - args: $@" >&2"##,
        r##"    exit 1"##,
        r##"fi"##,
        r##""##,
    ]
    .join("\n");
    assert_eq!(interpreter.script, expected);
}

fn concat_environment(site_packages: &str) -> String {
    r#"{"python_platform": "linux", "python_version": "3.12.0", "site_package_path": [""#
        .to_owned()
        + site_packages
        + r#""]}"#
}

#[test]
fn dummy_interpreters_of_two_places_are_two() {
    let one = setup_dummy_interpreter("/work/custom_interpreter");
    let other = setup_dummy_interpreter("/work/bad_interpreter_bin");
    assert_ne!(one.path, other.path);
    assert_ne!(one.script, other.script);
    let nested = setup_dummy_interpreter("/work/custom_interpreter//");
    assert_ne!(one.path, nested.path);
    assert_ne!(one.script, nested.script);
}

#[test]
fn dummy_interpreter_reports_the_folder_of_the_sample_module() {
    for folder in ["custom_interpreter", "custom_interpreter_config"] {
        let interpreter = setup_dummy_interpreter(&join("/work/files", folder));
        let packages = join("/work/files", &join(folder, "bin/site-packages"));
        assert!(interpreter.script.contains(&concat_environment(&packages)));
        assert_eq!(
            join(&packages, "custom_module.py"),
            format!("/work/files/{}/bin/site-packages/custom_module.py", folder),
        );
    }
}

#[test]
fn a_separator_behind_a_folder_makes_no_other_interpreter() {
    let one = setup_dummy_interpreter("/work/custom_interpreter");
    let same = setup_dummy_interpreter("/work/custom_interpreter/");
    assert_eq!(one.path, same.path);
    assert_eq!(one.script, same.script);
}

const DIAGNOSTIC: &str = r#"{
    "code": "unsupported-operation",
    "codeDescription": {
        "href": "https://pyrefly.org/en/docs/error-kinds/#unsupported-operation"
    },
    "message": "`+` is not supported between `Literal[1]` and `Literal['']`\n  Argument `Literal['']` is not assignable to parameter `value` with type `int` in function `int.__add__`",
    "range": {
        "end": {"character": 6, "line": 5},
        "start": {"character": 0, "line": 5}
    },
    "severity": 1,
    "source": "Pyrefly"
}"#;

#[test]
fn the_diagnostics_result_holds_the_type_error() {
    assert_json(&type_error(), DIAGNOSTIC);
    let expected = r#"{"items": ["#.to_owned() + DIAGNOSTIC + r#"], "kind": "full"}"#;
    assert_json(&get_diagnostics_result(), &expected);
    assert!(!get_diagnostics_result().same(&empty_report()));
}

#[test]
fn answers_have_the_form_of_the_protocol() {
    assert_json(&position(6, 16), r#"{"line": 6, "character": 16}"#);
    assert_json(
        &range(1, 2, 3, 4),
        r#"{"start": {"line": 1, "character": 2}, "end": {"line": 3, "character": 4}}"#,
    );
    assert_json(
        &location("file:///a", 1, 2, 3, 4),
        r#"{"uri": "file:///a", "range":
            {"start": {"line": 1, "character": 2}, "end": {"line": 3, "character": 4}}}"#,
    );
    assert_json(&nowhere(), "[]");
    assert_json(&hover("x"), r#"{"contents": {"kind": "markdown", "value": "x"}}"#);
    assert_json(&empty_hover(), r#"{"contents": []}"#);
    assert_json(&empty_report(), r#"{"items": [], "kind": "full"}"#);
    assert_json(&report(vec![Json::Null]), r#"{"items": [null], "kind": "full"}"#);
    assert_json(
        &bar_location("file:///bar.py"),
        r#"{"uri": "file:///bar.py", "range":
            {"start": {"line": 6, "character": 6}, "end": {"line": 6, "character": 9}}}"#,
    );
    assert_json(
        &bar_hover("file:///bar.py"),
        r##"{"contents": {"kind": "markdown", "value":
            "```python\n(class) Bar: type[Bar]\n```\n\nGo to [Bar](file:///bar.py#L7,7)"}}"##,
    );
}

#[test]
fn payloads_have_the_form_of_the_client() {
    assert_json(&nothing(), "[{}]");
    assert_json(&answer(Json::Bool(true)), "[true]");
    assert_json(&display("force-on"), r#"[{"pyrefly": {"displayTypeErrors": "force-on"}}]"#);
    assert_json(&services_off(), r#"[{"pyrefly": {"disableLanguageServices": true}}]"#);
    assert_json(
        &hover_off(),
        r#"[{"pyrefly": {"disabledLanguageServices": {"hover": true}}}]"#,
    );
    assert_json(&python_path("/bin/python"), r#"[{"pythonPath": "/bin/python"}]"#);
    assert_json(
        &pylance("force-off"),
        r#"[{
            "pyrefly": {"displayTypeErrors": "force-off"},
            "analysis": {
                "diagnosticMode": "workspace",
                "importFormat": "relative",
                "inlayHints": {
                    "callArgumentNames": "on",
                    "functionReturnTypes": true,
                    "pytestParameters": true,
                    "variableTypes": true
                }
            }
        }]"#,
    );
    assert_json(
        &folder_added("test", "file:///a"),
        r#"{"event": {"added": [{"uri": "file:///a", "name": "test"}], "removed": []}}"#,
    );
    assert_json(&unscoped(), r#"{"items": [{"section": "python"}]}"#);
}

#[test]
fn objects_are_the_same_in_any_order() {
    let one = json(r#"{"a": 1, "b": [true, null]}"#);
    let other = Json::object().with("b", json("[true, null]")).with("a", Json::Number(1));
    assert!(one.same(&other));
    assert!(other.same(&one));
    assert!(!one.same(&json(r#"{"a": 1}"#)));
    assert!(!json(r#"{"a": 1}"#).same(&one));
    assert!(!one.same(&json(r#"{"a": 1, "b": [null, true]}"#)));
    assert!(!one.same(&json(r#"{"a": 1, "c": [true, null]}"#)));
}

#[test]
fn values_of_two_kinds_differ() {
    let values =
        [json("null"), json("false"), json("0"), json(r#""""#), json("[]"), json("{}")];
    for (i, one) in values.iter().enumerate() {
        for (j, other) in values.iter().enumerate() {
            assert_eq!(one.same(other), i == j);
        }
    }
}

#[test]
fn the_last_member_of_a_name_counts() {
    let twice = Json::Object(vec![
        ("a".to_owned(), Json::Number(1)),
        ("a".to_owned(), Json::Number(2)),
    ]);
    assert!(twice.get("a").unwrap().same(&Json::Number(2)));
    assert!(twice.same(&json(r#"{"a": 2}"#)));
    assert!(json(r#"{"a": 2}"#).same(&twice));
    assert!(!twice.same(&json(r#"{"a": 1}"#)));
    assert!(json(r#"{"a": 1}"#).with("a", Json::Number(2)).same(&twice));
}

#[test]
fn members_are_read_by_their_kind() {
    let value = json(r#"{"text": "x", "flag": true, "items": [1, 2]}"#);
    assert_eq!(value.text_at("text").map(String::as_str), Some("x"));
    assert_eq!(value.text_at("flag"), None);
    assert_eq!(value.flag_at("flag"), Some(true));
    assert_eq!(value.flag_at("text"), None);
    assert!(value.get("absent").is_none());
    assert_eq!(value.len(), 0);
    assert_eq!(value.get("items").unwrap().len(), 2);
    assert!(value.get("items").unwrap().item(1).same(&Json::Number(2)));
    assert!(Json::Null.get("text").is_none());
}

#[test]
fn sample_files_lie_at_an_absolute_path() {
    let sample = Sample::at("/work/files").unwrap();
    assert_eq!(sample.root, "/work/files");
    assert_eq!(sample.root_uri, "file:///work/files");
    assert_eq!(sample.basic_uri, "file:///work/files/basic");
    assert_eq!(sample.bar_uri, "file:///work/files/basic/bar.py");
    assert_eq!(sample.disabled_uri, "file:///work/files/disable_type_error_in_config");
    assert!(Sample::at("work/files").is_none());
    assert!(Sample::at("").is_none());
}

#[test]
fn scenarios_name_the_methods_of_the_protocol() {
    let sample = Sample::at("/work/files").unwrap();
    let notified = did_change_workspace_folder(&sample).steps.into_iter().any(|step| {
        matches!(step, Step::SendNotification { method, .. }
            if method == "workspace/didChangeWorkspaceFolders")
    });
    assert!(notified);
    let asked = pythonpath_change(&sample).steps.into_iter().any(|step| {
        matches!(step, Step::ExpectRequest { method, .. } if method == "workspace/configuration")
    });
    assert!(asked);
}
