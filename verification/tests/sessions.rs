//! What a session decides, on values that the scenarios leave out.

use lsp_configuration::json::Json;
use lsp_configuration::session::{InitializeSettings, Session};
use lsp_configuration::settings::{DisplayTypeErrors, Project, Settings};
use lsp_configuration::workspace::{governing_folder, is_within, Folder};
use serde_json::Value;

fn from_value(value: &Value) -> Json {
    match value {
        Value::Null => Json::Null,
        Value::Bool(b) => Json::Bool(*b),
        Value::Number(n) => Json::Number(n.as_i64().unwrap()),
        Value::String(s) => Json::Text(s.clone()),
        Value::Array(items) => Json::Array(items.iter().map(from_value).collect()),
        Value::Object(members) => Json::Object(
            members.iter().map(|(key, value)| (key.clone(), from_value(value))).collect(),
        ),
    }
}

fn json(text: &str) -> Json {
    from_value(&serde_json::from_str(text).unwrap())
}

fn project(has_config: bool, type_errors_disabled: bool, included: bool) -> Project {
    Project { has_config, type_errors_disabled, included, interpreter: None }
}

/// A client with configuration and these folders, which answers the first request with nothing.
fn begin(folders: &[&str]) -> Session {
    Session::initialize(InitializeSettings {
        workspace_folders: Some(
            folders.iter().map(|uri| ("folder".to_owned(), uri.to_string())).collect(),
        ),
        configuration: Some(None),
    })
}

/// The client's configuration changes to `result`.
fn configure(session: &mut Session, result: &str) {
    let request = session.did_change_configuration().unwrap();
    assert!(session.send_configuration_response(request.id, &json(result)));
}

fn shown(session: &Session, uri: &str) -> usize {
    session.publish_diagnostics(uri, vec![Json::Number(1), Json::Number(2)]).len()
}

const FILE: &str = "file:///a/foo.py";

#[test]
fn default_display_goes_by_the_project() {
    for has_config in [false, true] {
        for disabled in [false, true] {
            for included in [false, true] {
                let mut session = begin(&[]);
                session.did_open(FILE, project(has_config, disabled, included));
                let expected = if has_config && !disabled && included { 2 } else { 0 };
                assert_eq!(shown(&session, FILE), expected);
            }
        }
    }
}

#[test]
fn forced_display_does_not() {
    for has_config in [false, true] {
        for disabled in [false, true] {
            for included in [false, true] {
                let mut session = begin(&[]);
                session.did_open(FILE, project(has_config, disabled, included));
                configure(&mut session, r#"[{"pyrefly": {"displayTypeErrors": "force-on"}}]"#);
                assert_eq!(shown(&session, FILE), if included { 2 } else { 0 });
                configure(&mut session, r#"[{"pyrefly": {"displayTypeErrors": "force-off"}}]"#);
                assert_eq!(shown(&session, FILE), 0);
            }
        }
    }
}

#[test]
fn settings_in_no_known_form_stay() {
    let settings = Settings::initial()
        .configured(&json(r#"{"pyrefly": {"displayTypeErrors": "force-on"}}"#));
    assert_eq!(settings.display_type_errors, DisplayTypeErrors::ForceOn);
    for item in [
        r#"{"pyrefly": {"displayTypeErrors": "sometimes"}}"#,
        r#"{"pyrefly": {"displayTypeErrors": true}}"#,
        r#"{"pyrefly": "force-off"}"#,
        r#"{"displayTypeErrors": "force-off"}"#,
        r#"{"analysis": {"displayTypeErrors": "force-off"}}"#,
        "{}",
        "null",
    ] {
        let after = settings.configured(&json(item));
        assert_eq!(after.display_type_errors, DisplayTypeErrors::ForceOn);
        assert!(after.serves_hover());
        assert!(after.serves_definition());
        assert_eq!(after.python_path, None);
    }
}

#[test]
fn settings_are_read_one_by_one() {
    let settings = Settings::initial().configured(&json(
        r#"{
            "pythonPath": "/bin/python",
            "pyrefly": {
                "displayTypeErrors": 7,
                "disabledLanguageServices": {"definition": true, "hover": "yes"}
            }
        }"#,
    ));
    assert_eq!(settings.python_path.as_deref(), Some("/bin/python"));
    assert_eq!(settings.display_type_errors, DisplayTypeErrors::Default);
    assert!(!settings.serves_definition());
    assert!(settings.serves_hover());
}

#[test]
fn language_services_come_back() {
    let mut session = begin(&[]);
    configure(&mut session, r#"[{"pyrefly": {"disableLanguageServices": true}}]"#);
    assert!(session.definition(FILE, Json::Null).result.same(&json("[]")));
    assert!(session.hover(FILE, Json::Null).result.same(&json(r#"{"contents": []}"#)));
    configure(&mut session, r#"[{"pyrefly": {"disableLanguageServices": false}}]"#);
    assert!(session.definition(FILE, Json::Null).result.same(&Json::Null));
    assert!(session.hover(FILE, Json::Null).result.same(&Json::Null));
}

#[test]
fn disabling_services_hides_no_type_error() {
    let mut session = begin(&[]);
    session.did_open(FILE, project(true, false, true));
    configure(&mut session, r#"[{"pyrefly": {"disableLanguageServices": true}}]"#);
    assert_eq!(shown(&session, FILE), 2);
}

#[test]
fn a_folder_reaches_what_is_below_it() {
    assert!(is_within("file:///a", "file:///a"));
    assert!(is_within("file:///a", "file:///a/b"));
    assert!(is_within("file:///a/", "file:///a/b"));
    assert!(!is_within("file:///a", "file:///ab"));
    assert!(!is_within("file:///a/b", "file:///a"));
    assert!(!is_within("file:///a/", "file:///a"));
}

#[test]
fn the_innermost_folder_governs() {
    let folders: Vec<Folder> = ["file:///a", "file:///a/b", "file:///c"]
        .iter()
        .map(|uri| Folder {
            name: String::new(),
            uri: uri.to_string(),
            settings: Settings::initial(),
        })
        .collect();
    assert_eq!(governing_folder(&folders, "file:///a/foo.py"), Some(0));
    assert_eq!(governing_folder(&folders, "file:///a/b/foo.py"), Some(1));
    assert_eq!(governing_folder(&folders, "file:///c"), Some(2));
    assert_eq!(governing_folder(&folders, "file:///d/foo.py"), None);
}

#[test]
fn each_folder_takes_the_item_in_its_place() {
    let mut session = begin(&["file:///a", "file:///a/b"]);
    configure(
        &mut session,
        r#"[{"pythonPath": "/one"}, {"pythonPath": "/two"}, {"pythonPath": "/three"}]"#,
    );
    assert_eq!(session.interpreter("file:///a/foo.py").as_deref(), Some("/one"));
    assert_eq!(session.interpreter("file:///a/b/foo.py").as_deref(), Some("/two"));
    assert_eq!(session.interpreter("file:///foo.py"), None);
    assert_eq!(session.settings_at("file:///a").python_path.as_deref(), Some("/one"));
}

#[test]
fn a_short_answer_leaves_the_other_folders() {
    let mut session = begin(&["file:///a", "file:///b"]);
    configure(&mut session, r#"[{"pythonPath": "/one"}]"#);
    assert_eq!(session.interpreter("file:///a/foo.py").as_deref(), Some("/one"));
    assert_eq!(session.interpreter("file:///b/foo.py"), None);
    configure(&mut session, "null");
    assert_eq!(session.interpreter("file:///a/foo.py").as_deref(), Some("/one"));
}

#[test]
fn the_interpreter_of_a_project_stays() {
    let mut session = begin(&[]);
    session.did_open(
        FILE,
        Project { interpreter: Some("/own".to_owned()), ..project(true, false, true) },
    );
    assert_eq!(session.interpreter(FILE).as_deref(), Some("/own"));
    configure(&mut session, r#"[{"pythonPath": "/other"}]"#);
    assert_eq!(session.interpreter(FILE).as_deref(), Some("/own"));
    assert_eq!(session.interpreter("file:///a/bar.py").as_deref(), Some("/other"));
}

#[test]
fn the_first_answer_counts() {
    let mut session = Session::initialize(InitializeSettings {
        workspace_folders: None,
        configuration: Some(Some(json(r#"[{"pythonPath": "/first"}]"#))),
    });
    assert_eq!(session.interpreter(FILE).as_deref(), Some("/first"));
    assert_eq!(session.did_change_configuration().unwrap().id, 2);
}

#[test]
fn a_client_without_configuration_is_not_asked() {
    let mut session =
        Session::initialize(InitializeSettings { workspace_folders: None, configuration: None });
    assert!(session.did_change_configuration().is_none());
    assert!(!session.send_configuration_response(1, &json("[{}]")));
    let change =
        json(r#"{"event": {"added": [{"uri": "file:///a", "name": "a"}], "removed": []}}"#);
    assert!(session.did_change_workspace_folders(&change).is_none());
}

#[test]
fn an_answer_that_nothing_waits_for_changes_nothing() {
    let mut session = begin(&[]);
    assert!(!session.send_configuration_response(2, &json(r#"[{"pythonPath": "/early"}]"#)));
    assert_eq!(session.interpreter(FILE), None);
    let request = session.did_change_configuration().unwrap();
    assert!(session.send_configuration_response(request.id, &json(r#"[{"pythonPath": "/1"}]"#)));
    assert!(!session.send_configuration_response(request.id, &json(r#"[{"pythonPath": "/2"}]"#)));
    assert_eq!(session.interpreter(FILE).as_deref(), Some("/1"));
}

#[test]
fn requests_may_be_answered_in_any_order() {
    let mut session = begin(&[]);
    assert_eq!(session.did_change_configuration().unwrap().id, 2);
    assert_eq!(session.did_change_configuration().unwrap().id, 3);
    assert!(session.send_configuration_response(3, &json(r#"[{"pythonPath": "/3"}]"#)));
    assert!(session.send_configuration_response(2, &json(r#"[{"pythonPath": "/2"}]"#)));
    assert_eq!(session.interpreter(FILE).as_deref(), Some("/2"));
}

#[test]
fn a_request_names_every_folder_in_order() {
    let mut session = begin(&["file:///b", "file:///a", "file:///b"]);
    let request = session.did_change_configuration().unwrap();
    assert_eq!(request.scopes, ["file:///b", "file:///a"]);
    assert_eq!(request.method(), "workspace/configuration");
    assert!(request.params().same(&json(
        r#"{"items": [
            {"scopeUri": "file:///b", "section": "python"},
            {"scopeUri": "file:///a", "section": "python"}
        ]}"#
    )));
}

#[test]
fn folders_come_and_go() {
    let mut session = begin(&["file:///a"]);
    configure(&mut session, r#"[{"pythonPath": "/one"}]"#);
    let added = session
        .did_change_workspace_folders(&json(
            r#"{"event": {
                "added": [{"uri": "file:///b", "name": "b"}, {"name": "nowhere"}],
                "removed": []
            }}"#,
        ))
        .unwrap();
    assert_eq!(added.scopes, ["file:///a", "file:///b"]);
    assert_eq!(session.interpreter("file:///a/foo.py").as_deref(), Some("/one"));
    let removed = session
        .did_change_workspace_folders(&json(
            r#"{"event": {"added": [], "removed": [{"uri": "file:///b", "name": "b"}]}}"#,
        ))
        .unwrap();
    assert_eq!(removed.scopes, ["file:///a"]);
    assert_eq!(session.interpreter("file:///a/foo.py").as_deref(), Some("/one"));
    let emptied = session
        .did_change_workspace_folders(&json(
            r#"{"event": {"added": [], "removed": [{"uri": "file:///a"}]}}"#,
        ))
        .unwrap();
    assert!(emptied.scopes.is_empty());
    assert!(emptied.params().same(&json(r#"{"items": [{"section": "python"}]}"#)));
    assert_eq!(session.interpreter("file:///a/foo.py"), None);
}

#[test]
fn a_folder_that_is_replaced_starts_anew() {
    let mut session = begin(&["file:///a"]);
    configure(&mut session, r#"[{"pythonPath": "/one"}]"#);
    let change = r#"{"event": {
        "added": [{"uri": "file:///a", "name": "a"}],
        "removed": [{"uri": "file:///a", "name": "a"}]
    }}"#;
    let request = session.did_change_workspace_folders(&json(change)).unwrap();
    assert_eq!(request.scopes, ["file:///a"]);
    assert_eq!(session.interpreter("file:///a/foo.py"), None);
}

#[test]
fn a_file_that_is_not_open_shows_nothing() {
    let mut session = begin(&[]);
    configure(&mut session, r#"[{"pyrefly": {"displayTypeErrors": "force-on"}}]"#);
    assert_eq!(shown(&session, FILE), 0);
}

#[test]
fn a_file_opened_again_has_its_new_project() {
    let mut session = begin(&[]);
    session.did_open(FILE, project(false, false, true));
    session.did_open("file:///a/bar.py", project(false, false, true));
    assert_eq!(shown(&session, FILE), 0);
    session.did_open(FILE, project(true, false, true));
    assert_eq!(shown(&session, FILE), 2);
    assert_eq!(shown(&session, "file:///a/bar.py"), 0);
}

#[test]
fn requests_of_the_client_are_numbered() {
    let mut session = begin(&[]);
    assert_eq!(session.definition(FILE, Json::Null).id, 2);
    assert_eq!(session.hover(FILE, Json::Null).id, 3);
    assert_eq!(session.did_change_configuration().unwrap().id, 2);
    assert_eq!(session.diagnostic(FILE, Vec::new()).id, 4);
}
