//! Sessions in which a client configures the server. Each runs on a [`Session`], with the sample
//! files standing for what the analysis finds, and is then held against the script of its scenario.

use lsp_configuration::answers::{hover, location};
use lsp_configuration::configuration::ConfigurationRequest;
use lsp_configuration::fixtures::{get_diagnostics_result, setup_dummy_interpreter, type_error};
use lsp_configuration::json::Json;
use lsp_configuration::path::{document_uri, file_uri, join};
use lsp_configuration::scenarios;
use lsp_configuration::scenarios::Sample;
use lsp_configuration::script::{Script, Step};
use lsp_configuration::session::{InitializeSettings, Response, Session};
use lsp_configuration::settings::Project;
use lsp_types::notification::{DidChangeWorkspaceFolders, Notification};
use lsp_types::request::{Request, WorkspaceConfiguration};
use serde_json::Value;

fn get_test_files_root() -> String {
    "/home/user/test_files".to_string()
}

fn sample() -> Sample {
    Sample::at(&get_test_files_root()).unwrap()
}

fn from_value(value: &Value) -> Json {
    match value {
        Value::Null => Json::Null,
        Value::Bool(b) => Json::Bool(*b),
        Value::Number(n) => Json::Number(n.as_i64().unwrap()),
        Value::String(s) => Json::Text(s.clone()),
        Value::Array(items) => Json::Array(items.iter().map(from_value).collect()),
        Value::Object(members) => Json::Object(
            members.iter().map(|(key, value)| (key.clone(), from_value(value))).collect(),
        ),
    }
}

fn to_value(json: &Json) -> Value {
    match json {
        Json::Null => Value::Null,
        Json::Bool(b) => Value::Bool(*b),
        Json::Number(n) => Value::from(*n),
        Json::Text(s) => Value::String(s.clone()),
        Json::Array(items) => Value::Array(items.iter().map(to_value).collect()),
        Json::Object(members) => Value::Object(
            members.iter().map(|(key, value)| (key.clone(), to_value(value))).collect(),
        ),
    }
}

fn json(text: &str) -> Json {
    from_value(&serde_json::from_str(text).unwrap())
}

/// A step as text, the same for steps that mean the same.
fn step_text(step: &Step) -> String {
    match step {
        Step::Initialize { workspace_folders, configuration } => format!(
            "Initialize {:?} {:?}",
            workspace_folders,
            configuration.as_ref().map(|answer| answer.as_ref().map(to_value)),
        ),
        Step::SendNotification { method, params } => {
            format!("SendNotification {} {}", method, to_value(params))
        }
        Step::SendConfigurationResponse { id, result } => {
            format!("SendConfigurationResponse {} {}", id, to_value(result))
        }
        Step::ExpectRequest { method, id, params } => {
            format!("ExpectRequest {} {} {}", method, id, to_value(params))
        }
        Step::ExpectResponse { id, result } => {
            format!("ExpectResponse {} {}", id, to_value(result))
        }
        other => format!("{:?}", other),
    }
}

fn assert_goes_by(interaction: &Interaction, scenario: Script) {
    let taken: Vec<String> = interaction.script.steps.iter().map(step_text).collect();
    let written: Vec<String> = scenario.steps.iter().map(step_text).collect();
    assert_eq!(taken, written);
}

/// What the sample file at `path` belongs to.
fn project(path: &str) -> Project {
    let mut project = Project {
        has_config: false,
        type_errors_disabled: false,
        included: true,
        interpreter: None,
    };
    if path.contains("/disable_type_error_in_config/") {
        project.has_config = true;
        project.type_errors_disabled = true;
    }
    if path.contains("/tests_requiring_config/") {
        project.has_config = true;
    }
    if path.contains("/diagnostics_file_not_in_includes/")
        || path.contains("/diagnostics_file_in_excludes/")
    {
        project.has_config = true;
        project.included = !path.ends_with("/type_errors_exclude.py");
    }
    if path.contains("/custom_interpreter_config/") {
        project.has_config = true;
        let folder = join(&get_test_files_root(), "custom_interpreter_config");
        project.interpreter = Some(join(&folder, "bin/python"));
    }
    project
}

/// The interpreter that finds what the sample file at `path` imports.
fn needed_interpreter(path: &str) -> Option<String> {
    let folder = path.strip_suffix("/src/foo.py")?;
    Some(join(folder, "bin/python"))
}

/// The type errors in the sample file at `path`.
fn errors(path: &str, interpreter: Option<String>) -> Vec<Json> {
    match needed_interpreter(path) {
        Some(needed) => {
            if interpreter == Some(needed) {
                Vec::new()
            } else {
                vec![Json::object().with("code", Json::text("import-error"))]
            }
        }
        None => {
            if path.contains("/type_errors") {
                vec![type_error()]
            } else {
                Vec::new()
            }
        }
    }
}

/// Where what stands at a position of the sample file at `path` is defined.
fn definition(path: &str, line: u32, character: u32, interpreter: Option<String>) -> Json {
    if let Some(needed) = needed_interpreter(path) {
        assert_eq!((line, character), (5, 31));
        if interpreter == Some(needed) {
            let folder = path.strip_suffix("/src/foo.py").unwrap();
            let module = join(folder, "bin/site-packages/custom_module.py");
            return location(&file_uri(&module).unwrap(), 6, 6, 6, 17);
        }
        return location(&file_uri(path).unwrap(), 5, 26, 5, 37);
    }
    assert_eq!((line, character), (6, 16));
    let bar = join(path.strip_suffix("/foo.py").unwrap(), "bar.py");
    location(&file_uri(&bar).unwrap(), 6, 6, 6, 9)
}

/// What a hover over a position of the sample file at `path` describes.
fn hovered(path: &str, line: u32, character: u32) -> Json {
    assert_eq!((line, character), (6, 17));
    let bar = join(path.strip_suffix("/foo.py").unwrap(), "bar.py");
    let text = "```python\n(class) Bar: type[Bar]\n```\n\nGo to [Bar](".to_owned()
        + &file_uri(&bar).unwrap()
        + "#L7,7)";
    hover(&text)
}

/// A client at work: it drives a session, and keeps the steps that it takes.
struct Interaction {
    root: String,
    session: Option<Session>,
    request: Option<ConfigurationRequest>,
    answer: Option<Response>,
    script: Script,
}

impl Interaction {
    fn new() -> Interaction {
        Interaction {
            root: String::new(),
            session: None,
            request: None,
            answer: None,
            script: Script::new(),
        }
    }

    fn session(&mut self) -> &mut Session {
        self.session.as_mut().unwrap()
    }

    fn path(&self, file: &str) -> String {
        join(&self.root, file)
    }

    fn uri(&self, file: &str) -> String {
        document_uri(&self.root, file).unwrap()
    }

    fn set_root(&mut self, path: &str) {
        self.script.set_root(path);
        self.root = path.to_string();
    }

    fn initialize(&mut self, folder: Option<&str>, configuration: Option<&str>) {
        let folders =
            || folder.map(|uri| vec![("test".to_owned(), uri.to_owned())]);
        self.script.add_step(Step::Initialize {
            workspace_folders: folders(),
            configuration: Some(configuration.map(json)),
        });
        self.session = Some(Session::initialize(InitializeSettings {
            workspace_folders: folders(),
            configuration: Some(configuration.map(json)),
        }));
    }

    fn did_open(&mut self, file: &str) {
        self.script.did_open(file);
        let uri = self.uri(file);
        let project = project(&self.path(file));
        self.session().did_open(&uri, project);
    }

    fn did_change_configuration(&mut self) {
        self.script.did_change_configuration();
        self.request = self.session().did_change_configuration();
    }

    fn change_workspace_folders(&mut self, params: &str) {
        let method = DidChangeWorkspaceFolders::METHOD.to_owned();
        self.script.send_notification(method, json(params));
        self.request = self.session().did_change_workspace_folders(&json(params));
    }

    fn expect_configuration_request(&mut self, id: i32, scopes: Option<Vec<&str>>) {
        self.script.add_step(Step::ExpectConfigurationRequest {
            id,
            scopes: scopes.as_ref().map(|uris| uris.iter().map(|uri| uri.to_string()).collect()),
        });
        let request = self.request.take().unwrap();
        assert_eq!(request.id, id);
        assert_eq!(request.scopes, scopes.unwrap_or_default());
    }

    fn expect_workspace_configuration(&mut self, id: i32, params: &str) {
        let method = WorkspaceConfiguration::METHOD.to_owned();
        self.script.expect_request(method.clone(), id, json(params));
        let request = self.request.take().unwrap();
        assert_eq!(request.id, id);
        assert_eq!(request.method(), method);
        assert!(request.params().same(&json(params)));
    }

    fn send_configuration_response(&mut self, id: i32, result: &str) {
        self.script.send_configuration_response(id, json(result));
        assert!(self.session().send_configuration_response(id, &json(result)));
    }

    fn definition(&mut self, file: &str, line: u32, character: u32) {
        self.script.definition(file, line, character);
        let uri = self.uri(file);
        let interpreter = self.session().interpreter(&uri);
        let located = definition(&self.path(file), line, character, interpreter);
        self.answer = Some(self.session().definition(&uri, located));
    }

    fn hover(&mut self, file: &str, line: u32, character: u32) {
        self.script.hover(file, line, character);
        let uri = self.uri(file);
        let described = hovered(&self.path(file), line, character);
        self.answer = Some(self.session().hover(&uri, described));
    }

    fn diagnostic(&mut self, file: &str) {
        self.script.diagnostic(file);
        let uri = self.uri(file);
        let interpreter = self.session().interpreter(&uri);
        let found = errors(&self.path(file), interpreter);
        self.answer = Some(self.session().diagnostic(&uri, found));
    }

    fn expect_response(&mut self, id: i32, result: Json) {
        let answer = self.answer.take().unwrap();
        assert_eq!(answer.id, id);
        assert_eq!(to_value(&answer.result), to_value(&result));
        assert!(answer.result.same(&result));
        self.script.expect_response(id, result);
    }

    fn expect_publish_diagnostics_error_count(&mut self, path: String, count: usize) {
        let uri = file_uri(&path).unwrap();
        let interpreter = self.session().interpreter(&uri);
        let found = errors(&path, interpreter);
        assert_eq!(self.session().publish_diagnostics(&uri, found).len(), count);
        self.script.expect_publish_diagnostics_error_count(path, count);
    }

    fn expect_definition_response_from_root(
        &mut self,
        file: &str,
        start_line: u32,
        start_character: u32,
        end_line: u32,
        end_character: u32,
    ) {
        let expected = location(
            &self.uri(file),
            start_line,
            start_character,
            end_line,
            end_character,
        );
        assert!(self.answer.take().unwrap().result.same(&expected));
        self.script.expect_definition_response_from_root(
            file,
            start_line,
            start_character,
            end_line,
            end_character,
        );
    }

    fn shutdown(&mut self) {
        self.script.shutdown();
    }
}

/// The location of the sample class `Bar`, seen from the folder at `root_path`.
fn bar_location(root_path: &str) -> Json {
    json(&format!(
        r#"{{
            "uri": "{}",
            "range": {{
                "start": {{ "line": 6, "character": 6 }},
                "end": {{ "line": 6, "character": 9 }}
            }}
        }}"#,
        document_uri(root_path, "bar.py").unwrap(),
    ))
}

/// The hover on the sample class `Bar`, seen from the folder at `root_path`.
fn bar_hover(root_path: &str) -> Json {
    let value = "```python\\n(class) Bar: type[Bar]\\n```\\n\\nGo to [Bar](".to_owned()
        + &document_uri(root_path, "bar.py").unwrap()
        + "#L7,7)";
    json(&format!(r#"{{"contents": {{"kind": "markdown", "value": "{}"}}}}"#, value))
}

fn no_diagnostics() -> Json {
    json(r#"{"items": [], "kind": "full"}"#)
}

#[test]
fn test_did_change_configuration() {
    let root = get_test_files_root();
    let scope_uri = file_uri(&root).unwrap();
    let mut interaction = Interaction::new();
    interaction.set_root(&root);
    interaction.initialize(Some(&scope_uri), None);

    interaction.did_change_configuration();

    interaction.expect_configuration_request(2, Some(vec![&scope_uri]));
    interaction.send_configuration_response(2, "[{}]");

    interaction.shutdown();
    assert_goes_by(&interaction, scenarios::did_change_configuration(&sample()));
}

#[test]
fn test_pythonpath_change() {
    let test_files_root = get_test_files_root();
    let custom_interpreter_path = join(&test_files_root, "custom_interpreter");
    let bad_interpreter_root = join(&test_files_root, "bad_interpreter_bin");

    let mut interaction = Interaction::new();
    let interpreter = setup_dummy_interpreter(&custom_interpreter_path);
    let interpreter_path = interpreter.path.clone();
    interaction.script.write_interpreter(interpreter);
    let bad_interpreter = setup_dummy_interpreter(&bad_interpreter_root);
    let bad_interpreter_path = bad_interpreter.path.clone();
    interaction.script.write_interpreter(bad_interpreter);

    interaction.set_root(&test_files_root);
    interaction.initialize(None, Some(r#"[{"pyrefly": {"displayTypeErrors": "force-on"}}]"#));

    interaction.did_open("custom_interpreter/src/foo.py");
    // Prior to the config taking effect, there should be 1 diagnostic showing an import error
    interaction.expect_publish_diagnostics_error_count(
        join(&test_files_root, "custom_interpreter/src/foo.py"),
        1,
    );

    interaction.definition("custom_interpreter/src/foo.py", 5, 31);
    // The definition response is in the same file
    interaction.expect_definition_response_from_root(
        "custom_interpreter/src/foo.py",
        5,
        26,
        5,
        37,
    );

    interaction.did_change_configuration();
    interaction.expect_workspace_configuration(2, r#"{"items":[{"section":"python"}]}"#);
    interaction.send_configuration_response(
        2,
        &format!(r#"[{{"pythonPath": "{}"}}]"#, interpreter_path),
    );
    // After the new config takes effect, publish diagnostics should have 0 errors
    interaction.expect_publish_diagnostics_error_count(
        join(&test_files_root, "custom_interpreter/src/foo.py"),
        0,
    );
    // The definition can now be found in site-packages
    interaction.definition("custom_interpreter/src/foo.py", 5, 31);
    interaction.expect_definition_response_from_root(
        "custom_interpreter/bin/site-packages/custom_module.py",
        6,
        6,
        6,
        17,
    );

    // Try setting the interpreter back to a bad interpreter, and make sure it fails
    // successfully
    interaction.did_change_configuration();
    interaction.expect_workspace_configuration(3, r#"{"items":[{"section":"python"}]}"#);
    interaction.send_configuration_response(
        3,
        &format!(r#"[{{"pythonPath": "{}"}}]"#, bad_interpreter_path),
    );
    // After the bad config takes effect, publish diagnostics should have 1 error
    interaction.expect_publish_diagnostics_error_count(
        join(&test_files_root, "custom_interpreter/src/foo.py"),
        1,
    );
    // The definition should not be found in site-packages
    interaction.definition("custom_interpreter/src/foo.py", 5, 31);
    interaction.expect_definition_response_from_root(
        "custom_interpreter/src/foo.py",
        5,
        26,
        5,
        37,
    );

    interaction.shutdown();
    assert_goes_by(&interaction, scenarios::pythonpath_change(&sample()));
}

#[test]
fn test_workspace_pythonpath_ignored_when_set_in_config_file() {
    let test_files_root = get_test_files_root();
    let custom_interpreter_path = join(&test_files_root, "custom_interpreter_config");
    let bad_interpreter_root = join(&test_files_root, "bad_interpreter_bin");

    let mut interaction = Interaction::new();
    interaction.script.write_interpreter(setup_dummy_interpreter(&custom_interpreter_path));
    let bad_interpreter = setup_dummy_interpreter(&bad_interpreter_root);
    let bad_interpreter_path = bad_interpreter.path.clone();
    interaction.script.write_interpreter(bad_interpreter);

    interaction.set_root(&test_files_root);
    interaction.initialize(None, Some(r#"[{"pyrefly": {"displayTypeErrors": "force-on"}}]"#));

    interaction.did_open("custom_interpreter_config/src/foo.py");
    // Prior to the config taking effect, things should work with the interpreter in the provided
    // config
    interaction.expect_publish_diagnostics_error_count(
        join(&test_files_root, "custom_interpreter_config/src/foo.py"),
        0,
    );
    interaction.definition("custom_interpreter_config/src/foo.py", 5, 31);
    interaction.expect_definition_response_from_root(
        "custom_interpreter_config/bin/site-packages/custom_module.py",
        6,
        6,
        6,
        17,
    );

    interaction.did_change_configuration();
    interaction.expect_workspace_configuration(2, r#"{"items":[{"section":"python"}]}"#);
    interaction.send_configuration_response(
        2,
        &format!(r#"[{{"pythonPath": "{}"}}]"#, bad_interpreter_path),
    );
    // After the new config takes effect, results should stay the same
    interaction.expect_publish_diagnostics_error_count(
        join(&test_files_root, "custom_interpreter_config/src/foo.py"),
        0,
    );
    // The definition can still be found in site-packages
    interaction.definition("custom_interpreter_config/src/foo.py", 5, 31);
    interaction.expect_definition_response_from_root(
        "custom_interpreter_config/bin/site-packages/custom_module.py",
        6,
        6,
        6,
        17,
    );

    interaction.shutdown();
    assert_goes_by(
        &interaction,
        scenarios::workspace_pythonpath_ignored_when_set_in_config_file(&sample()),
    );
}

#[test]
fn test_disable_language_services() {
    let root_path = join(&get_test_files_root(), "basic");
    let scope_uri = file_uri(&root_path).unwrap();
    let mut interaction = Interaction::new();
    interaction.set_root(&root_path);
    interaction.initialize(Some(&scope_uri), None);

    interaction.did_open("foo.py");
    interaction.definition("foo.py", 6, 16);
    interaction.expect_response(2, bar_location(&root_path));

    interaction.did_change_configuration();

    interaction.expect_configuration_request(2, Some(vec![&scope_uri]));
    interaction
        .send_configuration_response(2, r#"[{"pyrefly": {"disableLanguageServices": true}}]"#);

    interaction.definition("foo.py", 6, 16);
    interaction.expect_response(3, json("[]"));

    interaction.shutdown();
    assert_goes_by(&interaction, scenarios::disable_language_services(&sample()));
}

#[test]
fn test_disable_language_services_default_workspace() {
    let root_path = join(&get_test_files_root(), "basic");
    let mut interaction = Interaction::new();
    interaction.set_root(&root_path);
    interaction.initialize(None, None);

    interaction.did_open("foo.py");
    interaction.definition("foo.py", 6, 16);
    interaction.expect_response(2, bar_location(&root_path));

    interaction.did_change_configuration();

    interaction.expect_configuration_request(2, None);
    interaction
        .send_configuration_response(2, r#"[{"pyrefly": {"disableLanguageServices": true}}]"#);

    interaction.definition("foo.py", 6, 16);
    interaction.expect_response(3, json("[]"));

    interaction.shutdown();
    assert_goes_by(
        &interaction,
        scenarios::disable_language_services_default_workspace(&sample()),
    );
}

#[test]
fn test_disable_specific_language_services_via_analysis_config() {
    let this_test_root = join(&get_test_files_root(), "basic");
    let scope_uri = file_uri(&this_test_root).unwrap();
    let mut interaction = Interaction::new();
    interaction.set_root(&this_test_root);
    interaction.initialize(Some(&scope_uri), None);

    interaction.did_open("foo.py");

    // Test hover works initially
    interaction.hover("foo.py", 6, 17);
    interaction.expect_response(2, bar_hover(&this_test_root));

    // Test definition works initially
    interaction.definition("foo.py", 6, 16);
    interaction.expect_response(3, bar_location(&this_test_root));

    // Change configuration to disable only hover (using pyrefly.disabledLanguageServices)
    interaction.did_change_configuration();
    interaction.expect_configuration_request(2, Some(vec![&scope_uri]));
    interaction.send_configuration_response(
        2,
        r#"[{"pyrefly": {"disabledLanguageServices": {"hover": true}}}]"#,
    );

    // Hover should now be disabled
    interaction.hover("foo.py", 6, 17);
    interaction.expect_response(4, json(r#"{"contents": []}"#));

    // But definition should still work
    interaction.definition("foo.py", 6, 16);
    interaction.expect_response(5, bar_location(&this_test_root));

    interaction.shutdown();
    assert_goes_by(
        &interaction,
        scenarios::disable_specific_language_services_via_analysis_config(&sample()),
    );
}

#[test]
fn test_did_change_workspace_folder() {
    let root = get_test_files_root();
    let scope_uri = file_uri(&root).unwrap();
    let mut interaction = Interaction::new();
    interaction.set_root(&root);
    interaction.initialize(None, None);

    interaction.change_workspace_folders(&format!(
        r#"{{"event": {{"added": [{{"uri": "{}", "name": "test"}}], "removed": []}}}}"#,
        scope_uri,
    ));

    interaction.expect_configuration_request(2, Some(vec![&scope_uri]));
    interaction.send_configuration_response(2, "[{}]");

    interaction.shutdown();
    assert_goes_by(&interaction, scenarios::did_change_workspace_folder(&sample()));
}

#[test]
fn test_disable_type_errors_language_services_still_work() {
    let root_path = join(&get_test_files_root(), "basic");
    let scope_uri = file_uri(&root_path).unwrap();
    let mut interaction = Interaction::new();
    interaction.set_root(&root_path);
    interaction.initialize(
        Some(&scope_uri),
        Some(r#"[{"pyrefly": {"displayTypeErrors": "force-off"}}]"#),
    );

    interaction.did_open("foo.py");

    interaction.hover("foo.py", 6, 17);

    interaction.expect_response(2, bar_hover(&root_path));

    interaction.shutdown();
    assert_goes_by(
        &interaction,
        scenarios::disable_type_errors_language_services_still_work(&sample()),
    );
}

#[test]
fn test_disable_type_errors_workspace_folder() {
    let test_files_root = get_test_files_root();
    let scope_uri = file_uri(&test_files_root).unwrap();
    let mut interaction = Interaction::new();
    interaction.set_root(&test_files_root);
    interaction.initialize(Some(&scope_uri), None);

    interaction.did_open("type_errors.py");

    interaction.diagnostic("type_errors.py");

    interaction.expect_response(2, no_diagnostics());

    interaction.did_change_configuration();

    interaction.expect_configuration_request(2, Some(vec![&scope_uri]));
    interaction
        .send_configuration_response(2, r#"[{"pyrefly": {"displayTypeErrors": "force-off"}}]"#);
    interaction.diagnostic("type_errors.py");

    interaction.expect_response(3, no_diagnostics());

    interaction.did_change_configuration();

    interaction.expect_configuration_request(3, Some(vec![&scope_uri]));
    interaction
        .send_configuration_response(3, r#"[{"pyrefly": {"displayTypeErrors": "force-on"}}]"#);
    interaction.diagnostic("type_errors.py");

    interaction.expect_response(4, get_diagnostics_result());

    interaction.shutdown();
    assert_goes_by(&interaction, scenarios::disable_type_errors_workspace_folder(&sample()));
}

#[test]
fn test_disable_type_errors_default_workspace() {
    let test_files_root = get_test_files_root();
    let mut interaction = Interaction::new();
    interaction.set_root(&test_files_root);
    interaction.initialize(None, None);

    interaction.did_open("type_errors.py");

    interaction.diagnostic("type_errors.py");

    interaction.expect_response(2, no_diagnostics());

    interaction.did_change_configuration();

    interaction.expect_configuration_request(2, None);
    interaction
        .send_configuration_response(2, r#"[{"pyrefly": {"displayTypeErrors": "force-off"}}]"#);
    interaction.diagnostic("type_errors.py");

    interaction.expect_response(3, no_diagnostics());

    interaction.did_change_configuration();

    interaction.expect_configuration_request(3, None);
    interaction
        .send_configuration_response(3, r#"[{"pyrefly": {"displayTypeErrors": "force-on"}}]"#);
    interaction.diagnostic("type_errors.py");

    interaction.expect_response(4, get_diagnostics_result());

    interaction.shutdown();
    assert_goes_by(&interaction, scenarios::disable_type_errors_default_workspace(&sample()));
}

#[test]
fn test_disable_type_errors_config() {
    let test_files_root = join(&get_test_files_root(), "disable_type_error_in_config");
    let scope_uri = file_uri(&test_files_root).unwrap();
    let mut interaction = Interaction::new();
    interaction.set_root(&test_files_root);
    interaction.initialize(Some(&scope_uri), None);

    interaction.did_open("type_errors.py");

    interaction.diagnostic("type_errors.py");

    interaction.expect_response(2, no_diagnostics());

    interaction.did_change_configuration();

    interaction.expect_configuration_request(2, Some(vec![&scope_uri]));
    interaction
        .send_configuration_response(2, r#"[{"pyrefly": {"displayTypeErrors": "force-on"}}]"#);
    interaction.diagnostic("type_errors.py");

    interaction.expect_response(3, get_diagnostics_result());

    interaction.shutdown();
    assert_goes_by(&interaction, scenarios::disable_type_errors_config(&sample()));
}

/// If we failed to parse pylance configs, we would fail to apply the `displayTypeErrors` settings.
/// This test ensures that we don't fail to apply them.
#[test]
fn test_parse_pylance_configs() {
    let test_files_root = get_test_files_root();
    let mut interaction = Interaction::new();
    interaction.set_root(&test_files_root);
    interaction.initialize(None, None);

    interaction.did_open("type_errors.py");

    interaction.did_change_configuration();
    interaction.expect_configuration_request(2, None);
    interaction.send_configuration_response(
        2,
        r#"[
            {
                "pyrefly": {"displayTypeErrors": "force-off"},
                "analysis": {
                    "diagnosticMode": "workspace",
                    "importFormat": "relative",
                    "inlayHints": {
                        "callArgumentNames": "on",
                        "functionReturnTypes": true,
                        "pytestParameters": true,
                        "variableTypes": true
                    }
                }
            }
        ]"#,
    );
    interaction.diagnostic("type_errors.py");

    interaction.expect_response(2, no_diagnostics());

    interaction.shutdown();
    assert_goes_by(&interaction, scenarios::parse_pylance_configs(&sample()));
}

#[test]
fn test_diagnostics_default_workspace() {
    let root = get_test_files_root();
    let mut interaction = Interaction::new();
    interaction.set_root(&root);
    interaction.initialize(None, None);

    interaction.did_open("type_errors.py");

    interaction.diagnostic("type_errors.py");

    interaction.expect_response(2, no_diagnostics());

    interaction.did_change_configuration();
    interaction.expect_configuration_request(2, None);
    interaction
        .send_configuration_response(2, r#"[{"pyrefly": {"displayTypeErrors": "force-on"}}]"#);
    interaction.diagnostic("type_errors.py");

    interaction.expect_response(3, get_diagnostics_result());

    interaction.shutdown();
    assert_goes_by(&interaction, scenarios::diagnostics_default_workspace(&sample()));
}

#[test]
fn test_diagnostics_default_workspace_with_config() {
    let root = join(&get_test_files_root(), "tests_requiring_config");
    let mut interaction = Interaction::new();
    interaction.set_root(&root);
    interaction.initialize(None, None);

    interaction.did_open("type_errors.py");

    interaction.diagnostic("type_errors.py");

    interaction.expect_response(2, get_diagnostics_result());

    interaction.did_change_configuration();
    interaction.expect_configuration_request(2, None);
    interaction
        .send_configuration_response(2, r#"[{"pyrefly": {"displayTypeErrors": "force-off"}}]"#);
    interaction.diagnostic("type_errors.py");

    interaction.expect_response(3, no_diagnostics());

    interaction.shutdown();
    assert_goes_by(&interaction, scenarios::diagnostics_default_workspace_with_config(&sample()));
}

#[test]
fn test_diagnostics_in_workspace() {
    let root = get_test_files_root();
    let scope_uri = file_uri(&root).unwrap();
    let mut interaction = Interaction::new();
    interaction.set_root(&root);
    interaction.initialize(Some(&scope_uri), None);

    interaction.did_open("type_errors.py");

    interaction.diagnostic("type_errors.py");

    interaction.expect_response(2, no_diagnostics());

    interaction.did_change_configuration();
    interaction.expect_configuration_request(2, Some(vec![&scope_uri]));
    interaction
        .send_configuration_response(2, r#"[{"pyrefly": {"displayTypeErrors": "force-on"}}]"#);
    interaction.diagnostic("type_errors.py");

    interaction.expect_response(3, get_diagnostics_result());

    interaction.shutdown();
    assert_goes_by(&interaction, scenarios::diagnostics_in_workspace(&sample()));
}

#[test]
fn test_diagnostics_file_not_in_includes() {
    let root = get_test_files_root();
    let mut interaction = Interaction::new();
    interaction.set_root(&root);
    interaction.initialize(None, Some(r#"[{"pyrefly": {"displayTypeErrors": "force-on"}}]"#));

    interaction.did_open("diagnostics_file_not_in_includes/type_errors_exclude.py");
    interaction.did_open("diagnostics_file_not_in_includes/type_errors_include.py");

    interaction.diagnostic("diagnostics_file_not_in_includes/type_errors_include.py");

    // prove that it works for a project included
    interaction.expect_response(2, get_diagnostics_result());

    interaction.diagnostic("diagnostics_file_not_in_includes/type_errors_exclude.py");

    // prove that it ignores a file not in project includes
    interaction.expect_response(3, no_diagnostics());

    interaction.shutdown();
    assert_goes_by(&interaction, scenarios::diagnostics_file_not_in_includes(&sample()));
}

#[test]
fn test_diagnostics_file_in_excludes() {
    let root = get_test_files_root();
    let mut interaction = Interaction::new();
    interaction.set_root(&root);
    interaction.initialize(None, Some(r#"[{"pyrefly": {"displayTypeErrors": "force-on"}}]"#));

    interaction.did_open("diagnostics_file_in_excludes/type_errors_exclude.py");
    interaction.did_open("diagnostics_file_in_excludes/type_errors_include.py");

    interaction.diagnostic("diagnostics_file_in_excludes/type_errors_include.py");

    // prove that it works for a project included
    interaction.expect_response(2, get_diagnostics_result());

    interaction.diagnostic("diagnostics_file_in_excludes/type_errors_exclude.py");

    // prove that it ignores a file not in project includes
    interaction.expect_response(3, no_diagnostics());

    interaction.shutdown();
    assert_goes_by(&interaction, scenarios::diagnostics_file_in_excludes(&sample()));
}
