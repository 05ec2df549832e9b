//! Sessions in which a client configures the server, as their client takes them.
//!
//! The client works on a folder of sample files, which lies at the root of a [`Sample`].

use crate::answers::{empty_hover, empty_hover_view, empty_report, nowhere, report_view};
use crate::configuration::{unscoped, unscoped_params};
use crate::fixtures::{
    bar_hover, bar_hover_view, bar_location, bar_location_view, get_diagnostics_result,
    interpreter_path, interpreter_script, setup_dummy_interpreter, site_packages_path,
    type_error_view,
};
use crate::json::{Json, JsonView};
use crate::methods::{did_change_workspace_folders, workspace_configuration};
use crate::path::{file_uri, file_url, join, joined, plain_path};
use crate::payloads::{
    display, display_view, folder_added, folder_change, folder_entry, hover_off, hover_off_view,
    nothing, nothing_view, pylance, pylance_view, python_path, python_path_view, services_off,
    services_off_view,
};
use crate::script::{Script, StepView};
use vstd::prelude::*;

verus! {

/// Where the sample files lie.
#[derive(Debug)]
pub struct Sample {
    /// The path of the folder that holds them.
    pub root: String,
    /// The URI of that folder.
    pub root_uri: String,
    /// The URI of the folder `basic` in it.
    pub basic_uri: String,
    /// The URI of the file `bar.py` in `basic`.
    pub bar_uri: String,
    /// The URI of the folder whose configuration file turns type errors off.
    pub disabled_uri: String,
}

/// Where the sample files lie.
pub struct SampleView {
    pub root: Seq<char>,
    pub root_uri: Seq<char>,
    pub basic_uri: Seq<char>,
    pub bar_uri: Seq<char>,
    pub disabled_uri: Seq<char>,
}

impl View for Sample {
    type V = SampleView;

    open spec fn view(&self) -> SampleView {
        SampleView {
            root: self.root@,
            root_uri: self.root_uri@,
            basic_uri: self.basic_uri@,
            bar_uri: self.bar_uri@,
            disabled_uri: self.disabled_uri@,
        }
    }
}

/// Whether `uri` names the file or folder at `path`; the URI of a plain path is the path behind
/// `file://`.
pub open spec fn names(uri: Seq<char>, path: Seq<char>) -> bool {
    &&& file_url(path) == Some(uri)
    &&& plain_path(path) ==> uri == "file://"@ + path
}

/// Whether `sample` is what lies at `root`.
pub open spec fn lies_at(sample: SampleView, root: Seq<char>) -> bool {
    &&& sample.root == root
    &&& names(sample.root_uri, root)
    &&& names(sample.basic_uri, joined(root, "basic"@))
    &&& names(sample.bar_uri, joined(joined(root, "basic"@), "bar.py"@))
    &&& names(sample.disabled_uri, joined(root, "disable_type_error_in_config"@))
}

impl Sample {
    /// The sample files in the folder at `root`, which is absolute or holds none.
    pub fn at(root: &str) -> (sample: Option<Sample>)
        ensures
            sample is Some <==> root@.len() > 0 && root@[0] == '/',
            sample matches Some(sample) ==> lies_at(sample@, root@),
    {
        let basic = join(root, "basic");
        let bar = join(basic.as_str(), "bar.py");
        let disabled = join(root, "disable_type_error_in_config");
        proof {
            reveal_strlit("basic");
            reveal_strlit("bar.py");
            reveal_strlit("disable_type_error_in_config");
        }
        match (
            file_uri(root),
            file_uri(basic.as_str()),
            file_uri(bar.as_str()),
            file_uri(disabled.as_str()),
        ) {
            (Some(root_uri), Some(basic_uri), Some(bar_uri), Some(disabled_uri)) => Some(
                Sample { root: root.to_owned(), root_uri, basic_uri, bar_uri, disabled_uri },
            ),
            _ => None,
        }
    }
}

/// The answer that names the stand-in for an interpreter in `folder`, seen from `root`.
fn interpreter_answer(root: &str, folder: &str) -> (result: Json)
    ensures
        result@ == python_path_view(interpreter_path(joined(root@, folder@))),
{
    let interpreter = setup_dummy_interpreter(join(root, folder).as_str());
    python_path(interpreter.path.as_str())
}

/// A change of configuration makes the server ask for the folder's, and an answer that gives
/// nothing is taken.
pub open spec fn did_change_configuration_steps(sample: SampleView) -> Seq<StepView> {
    seq![
        StepView::SetRoot { path: sample.root },
        StepView::Initialize {
            workspace_folders: Some(seq![("test"@, sample.root_uri)]),
            configuration: Some(None),
        },
        StepView::DidChangeConfiguration,
        StepView::ExpectConfigurationRequest { id: 2, scopes: Some(seq![sample.root_uri]) },
        StepView::SendConfigurationResponse { id: 2, result: nothing_view() },
        StepView::Shutdown,
    ]
}

/// A change of configuration makes the server ask for the folder's, and an answer that gives
/// nothing is taken.
pub fn did_change_configuration(sample: &Sample) -> (script: Script)
    ensures
        script@ == did_change_configuration_steps(sample@),
{
    let mut script = Script::new();
    script.set_root(sample.root.as_str());
    script.initialize(Some(sample.root_uri.as_str()), None);
    script.did_change_configuration();
    script.expect_configuration_request(2, Some(sample.root_uri.as_str()));
    script.send_configuration_response(2, nothing());
    script.shutdown();
    script
}

/// The imports of a file are found with the interpreter that the client names, and with another
/// that it names later they are not.
pub open spec fn pythonpath_change_steps(sample: SampleView) -> Seq<StepView> {
    seq![
        StepView::WriteInterpreter {
            path: interpreter_path(joined(sample.root, "custom_interpreter"@)),
            script: interpreter_script(
                site_packages_path(joined(sample.root, "custom_interpreter"@)),
            ),
        },
        StepView::WriteInterpreter {
            path: interpreter_path(joined(sample.root, "bad_interpreter_bin"@)),
            script: interpreter_script(
                site_packages_path(joined(sample.root, "bad_interpreter_bin"@)),
            ),
        },
        StepView::SetRoot { path: sample.root },
        StepView::Initialize {
            workspace_folders: None,
            configuration: Some(Some(display_view("force-on"@))),
        },
        StepView::DidOpen { file: "custom_interpreter/src/foo.py"@ },
        StepView::ExpectPublishDiagnosticsErrorCount {
            path: joined(sample.root, "custom_interpreter/src/foo.py"@),
            count: 1,
        },
        StepView::Definition { file: "custom_interpreter/src/foo.py"@, line: 5, character: 31 },
        StepView::ExpectDefinitionResponseFromRoot {
            file: "custom_interpreter/src/foo.py"@,
            start_line: 5,
            start_character: 26,
            end_line: 5,
            end_character: 37,
        },
        StepView::DidChangeConfiguration,
        StepView::ExpectRequest {
            method: "workspace/configuration"@,
            id: 2,
            params: unscoped_params(),
        },
        StepView::SendConfigurationResponse {
            id: 2,
            result: python_path_view(interpreter_path(joined(sample.root, "custom_interpreter"@))),
        },
        StepView::ExpectPublishDiagnosticsErrorCount {
            path: joined(sample.root, "custom_interpreter/src/foo.py"@),
            count: 0,
        },
        StepView::Definition { file: "custom_interpreter/src/foo.py"@, line: 5, character: 31 },
        StepView::ExpectDefinitionResponseFromRoot {
            file: "custom_interpreter/bin/site-packages/custom_module.py"@,
            start_line: 6,
            start_character: 6,
            end_line: 6,
            end_character: 17,
        },
        StepView::DidChangeConfiguration,
        StepView::ExpectRequest {
            method: "workspace/configuration"@,
            id: 3,
            params: unscoped_params(),
        },
        StepView::SendConfigurationResponse {
            id: 3,
            result: python_path_view(interpreter_path(joined(sample.root, "bad_interpreter_bin"@))),
        },
        StepView::ExpectPublishDiagnosticsErrorCount {
            path: joined(sample.root, "custom_interpreter/src/foo.py"@),
            count: 1,
        },
        StepView::Definition { file: "custom_interpreter/src/foo.py"@, line: 5, character: 31 },
        StepView::ExpectDefinitionResponseFromRoot {
            file: "custom_interpreter/src/foo.py"@,
            start_line: 5,
            start_character: 26,
            end_line: 5,
            end_character: 37,
        },
        StepView::Shutdown,
    ]
}

/// The imports of a file are found with the interpreter that the client names, and with another
/// that it names later they are not.
pub fn pythonpath_change(sample: &Sample) -> (script: Script)
    ensures
        script@ == pythonpath_change_steps(sample@),
{
    let mut script = Script::new();
    script.write_interpreter(
        setup_dummy_interpreter(join(sample.root.as_str(), "custom_interpreter").as_str()),
    );
    script.write_interpreter(
        setup_dummy_interpreter(join(sample.root.as_str(), "bad_interpreter_bin").as_str()),
    );
    script.set_root(sample.root.as_str());
    script.initialize(None, Some(display("force-on")));
    script.did_open("custom_interpreter/src/foo.py");
    script.expect_publish_diagnostics_error_count(
        join(sample.root.as_str(), "custom_interpreter/src/foo.py"),
        1,
    );
    script.definition("custom_interpreter/src/foo.py", 5, 31);
    script.expect_definition_response_from_root("custom_interpreter/src/foo.py", 5, 26, 5, 37);
    script.did_change_configuration();
    script.expect_request(workspace_configuration(), 2, unscoped());
    script.send_configuration_response(
        2,
        interpreter_answer(sample.root.as_str(), "custom_interpreter"),
    );
    script.expect_publish_diagnostics_error_count(
        join(sample.root.as_str(), "custom_interpreter/src/foo.py"),
        0,
    );
    script.definition("custom_interpreter/src/foo.py", 5, 31);
    script.expect_definition_response_from_root(
        "custom_interpreter/bin/site-packages/custom_module.py",
        6,
        6,
        6,
        17,
    );
    script.did_change_configuration();
    script.expect_request(workspace_configuration(), 3, unscoped());
    script.send_configuration_response(
        3,
        interpreter_answer(sample.root.as_str(), "bad_interpreter_bin"),
    );
    script.expect_publish_diagnostics_error_count(
        join(sample.root.as_str(), "custom_interpreter/src/foo.py"),
        1,
    );
    script.definition("custom_interpreter/src/foo.py", 5, 31);
    script.expect_definition_response_from_root("custom_interpreter/src/foo.py", 5, 26, 5, 37);
    script.shutdown();
    script
}

/// The interpreter that a client names is ignored where the project's configuration file names one.
pub open spec fn workspace_pythonpath_ignored_when_set_in_config_file_steps(
    sample: SampleView,
) -> Seq<StepView> {
    seq![
        StepView::WriteInterpreter {
            path: interpreter_path(joined(sample.root, "custom_interpreter_config"@)),
            script: interpreter_script(
                site_packages_path(joined(sample.root, "custom_interpreter_config"@)),
            ),
        },
        StepView::WriteInterpreter {
            path: interpreter_path(joined(sample.root, "bad_interpreter_bin"@)),
            script: interpreter_script(
                site_packages_path(joined(sample.root, "bad_interpreter_bin"@)),
            ),
        },
        StepView::SetRoot { path: sample.root },
        StepView::Initialize {
            workspace_folders: None,
            configuration: Some(Some(display_view("force-on"@))),
        },
        StepView::DidOpen { file: "custom_interpreter_config/src/foo.py"@ },
        StepView::ExpectPublishDiagnosticsErrorCount {
            path: joined(sample.root, "custom_interpreter_config/src/foo.py"@),
            count: 0,
        },
        StepView::Definition {
            file: "custom_interpreter_config/src/foo.py"@,
            line: 5,
            character: 31,
        },
        StepView::ExpectDefinitionResponseFromRoot {
            file: "custom_interpreter_config/bin/site-packages/custom_module.py"@,
            start_line: 6,
            start_character: 6,
            end_line: 6,
            end_character: 17,
        },
        StepView::DidChangeConfiguration,
        StepView::ExpectRequest {
            method: "workspace/configuration"@,
            id: 2,
            params: unscoped_params(),
        },
        StepView::SendConfigurationResponse {
            id: 2,
            result: python_path_view(interpreter_path(joined(sample.root, "bad_interpreter_bin"@))),
        },
        StepView::ExpectPublishDiagnosticsErrorCount {
            path: joined(sample.root, "custom_interpreter_config/src/foo.py"@),
            count: 0,
        },
        StepView::Definition {
            file: "custom_interpreter_config/src/foo.py"@,
            line: 5,
            character: 31,
        },
        StepView::ExpectDefinitionResponseFromRoot {
            file: "custom_interpreter_config/bin/site-packages/custom_module.py"@,
            start_line: 6,
            start_character: 6,
            end_line: 6,
            end_character: 17,
        },
        StepView::Shutdown,
    ]
}

/// The interpreter that a client names is ignored where the project's configuration file names one.
pub fn workspace_pythonpath_ignored_when_set_in_config_file(sample: &Sample) -> (script: Script)
    ensures
        script@ == workspace_pythonpath_ignored_when_set_in_config_file_steps(sample@),
{
    let mut script = Script::new();
    script.write_interpreter(
        setup_dummy_interpreter(join(sample.root.as_str(), "custom_interpreter_config").as_str()),
    );
    script.write_interpreter(
        setup_dummy_interpreter(join(sample.root.as_str(), "bad_interpreter_bin").as_str()),
    );
    script.set_root(sample.root.as_str());
    script.initialize(None, Some(display("force-on")));
    script.did_open("custom_interpreter_config/src/foo.py");
    script.expect_publish_diagnostics_error_count(
        join(sample.root.as_str(), "custom_interpreter_config/src/foo.py"),
        0,
    );
    script.definition("custom_interpreter_config/src/foo.py", 5, 31);
    script.expect_definition_response_from_root(
        "custom_interpreter_config/bin/site-packages/custom_module.py",
        6,
        6,
        6,
        17,
    );
    script.did_change_configuration();
    script.expect_request(workspace_configuration(), 2, unscoped());
    script.send_configuration_response(
        2,
        interpreter_answer(sample.root.as_str(), "bad_interpreter_bin"),
    );
    script.expect_publish_diagnostics_error_count(
        join(sample.root.as_str(), "custom_interpreter_config/src/foo.py"),
        0,
    );
    script.definition("custom_interpreter_config/src/foo.py", 5, 31);
    script.expect_definition_response_from_root(
        "custom_interpreter_config/bin/site-packages/custom_module.py",
        6,
        6,
        6,
        17,
    );
    script.shutdown();
    script
}

/// In a folder whose language services are disabled, a definition is nowhere.
pub open spec fn disable_language_services_steps(sample: SampleView) -> Seq<StepView> {
    seq![
        StepView::SetRoot { path: joined(sample.root, "basic"@) },
        StepView::Initialize {
            workspace_folders: Some(seq![("test"@, sample.basic_uri)]),
            configuration: Some(None),
        },
        StepView::DidOpen { file: "foo.py"@ },
        StepView::Definition { file: "foo.py"@, line: 6, character: 16 },
        StepView::ExpectResponse { id: 2, result: bar_location_view(sample.bar_uri) },
        StepView::DidChangeConfiguration,
        StepView::ExpectConfigurationRequest { id: 2, scopes: Some(seq![sample.basic_uri]) },
        StepView::SendConfigurationResponse { id: 2, result: services_off_view() },
        StepView::Definition { file: "foo.py"@, line: 6, character: 16 },
        StepView::ExpectResponse { id: 3, result: JsonView::Array(Seq::empty()) },
        StepView::Shutdown,
    ]
}

/// In a folder whose language services are disabled, a definition is nowhere.
pub fn disable_language_services(sample: &Sample) -> (script: Script)
    ensures
        script@ == disable_language_services_steps(sample@),
{
    let mut script = Script::new();
    script.set_root(join(sample.root.as_str(), "basic").as_str());
    script.initialize(Some(sample.basic_uri.as_str()), None);
    script.did_open("foo.py");
    script.definition("foo.py", 6, 16);
    script.expect_response(2, bar_location(sample.bar_uri.as_str()));
    script.did_change_configuration();
    script.expect_configuration_request(2, Some(sample.basic_uri.as_str()));
    script.send_configuration_response(2, services_off());
    script.definition("foo.py", 6, 16);
    script.expect_response(3, nowhere());
    script.shutdown();
    script
}

/// Where there are no folders, language services are disabled for every file.
pub open spec fn disable_language_services_default_workspace_steps(
    sample: SampleView,
) -> Seq<StepView> {
    seq![
        StepView::SetRoot { path: joined(sample.root, "basic"@) },
        StepView::Initialize { workspace_folders: None, configuration: Some(None) },
        StepView::DidOpen { file: "foo.py"@ },
        StepView::Definition { file: "foo.py"@, line: 6, character: 16 },
        StepView::ExpectResponse { id: 2, result: bar_location_view(sample.bar_uri) },
        StepView::DidChangeConfiguration,
        StepView::ExpectConfigurationRequest { id: 2, scopes: None },
        StepView::SendConfigurationResponse { id: 2, result: services_off_view() },
        StepView::Definition { file: "foo.py"@, line: 6, character: 16 },
        StepView::ExpectResponse { id: 3, result: JsonView::Array(Seq::empty()) },
        StepView::Shutdown,
    ]
}

/// Where there are no folders, language services are disabled for every file.
pub fn disable_language_services_default_workspace(sample: &Sample) -> (script: Script)
    ensures
        script@ == disable_language_services_default_workspace_steps(sample@),
{
    let mut script = Script::new();
    script.set_root(join(sample.root.as_str(), "basic").as_str());
    script.initialize(None, None);
    script.did_open("foo.py");
    script.definition("foo.py", 6, 16);
    script.expect_response(2, bar_location(sample.bar_uri.as_str()));
    script.did_change_configuration();
    script.expect_configuration_request(2, None);
    script.send_configuration_response(2, services_off());
    script.definition("foo.py", 6, 16);
    script.expect_response(3, nowhere());
    script.shutdown();
    script
}

/// Hovering is disabled by itself: a definition is still found.
pub open spec fn disable_specific_language_services_via_analysis_config_steps(
    sample: SampleView,
) -> Seq<StepView> {
    seq![
        StepView::SetRoot { path: joined(sample.root, "basic"@) },
        StepView::Initialize {
            workspace_folders: Some(seq![("test"@, sample.basic_uri)]),
            configuration: Some(None),
        },
        StepView::DidOpen { file: "foo.py"@ },
        StepView::Hover { file: "foo.py"@, line: 6, character: 17 },
        StepView::ExpectResponse { id: 2, result: bar_hover_view(sample.bar_uri) },
        StepView::Definition { file: "foo.py"@, line: 6, character: 16 },
        StepView::ExpectResponse { id: 3, result: bar_location_view(sample.bar_uri) },
        StepView::DidChangeConfiguration,
        StepView::ExpectConfigurationRequest { id: 2, scopes: Some(seq![sample.basic_uri]) },
        StepView::SendConfigurationResponse { id: 2, result: hover_off_view() },
        StepView::Hover { file: "foo.py"@, line: 6, character: 17 },
        StepView::ExpectResponse { id: 4, result: empty_hover_view() },
        StepView::Definition { file: "foo.py"@, line: 6, character: 16 },
        StepView::ExpectResponse { id: 5, result: bar_location_view(sample.bar_uri) },
        StepView::Shutdown,
    ]
}

/// Hovering is disabled by itself: a definition is still found.
pub fn disable_specific_language_services_via_analysis_config(sample: &Sample) -> (script: Script)
    ensures
        script@ == disable_specific_language_services_via_analysis_config_steps(sample@),
{
    let mut script = Script::new();
    script.set_root(join(sample.root.as_str(), "basic").as_str());
    script.initialize(Some(sample.basic_uri.as_str()), None);
    script.did_open("foo.py");
    script.hover("foo.py", 6, 17);
    script.expect_response(2, bar_hover(sample.bar_uri.as_str()));
    script.definition("foo.py", 6, 16);
    script.expect_response(3, bar_location(sample.bar_uri.as_str()));
    script.did_change_configuration();
    script.expect_configuration_request(2, Some(sample.basic_uri.as_str()));
    script.send_configuration_response(2, hover_off());
    script.hover("foo.py", 6, 17);
    script.expect_response(4, empty_hover());
    script.definition("foo.py", 6, 16);
    script.expect_response(5, bar_location(sample.bar_uri.as_str()));
    script.shutdown();
    script
}

/// A folder that the client adds makes the server ask for its configuration.
pub open spec fn did_change_workspace_folder_steps(sample: SampleView) -> Seq<StepView> {
    seq![
        StepView::SetRoot { path: sample.root },
        StepView::Initialize { workspace_folders: None, configuration: Some(None) },
        StepView::SendNotification {
            method: "workspace/didChangeWorkspaceFolders"@,
            params: folder_change(seq![folder_entry("test"@, sample.root_uri)], Seq::empty()),
        },
        StepView::ExpectConfigurationRequest { id: 2, scopes: Some(seq![sample.root_uri]) },
        StepView::SendConfigurationResponse { id: 2, result: nothing_view() },
        StepView::Shutdown,
    ]
}

/// A folder that the client adds makes the server ask for its configuration.
pub fn did_change_workspace_folder(sample: &Sample) -> (script: Script)
    ensures
        script@ == did_change_workspace_folder_steps(sample@),
{
    let mut script = Script::new();
    script.set_root(sample.root.as_str());
    script.initialize(None, None);
    script.send_notification(
        did_change_workspace_folders(),
        folder_added("test", sample.root_uri.as_str()),
    );
    script.expect_configuration_request(2, Some(sample.root_uri.as_str()));
    script.send_configuration_response(2, nothing());
    script.shutdown();
    script
}

/// Forcing type errors off leaves hovering as it is.
pub open spec fn disable_type_errors_language_services_still_work_steps(
    sample: SampleView,
) -> Seq<StepView> {
    seq![
        StepView::SetRoot { path: joined(sample.root, "basic"@) },
        StepView::Initialize {
            workspace_folders: Some(seq![("test"@, sample.basic_uri)]),
            configuration: Some(Some(display_view("force-off"@))),
        },
        StepView::DidOpen { file: "foo.py"@ },
        StepView::Hover { file: "foo.py"@, line: 6, character: 17 },
        StepView::ExpectResponse { id: 2, result: bar_hover_view(sample.bar_uri) },
        StepView::Shutdown,
    ]
}

/// Forcing type errors off leaves hovering as it is.
pub fn disable_type_errors_language_services_still_work(sample: &Sample) -> (script: Script)
    ensures
        script@ == disable_type_errors_language_services_still_work_steps(sample@),
{
    let mut script = Script::new();
    script.set_root(join(sample.root.as_str(), "basic").as_str());
    script.initialize(Some(sample.basic_uri.as_str()), Some(display("force-off")));
    script.did_open("foo.py");
    script.hover("foo.py", 6, 17);
    script.expect_response(2, bar_hover(sample.bar_uri.as_str()));
    script.shutdown();
    script
}

/// In a folder without a project, type errors are shown only once they are forced on.
pub open spec fn disable_type_errors_workspace_folder_steps(sample: SampleView) -> Seq<StepView> {
    seq![
        StepView::SetRoot { path: sample.root },
        StepView::Initialize {
            workspace_folders: Some(seq![("test"@, sample.root_uri)]),
            configuration: Some(None),
        },
        StepView::DidOpen { file: "type_errors.py"@ },
        StepView::Diagnostic { file: "type_errors.py"@ },
        StepView::ExpectResponse { id: 2, result: report_view(Seq::empty()) },
        StepView::DidChangeConfiguration,
        StepView::ExpectConfigurationRequest { id: 2, scopes: Some(seq![sample.root_uri]) },
        StepView::SendConfigurationResponse { id: 2, result: display_view("force-off"@) },
        StepView::Diagnostic { file: "type_errors.py"@ },
        StepView::ExpectResponse { id: 3, result: report_view(Seq::empty()) },
        StepView::DidChangeConfiguration,
        StepView::ExpectConfigurationRequest { id: 3, scopes: Some(seq![sample.root_uri]) },
        StepView::SendConfigurationResponse { id: 3, result: display_view("force-on"@) },
        StepView::Diagnostic { file: "type_errors.py"@ },
        StepView::ExpectResponse { id: 4, result: report_view(seq![type_error_view()]) },
        StepView::Shutdown,
    ]
}

/// In a folder without a project, type errors are shown only once they are forced on.
pub fn disable_type_errors_workspace_folder(sample: &Sample) -> (script: Script)
    ensures
        script@ == disable_type_errors_workspace_folder_steps(sample@),
{
    let mut script = Script::new();
    script.set_root(sample.root.as_str());
    script.initialize(Some(sample.root_uri.as_str()), None);
    script.did_open("type_errors.py");
    script.diagnostic("type_errors.py");
    script.expect_response(2, empty_report());
    script.did_change_configuration();
    script.expect_configuration_request(2, Some(sample.root_uri.as_str()));
    script.send_configuration_response(2, display("force-off"));
    script.diagnostic("type_errors.py");
    script.expect_response(3, empty_report());
    script.did_change_configuration();
    script.expect_configuration_request(3, Some(sample.root_uri.as_str()));
    script.send_configuration_response(3, display("force-on"));
    script.diagnostic("type_errors.py");
    script.expect_response(4, get_diagnostics_result());
    script.shutdown();
    script
}

/// Where there are no folders and no project, type errors are shown only once they are forced on.
pub open spec fn disable_type_errors_default_workspace_steps(sample: SampleView) -> Seq<StepView> {
    seq![
        StepView::SetRoot { path: sample.root },
        StepView::Initialize { workspace_folders: None, configuration: Some(None) },
        StepView::DidOpen { file: "type_errors.py"@ },
        StepView::Diagnostic { file: "type_errors.py"@ },
        StepView::ExpectResponse { id: 2, result: report_view(Seq::empty()) },
        StepView::DidChangeConfiguration,
        StepView::ExpectConfigurationRequest { id: 2, scopes: None },
        StepView::SendConfigurationResponse { id: 2, result: display_view("force-off"@) },
        StepView::Diagnostic { file: "type_errors.py"@ },
        StepView::ExpectResponse { id: 3, result: report_view(Seq::empty()) },
        StepView::DidChangeConfiguration,
        StepView::ExpectConfigurationRequest { id: 3, scopes: None },
        StepView::SendConfigurationResponse { id: 3, result: display_view("force-on"@) },
        StepView::Diagnostic { file: "type_errors.py"@ },
        StepView::ExpectResponse { id: 4, result: report_view(seq![type_error_view()]) },
        StepView::Shutdown,
    ]
}

/// Where there are no folders and no project, type errors are shown only once they are forced on.
pub fn disable_type_errors_default_workspace(sample: &Sample) -> (script: Script)
    ensures
        script@ == disable_type_errors_default_workspace_steps(sample@),
{
    let mut script = Script::new();
    script.set_root(sample.root.as_str());
    script.initialize(None, None);
    script.did_open("type_errors.py");
    script.diagnostic("type_errors.py");
    script.expect_response(2, empty_report());
    script.did_change_configuration();
    script.expect_configuration_request(2, None);
    script.send_configuration_response(2, display("force-off"));
    script.diagnostic("type_errors.py");
    script.expect_response(3, empty_report());
    script.did_change_configuration();
    script.expect_configuration_request(3, None);
    script.send_configuration_response(3, display("force-on"));
    script.diagnostic("type_errors.py");
    script.expect_response(4, get_diagnostics_result());
    script.shutdown();
    script
}

/// Forcing type errors on shows those that the project's configuration file turns off.
pub open spec fn disable_type_errors_config_steps(sample: SampleView) -> Seq<StepView> {
    seq![
        StepView::SetRoot { path: joined(sample.root, "disable_type_error_in_config"@) },
        StepView::Initialize {
            workspace_folders: Some(seq![("test"@, sample.disabled_uri)]),
            configuration: Some(None),
        },
        StepView::DidOpen { file: "type_errors.py"@ },
        StepView::Diagnostic { file: "type_errors.py"@ },
        StepView::ExpectResponse { id: 2, result: report_view(Seq::empty()) },
        StepView::DidChangeConfiguration,
        StepView::ExpectConfigurationRequest { id: 2, scopes: Some(seq![sample.disabled_uri]) },
        StepView::SendConfigurationResponse { id: 2, result: display_view("force-on"@) },
        StepView::Diagnostic { file: "type_errors.py"@ },
        StepView::ExpectResponse { id: 3, result: report_view(seq![type_error_view()]) },
        StepView::Shutdown,
    ]
}

/// Forcing type errors on shows those that the project's configuration file turns off.
pub fn disable_type_errors_config(sample: &Sample) -> (script: Script)
    ensures
        script@ == disable_type_errors_config_steps(sample@),
{
    let mut script = Script::new();
    script.set_root(join(sample.root.as_str(), "disable_type_error_in_config").as_str());
    script.initialize(Some(sample.disabled_uri.as_str()), None);
    script.did_open("type_errors.py");
    script.diagnostic("type_errors.py");
    script.expect_response(2, empty_report());
    script.did_change_configuration();
    script.expect_configuration_request(2, Some(sample.disabled_uri.as_str()));
    script.send_configuration_response(2, display("force-on"));
    script.diagnostic("type_errors.py");
    script.expect_response(3, get_diagnostics_result());
    script.shutdown();
    script
}

/// Settings of another language server in an answer keep nothing in it from being applied.
pub open spec fn parse_pylance_configs_steps(sample: SampleView) -> Seq<StepView> {
    seq![
        StepView::SetRoot { path: sample.root },
        StepView::Initialize { workspace_folders: None, configuration: Some(None) },
        StepView::DidOpen { file: "type_errors.py"@ },
        StepView::DidChangeConfiguration,
        StepView::ExpectConfigurationRequest { id: 2, scopes: None },
        StepView::SendConfigurationResponse { id: 2, result: pylance_view("force-off"@) },
        StepView::Diagnostic { file: "type_errors.py"@ },
        StepView::ExpectResponse { id: 2, result: report_view(Seq::empty()) },
        StepView::Shutdown,
    ]
}

/// Settings of another language server in an answer keep nothing in it from being applied.
pub fn parse_pylance_configs(sample: &Sample) -> (script: Script)
    ensures
        script@ == parse_pylance_configs_steps(sample@),
{
    let mut script = Script::new();
    script.set_root(sample.root.as_str());
    script.initialize(None, None);
    script.did_open("type_errors.py");
    script.did_change_configuration();
    script.expect_configuration_request(2, None);
    script.send_configuration_response(2, pylance("force-off"));
    script.diagnostic("type_errors.py");
    script.expect_response(2, empty_report());
    script.shutdown();
    script
}

/// Where there are no folders and no project, type errors are not shown until they are forced on.
pub open spec fn diagnostics_default_workspace_steps(sample: SampleView) -> Seq<StepView> {
    seq![
        StepView::SetRoot { path: sample.root },
        StepView::Initialize { workspace_folders: None, configuration: Some(None) },
        StepView::DidOpen { file: "type_errors.py"@ },
        StepView::Diagnostic { file: "type_errors.py"@ },
        StepView::ExpectResponse { id: 2, result: report_view(Seq::empty()) },
        StepView::DidChangeConfiguration,
        StepView::ExpectConfigurationRequest { id: 2, scopes: None },
        StepView::SendConfigurationResponse { id: 2, result: display_view("force-on"@) },
        StepView::Diagnostic { file: "type_errors.py"@ },
        StepView::ExpectResponse { id: 3, result: report_view(seq![type_error_view()]) },
        StepView::Shutdown,
    ]
}

/// Where there are no folders and no project, type errors are not shown until they are forced on.
pub fn diagnostics_default_workspace(sample: &Sample) -> (script: Script)
    ensures
        script@ == diagnostics_default_workspace_steps(sample@),
{
    let mut script = Script::new();
    script.set_root(sample.root.as_str());
    script.initialize(None, None);
    script.did_open("type_errors.py");
    script.diagnostic("type_errors.py");
    script.expect_response(2, empty_report());
    script.did_change_configuration();
    script.expect_configuration_request(2, None);
    script.send_configuration_response(2, display("force-on"));
    script.diagnostic("type_errors.py");
    script.expect_response(3, get_diagnostics_result());
    script.shutdown();
    script
}

/// The type errors of a project are shown until they are forced off.
pub open spec fn diagnostics_default_workspace_with_config_steps(
    sample: SampleView,
) -> Seq<StepView> {
    seq![
        StepView::SetRoot { path: joined(sample.root, "tests_requiring_config"@) },
        StepView::Initialize { workspace_folders: None, configuration: Some(None) },
        StepView::DidOpen { file: "type_errors.py"@ },
        StepView::Diagnostic { file: "type_errors.py"@ },
        StepView::ExpectResponse { id: 2, result: report_view(seq![type_error_view()]) },
        StepView::DidChangeConfiguration,
        StepView::ExpectConfigurationRequest { id: 2, scopes: None },
        StepView::SendConfigurationResponse { id: 2, result: display_view("force-off"@) },
        StepView::Diagnostic { file: "type_errors.py"@ },
        StepView::ExpectResponse { id: 3, result: report_view(Seq::empty()) },
        StepView::Shutdown,
    ]
}

/// The type errors of a project are shown until they are forced off.
pub fn diagnostics_default_workspace_with_config(sample: &Sample) -> (script: Script)
    ensures
        script@ == diagnostics_default_workspace_with_config_steps(sample@),
{
    let mut script = Script::new();
    script.set_root(join(sample.root.as_str(), "tests_requiring_config").as_str());
    script.initialize(None, None);
    script.did_open("type_errors.py");
    script.diagnostic("type_errors.py");
    script.expect_response(2, get_diagnostics_result());
    script.did_change_configuration();
    script.expect_configuration_request(2, None);
    script.send_configuration_response(2, display("force-off"));
    script.diagnostic("type_errors.py");
    script.expect_response(3, empty_report());
    script.shutdown();
    script
}

/// In a folder without a project, type errors are not shown until they are forced on.
pub open spec fn diagnostics_in_workspace_steps(sample: SampleView) -> Seq<StepView> {
    seq![
        StepView::SetRoot { path: sample.root },
        StepView::Initialize {
            workspace_folders: Some(seq![("test"@, sample.root_uri)]),
            configuration: Some(None),
        },
        StepView::DidOpen { file: "type_errors.py"@ },
        StepView::Diagnostic { file: "type_errors.py"@ },
        StepView::ExpectResponse { id: 2, result: report_view(Seq::empty()) },
        StepView::DidChangeConfiguration,
        StepView::ExpectConfigurationRequest { id: 2, scopes: Some(seq![sample.root_uri]) },
        StepView::SendConfigurationResponse { id: 2, result: display_view("force-on"@) },
        StepView::Diagnostic { file: "type_errors.py"@ },
        StepView::ExpectResponse { id: 3, result: report_view(seq![type_error_view()]) },
        StepView::Shutdown,
    ]
}

/// In a folder without a project, type errors are not shown until they are forced on.
pub fn diagnostics_in_workspace(sample: &Sample) -> (script: Script)
    ensures
        script@ == diagnostics_in_workspace_steps(sample@),
{
    let mut script = Script::new();
    script.set_root(sample.root.as_str());
    script.initialize(Some(sample.root_uri.as_str()), None);
    script.did_open("type_errors.py");
    script.diagnostic("type_errors.py");
    script.expect_response(2, empty_report());
    script.did_change_configuration();
    script.expect_configuration_request(2, Some(sample.root_uri.as_str()));
    script.send_configuration_response(2, display("force-on"));
    script.diagnostic("type_errors.py");
    script.expect_response(3, get_diagnostics_result());
    script.shutdown();
    script
}

/// Forced on, type errors are still not shown in a file that its project does not include.
pub open spec fn diagnostics_file_not_in_includes_steps(sample: SampleView) -> Seq<StepView> {
    seq![
        StepView::SetRoot { path: sample.root },
        StepView::Initialize {
            workspace_folders: None,
            configuration: Some(Some(display_view("force-on"@))),
        },
        StepView::DidOpen { file: "diagnostics_file_not_in_includes/type_errors_exclude.py"@ },
        StepView::DidOpen { file: "diagnostics_file_not_in_includes/type_errors_include.py"@ },
        StepView::Diagnostic { file: "diagnostics_file_not_in_includes/type_errors_include.py"@ },
        StepView::ExpectResponse { id: 2, result: report_view(seq![type_error_view()]) },
        StepView::Diagnostic { file: "diagnostics_file_not_in_includes/type_errors_exclude.py"@ },
        StepView::ExpectResponse { id: 3, result: report_view(Seq::empty()) },
        StepView::Shutdown,
    ]
}

/// Forced on, type errors are still not shown in a file that its project does not include.
pub fn diagnostics_file_not_in_includes(sample: &Sample) -> (script: Script)
    ensures
        script@ == diagnostics_file_not_in_includes_steps(sample@),
{
    let mut script = Script::new();
    script.set_root(sample.root.as_str());
    script.initialize(None, Some(display("force-on")));
    script.did_open("diagnostics_file_not_in_includes/type_errors_exclude.py");
    script.did_open("diagnostics_file_not_in_includes/type_errors_include.py");
    script.diagnostic("diagnostics_file_not_in_includes/type_errors_include.py");
    script.expect_response(2, get_diagnostics_result());
    script.diagnostic("diagnostics_file_not_in_includes/type_errors_exclude.py");
    script.expect_response(3, empty_report());
    script.shutdown();
    script
}

/// Forced on, type errors are still not shown in a file that its project excludes.
pub open spec fn diagnostics_file_in_excludes_steps(sample: SampleView) -> Seq<StepView> {
    seq![
        StepView::SetRoot { path: sample.root },
        StepView::Initialize {
            workspace_folders: None,
            configuration: Some(Some(display_view("force-on"@))),
        },
        StepView::DidOpen { file: "diagnostics_file_in_excludes/type_errors_exclude.py"@ },
        StepView::DidOpen { file: "diagnostics_file_in_excludes/type_errors_include.py"@ },
        StepView::Diagnostic { file: "diagnostics_file_in_excludes/type_errors_include.py"@ },
        StepView::ExpectResponse { id: 2, result: report_view(seq![type_error_view()]) },
        StepView::Diagnostic { file: "diagnostics_file_in_excludes/type_errors_exclude.py"@ },
        StepView::ExpectResponse { id: 3, result: report_view(Seq::empty()) },
        StepView::Shutdown,
    ]
}

/// Forced on, type errors are still not shown in a file that its project excludes.
pub fn diagnostics_file_in_excludes(sample: &Sample) -> (script: Script)
    ensures
        script@ == diagnostics_file_in_excludes_steps(sample@),
{
    let mut script = Script::new();
    script.set_root(sample.root.as_str());
    script.initialize(None, Some(display("force-on")));
    script.did_open("diagnostics_file_in_excludes/type_errors_exclude.py");
    script.did_open("diagnostics_file_in_excludes/type_errors_include.py");
    script.diagnostic("diagnostics_file_in_excludes/type_errors_include.py");
    script.expect_response(2, get_diagnostics_result());
    script.diagnostic("diagnostics_file_in_excludes/type_errors_exclude.py");
    script.expect_response(3, empty_report());
    script.shutdown();
    script
}

} // verus!
