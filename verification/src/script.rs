//! What a client does in the course of a session, step by step, and what it expects of the server
//! in between.

use crate::configuration::texts;
use crate::fixtures::DummyInterpreter;
use crate::json::{Json, JsonView};
use crate::session::{first_answer, pair_views};
use vstd::prelude::*;

verus! {

/// A step of a session, as its client takes it.
#[derive(Debug)]
pub enum Step {
    /// Write `script` to `path`, to stand for an interpreter.
    WriteInterpreter { path: String, script: String },
    /// Take the folder at `path` for the one that files are seen from.
    SetRoot { path: String },
    /// Start the session.
    Initialize {
        workspace_folders: Option<Vec<(String, String)>>,
        configuration: Option<Option<Json>>,
    },
    /// Open a file.
    DidOpen { file: String },
    /// Tell the server that the configuration has changed.
    DidChangeConfiguration,
    /// Send the notification `method`.
    SendNotification { method: String, params: Json },
    /// Answer the server's request for configuration number `id`.
    SendConfigurationResponse { id: i32, result: Json },
    /// Ask where what stands at a position of a file is defined.
    Definition { file: String, line: u32, character: u32 },
    /// Hover over a position of a file.
    Hover { file: String, line: u32, character: u32 },
    /// Ask for the diagnostics of a file.
    Diagnostic { file: String },
    /// Expect the server's request for configuration number `id`, for these scopes.
    ExpectConfigurationRequest { id: i32, scopes: Option<Vec<String>> },
    /// Expect the server's request number `id` for `method`.
    ExpectRequest { method: String, id: i32, params: Json },
    /// Expect `result` in answer to the client's request number `id`.
    ExpectResponse { id: i32, result: Json },
    /// Expect the server to show `count` errors in the file at `path`.
    ExpectPublishDiagnosticsErrorCount { path: String, count: usize },
    /// Expect a location in `file` in answer to the latest request.
    ExpectDefinitionResponseFromRoot {
        file: String,
        start_line: u32,
        start_character: u32,
        end_line: u32,
        end_character: u32,
    },
    /// End the session.
    Shutdown,
}

/// A step of a session, as its client takes it.
pub enum StepView {
    WriteInterpreter { path: Seq<char>, script: Seq<char> },
    SetRoot { path: Seq<char> },
    Initialize {
        workspace_folders: Option<Seq<(Seq<char>, Seq<char>)>>,
        configuration: Option<Option<JsonView>>,
    },
    DidOpen { file: Seq<char> },
    DidChangeConfiguration,
    SendNotification { method: Seq<char>, params: JsonView },
    SendConfigurationResponse { id: int, result: JsonView },
    Definition { file: Seq<char>, line: int, character: int },
    Hover { file: Seq<char>, line: int, character: int },
    Diagnostic { file: Seq<char> },
    ExpectConfigurationRequest { id: int, scopes: Option<Seq<Seq<char>>> },
    ExpectRequest { method: Seq<char>, id: int, params: JsonView },
    ExpectResponse { id: int, result: JsonView },
    ExpectPublishDiagnosticsErrorCount { path: Seq<char>, count: int },
    ExpectDefinitionResponseFromRoot {
        file: Seq<char>,
        start_line: int,
        start_character: int,
        end_line: int,
        end_character: int,
    },
    Shutdown,
}

impl View for Step {
    type V = StepView;

    open spec fn view(&self) -> StepView {
        match self {
            Step::WriteInterpreter { path, script } => StepView::WriteInterpreter {
                path: path@,
                script: script@,
            },
            Step::SetRoot { path } => StepView::SetRoot { path: path@ },
            Step::Initialize { workspace_folders, configuration } => StepView::Initialize {
                workspace_folders: match workspace_folders {
                    Some(pairs) => Some(pair_views(pairs@)),
                    None => None,
                },
                configuration: first_answer(*configuration),
            },
            Step::DidOpen { file } => StepView::DidOpen { file: file@ },
            Step::DidChangeConfiguration => StepView::DidChangeConfiguration,
            Step::SendNotification { method, params } => StepView::SendNotification {
                method: method@,
                params: params@,
            },
            Step::SendConfigurationResponse { id, result } => StepView::SendConfigurationResponse {
                id: *id as int,
                result: result@,
            },
            Step::Definition { file, line, character } => StepView::Definition {
                file: file@,
                line: *line as int,
                character: *character as int,
            },
            Step::Hover { file, line, character } => StepView::Hover {
                file: file@,
                line: *line as int,
                character: *character as int,
            },
            Step::Diagnostic { file } => StepView::Diagnostic { file: file@ },
            Step::ExpectConfigurationRequest { id, scopes } =>
                StepView::ExpectConfigurationRequest {
                    id: *id as int,
                    scopes: match scopes {
                        Some(scopes) => Some(texts(scopes@)),
                        None => None,
                    },
                },
            Step::ExpectRequest { method, id, params } => StepView::ExpectRequest {
                method: method@,
                id: *id as int,
                params: params@,
            },
            Step::ExpectResponse { id, result } => StepView::ExpectResponse {
                id: *id as int,
                result: result@,
            },
            Step::ExpectPublishDiagnosticsErrorCount { path, count } =>
                StepView::ExpectPublishDiagnosticsErrorCount { path: path@, count: *count as int },
            Step::ExpectDefinitionResponseFromRoot {
                file,
                start_line,
                start_character,
                end_line,
                end_character,
            } => StepView::ExpectDefinitionResponseFromRoot {
                file: file@,
                start_line: *start_line as int,
                start_character: *start_character as int,
                end_line: *end_line as int,
                end_character: *end_character as int,
            },
            Step::Shutdown => StepView::Shutdown,
        }
    }
}

/// The views of steps, one by one.
pub open spec fn step_views(steps: Seq<Step>) -> Seq<StepView> {
    Seq::new(steps.len(), |i: int| steps[i]@)
}

/// The steps of a client, in the order in which it takes them.
#[derive(Debug)]
pub struct Script {
    pub steps: Vec<Step>,
}

impl View for Script {
    type V = Seq<StepView>;

    open spec fn view(&self) -> Seq<StepView> {
        step_views(self.steps@)
    }
}

impl Script {
    /// A client that does nothing.
    pub fn new() -> (script: Script)
        ensures
            script@ == Seq::<StepView>::empty(),
    {
        let script = Script { steps: Vec::new() };
        assert(script@ =~= Seq::<StepView>::empty());
        script
    }

    /// Takes one more step.
    pub fn add_step(&mut self, step: Step)
        ensures
            final(self)@ == old(self)@.push(step@),
    {
        let ghost before = self@;
        self.steps.push(step);
        assert(self@ =~= before.push(step@));
    }

    /// Sets an interpreter up.
    pub fn write_interpreter(&mut self, interpreter: DummyInterpreter)
        ensures
            final(self)@ == old(self)@.push(
                StepView::WriteInterpreter { path: interpreter.path@, script: interpreter.script@ },
            ),
    {
        self.add_step(
            Step::WriteInterpreter { path: interpreter.path, script: interpreter.script },
        );
    }

    /// Takes the folder at `path` for the one that files are seen from.
    pub fn set_root(&mut self, path: &str)
        ensures
            final(self)@ == old(self)@.push(StepView::SetRoot { path: path@ }),
    {
        self.add_step(Step::SetRoot { path: path.to_owned() });
    }

    /// Starts the session of a client that has configuration, and has the workspace folder at
    /// `folder` under the name `test`, or none.
    pub fn initialize(&mut self, folder: Option<&str>, configuration: Option<Json>)
        ensures
            final(self)@ == old(self)@.push(
                StepView::Initialize {
                    workspace_folders: match folder {
                        Some(uri) => Some(seq![("test"@, uri@)]),
                        None => None,
                    },
                    configuration: first_answer(Some(configuration)),
                },
            ),
    {
        let workspace_folders = match folder {
            Some(uri) => {
                let mut pairs: Vec<(String, String)> = Vec::new();
                pairs.push(("test".to_owned(), uri.to_owned()));
                assert(pair_views(pairs@) =~= seq![("test"@, uri@)]);
                Some(pairs)
            },
            None => None,
        };
        self.add_step(Step::Initialize { workspace_folders, configuration: Some(configuration) });
    }

    /// Opens a file.
    pub fn did_open(&mut self, file: &str)
        ensures
            final(self)@ == old(self)@.push(StepView::DidOpen { file: file@ }),
    {
        self.add_step(Step::DidOpen { file: file.to_owned() });
    }

    /// Tells the server that the configuration has changed.
    pub fn did_change_configuration(&mut self)
        ensures
            final(self)@ == old(self)@.push(StepView::DidChangeConfiguration),
    {
        self.add_step(Step::DidChangeConfiguration);
    }

    /// Sends the notification `method`.
    pub fn send_notification(&mut self, method: String, params: Json)
        ensures
            final(self)@ == old(self)@.push(
                StepView::SendNotification { method: method@, params: params@ },
            ),
    {
        self.add_step(Step::SendNotification { method, params });
    }

    /// Answers the server's request for configuration number `id`.
    pub fn send_configuration_response(&mut self, id: i32, result: Json)
        ensures
            final(self)@ == old(self)@.push(
                StepView::SendConfigurationResponse { id: id as int, result: result@ },
            ),
    {
        self.add_step(Step::SendConfigurationResponse { id, result });
    }

    /// Asks where what stands at a position of a file is defined.
    pub fn definition(&mut self, file: &str, line: u32, character: u32)
        ensures
            final(self)@ == old(self)@.push(
                StepView::Definition {
                    file: file@,
                    line: line as int,
                    character: character as int,
                },
            ),
    {
        self.add_step(Step::Definition { file: file.to_owned(), line, character });
    }

    /// Hovers over a position of a file.
    pub fn hover(&mut self, file: &str, line: u32, character: u32)
        ensures
            final(self)@ == old(self)@.push(
                StepView::Hover { file: file@, line: line as int, character: character as int },
            ),
    {
        self.add_step(Step::Hover { file: file.to_owned(), line, character });
    }

    /// Asks for the diagnostics of a file.
    pub fn diagnostic(&mut self, file: &str)
        ensures
            final(self)@ == old(self)@.push(StepView::Diagnostic { file: file@ }),
    {
        self.add_step(Step::Diagnostic { file: file.to_owned() });
    }

    /// Expects the server's request for configuration number `id`, for the folder at `scope` or for
    /// no folder.
    pub fn expect_configuration_request(&mut self, id: i32, scope: Option<&str>)
        ensures
            final(self)@ == old(self)@.push(
                StepView::ExpectConfigurationRequest {
                    id: id as int,
                    scopes: match scope {
                        Some(uri) => Some(seq![uri@]),
                        None => None,
                    },
                },
            ),
    {
        let scopes = match scope {
            Some(uri) => {
                let mut scopes: Vec<String> = Vec::new();
                scopes.push(uri.to_owned());
                assert(texts(scopes@) =~= seq![uri@]);
                Some(scopes)
            },
            None => None,
        };
        self.add_step(Step::ExpectConfigurationRequest { id, scopes });
    }

    /// Expects the server's request number `id` for `method`.
    pub fn expect_request(&mut self, method: String, id: i32, params: Json)
        ensures
            final(self)@ == old(self)@.push(
                StepView::ExpectRequest { method: method@, id: id as int, params: params@ },
            ),
    {
        self.add_step(Step::ExpectRequest { method, id, params });
    }

    /// Expects `result` in answer to the client's request number `id`.
    pub fn expect_response(&mut self, id: i32, result: Json)
        ensures
            final(self)@ == old(self)@.push(
                StepView::ExpectResponse { id: id as int, result: result@ },
            ),
    {
        self.add_step(Step::ExpectResponse { id, result });
    }

    /// Expects the server to show `count` errors in the file at `path`.
    pub fn expect_publish_diagnostics_error_count(&mut self, path: String, count: usize)
        ensures
            final(self)@ == old(self)@.push(
                StepView::ExpectPublishDiagnosticsErrorCount { path: path@, count: count as int },
            ),
    {
        self.add_step(Step::ExpectPublishDiagnosticsErrorCount { path, count });
    }

    /// Expects a location in `file` in answer to the latest request.
    pub fn expect_definition_response_from_root(
        &mut self,
        file: &str,
        start_line: u32,
        start_character: u32,
        end_line: u32,
        end_character: u32,
    )
        ensures
            final(self)@ == old(self)@.push(
                StepView::ExpectDefinitionResponseFromRoot {
                    file: file@,
                    start_line: start_line as int,
                    start_character: start_character as int,
                    end_line: end_line as int,
                    end_character: end_character as int,
                },
            ),
    {
        self.add_step(
            Step::ExpectDefinitionResponseFromRoot {
                file: file.to_owned(),
                start_line,
                start_character,
                end_line,
                end_character,
            },
        );
    }

    /// Ends the session.
    pub fn shutdown(&mut self)
        ensures
            final(self)@ == old(self)@.push(StepView::Shutdown),
    {
        self.add_step(Step::Shutdown);
    }
}

} // verus!
