//! Sessions played to their end: what a server that decides as a [`crate::session::Session`] does
//! meets every expectation of every scenario.
//!
//! The sample files may lie at any root. Where their paths are plain, the URIs are taken to be
//! those that name the paths. Where they are not, the scenarios with a workspace folder suppose
//! that the URI of a file is within that of its folder, and those with two files that the two have
//! two URIs.

use crate::answers::{empty_hover_view, location_view, range_view, report_view};
use crate::configuration::{unscoped_params, RequestView};
use crate::fixtures::{
    bar_hover_view, bar_location_view, interpreter_path, interpreter_script, site_packages_path,
    type_error_view,
};
use crate::json::JsonView;
use crate::laws::{
    law_added_folder, law_files_below_a_folder, law_foreign_settings, law_sample_module_reported,
    law_stand_ins_apart, law_stand_ins_differ, lemma_answered_folder, lemma_reconfigured,
    reconfigured,
};
use crate::path::{file_url, joined, lemma_plain_below, plain_char, plain_name, plain_path};
use crate::payloads::{
    display_item, hover_off_item, one_item, pylance_analysis_view, pylance_item, python_path_item,
    services_off_item,
};
use crate::scenarios::{
    diagnostics_default_workspace_steps,
    diagnostics_default_workspace_with_config_steps,
    diagnostics_file_in_excludes_steps,
    diagnostics_file_not_in_includes_steps,
    diagnostics_in_workspace_steps,
    did_change_configuration_steps,
    did_change_workspace_folder_steps,
    disable_language_services_steps,
    disable_language_services_default_workspace_steps,
    disable_specific_language_services_via_analysis_config_steps,
    disable_type_errors_config_steps,
    disable_type_errors_default_workspace_steps,
    disable_type_errors_language_services_still_work_steps,
    disable_type_errors_workspace_folder_steps,
    names,
    parse_pylance_configs_steps,
    pythonpath_change_steps,
    workspace_pythonpath_ignored_when_set_in_config_file_steps,
    SampleView,
};
use crate::script::StepView;
use crate::session::{project_of, DocumentView, SessionView};
use crate::settings::{DisplayTypeErrors, ProjectView, SettingsView};
use crate::value_laws::{asks_for, law_scoped_params};
use crate::workspace::{
    folder_uris, governs, lemma_governs_unique, with_folders, within, FolderView,
};
use vstd::prelude::*;

verus! {

/// What the analysis of Python files finds, by the path of a file and the script of the interpreter
/// that it asks for the packages which the file can import.
pub struct World {
    /// What a project's configuration says of a file.
    pub project: spec_fn(Seq<char>) -> ProjectView,
    /// The type errors of a file.
    pub errors: spec_fn(Seq<char>, Option<Seq<char>>) -> Seq<JsonView>,
    /// Where what stands at a position of a file is defined.
    pub definition: spec_fn(Seq<char>, int, int, Option<Seq<char>>) -> JsonView,
    /// What a hover over a position of a file describes.
    pub hover: spec_fn(Seq<char>, int, int) -> JsonView,
}

/// The two ends of a session.
pub struct Play {
    /// The folder that the client sees files from.
    pub root: Seq<char>,
    /// The scripts that stand for interpreters, by their paths.
    pub scripts: Map<Seq<char>, Seq<char>>,
    /// The server.
    pub session: SessionView,
    /// The server's latest request.
    pub request: Option<RequestView>,
    /// The server's latest answer, with its number.
    pub answer: Option<(int, JsonView)>,
}

impl Play {
    /// Before the first step.
    pub open spec fn start() -> Play {
        Play {
            root: Seq::empty(),
            scripts: Map::empty(),
            session: SessionView::begun(false, Seq::empty()),
            request: None,
            answer: None,
        }
    }

    /// The path of a file.
    pub open spec fn path(self, file: Seq<char>) -> Seq<char> {
        joined(self.root, file)
    }

    /// The URI of the file at `path`.
    pub open spec fn uri(path: Seq<char>) -> Seq<char> {
        file_url(path)->0
    }

    /// The script of the interpreter that tells which packages the file at `uri` can import.
    pub open spec fn script(self, uri: Seq<char>) -> Option<Seq<char>> {
        match self.session.interpreter(uri) {
            Some(path) => if self.scripts.dom().contains(path) {
                Some(self.scripts[path])
            } else {
                None
            },
            None => None,
        }
    }

    /// After an answer of the server.
    pub open spec fn answered(self, result: JsonView) -> Play {
        Play {
            session: self.session.numbered(),
            answer: Some((self.session.next_request, result)),
            ..self
        }
    }

    /// After a step of the client, and what the server does about it.
    pub open spec fn after(self, world: World, step: StepView) -> Play {
        match step {
            StepView::WriteInterpreter { path, script } => Play {
                scripts: self.scripts.insert(path, script),
                ..self
            },
            StepView::SetRoot { path } => Play { root: path, ..self },
            StepView::Initialize { workspace_folders, configuration } => Play {
                session: SessionView::initialized(
                    match workspace_folders {
                        Some(folders) => folders,
                        None => Seq::empty(),
                    },
                    configuration,
                ),
                ..self
            },
            StepView::DidOpen { file } => {
                let path = self.path(file);
                Play {
                    session: self.session.opened(Play::uri(path), (world.project)(path)),
                    ..self
                }
            },
            StepView::DidChangeConfiguration => Play {
                session: self.session.requested(),
                request: self.session.request(),
                ..self
            },
            StepView::SendNotification { method, params } => {
                let session = self.session.refoldered(params);
                if method == "workspace/didChangeWorkspaceFolders"@ {
                    Play { session: session.requested(), request: session.request(), ..self }
                } else {
                    self
                }
            },
            StepView::SendConfigurationResponse { id, result } => Play {
                session: self.session.responded(id, result),
                ..self
            },
            StepView::Definition { file, line, character } => {
                let path = self.path(file);
                let uri = Play::uri(path);
                let located = (world.definition)(
                    path,
                    line,
                    character,
                    self.script(uri),
                );
                self.answered(self.session.definition(uri, located))
            },
            StepView::Hover { file, line, character } => {
                let path = self.path(file);
                self.answered(
                    self.session.hover(Play::uri(path), (world.hover)(path, line, character)),
                )
            },
            StepView::Diagnostic { file } => {
                let path = self.path(file);
                let uri = Play::uri(path);
                let found = (world.errors)(path, self.script(uri));
                self.answered(self.session.diagnostics(uri, found))
            },
            _ => self,
        }
    }

    /// Whether the client finds what it expects.
    pub open spec fn meets(self, world: World, step: StepView) -> bool {
        match step {
            StepView::ExpectConfigurationRequest { id, scopes } => {
                &&& self.request matches Some(request)
                &&& request.id == id
                &&& match scopes {
                    Some(scopes) => {
                        let items = request.params().section("items"@).items();
                        &&& request.scopes == scopes
                        &&& items.len() == scopes.len()
                        &&& forall|i: int|
                            0 <= i < scopes.len() ==> asks_for(#[trigger] items[i], scopes[i])
                    },
                    None => {
                        &&& request.scopes.len() == 0
                        &&& request.params() == unscoped_params()
                    },
                }
            },
            StepView::ExpectRequest { method, id, params } => {
                &&& method == "workspace/configuration"@
                &&& self.request matches Some(request)
                &&& request.id == id
                &&& request.params() == params
            },
            StepView::ExpectResponse { id, result } => self.answer == Some((id, result)),
            StepView::ExpectPublishDiagnosticsErrorCount { path, count } => {
                let uri = Play::uri(path);
                let found = (world.errors)(path, self.script(uri));
                self.session.shown(uri, found).len() == count
            },
            StepView::ExpectDefinitionResponseFromRoot {
                file,
                start_line,
                start_character,
                end_line,
                end_character,
            } => {
                &&& self.answer matches Some((id, result))
                &&& result == location_view(
                    Play::uri(self.path(file)),
                    range_view(start_line, start_character, end_line, end_character),
                )
            },
            _ => true,
        }
    }
}

/// Whether the client finds what it expects from its step `i` on.
pub open spec fn plays_from(world: World, play: Play, steps: Seq<StepView>, i: int) -> bool
    decreases steps.len() - i,
{
    i >= steps.len() || (play.meets(world, steps[i]) && plays_from(
        world,
        play.after(world, steps[i]),
        steps,
        i + 1,
    ))
}

/// Whether the client finds what it expects all the way.
pub open spec fn plays(world: World, steps: Seq<StepView>) -> bool {
    plays_from(world, Play::start(), steps, 0)
}

/// Whether `folder_uri` is the URI of the folder at `folder`, and so reaches the file `file` in it.
/// Where the sample files lie at a path that is not plain, the URIs say themselves whether it does.
pub open spec fn reaches(
    sample: SampleView,
    folder_uri: Seq<char>,
    folder: Seq<char>,
    file: Seq<char>,
) -> bool {
    let path = joined(folder, file);
    if plain_path(sample.root) {
        names(folder_uri, folder) && names(Play::uri(path), path)
    } else {
        within(folder_uri, Play::uri(path))
    }
}

/// Whether the folder `basic` reaches `foo.py`.
pub open spec fn basic_reached(sample: SampleView) -> bool {
    reaches(sample, sample.basic_uri, joined(sample.root, "basic"@), "foo.py"@)
}

/// Whether the folder at the root reaches `type_errors.py`.
pub open spec fn root_reached(sample: SampleView) -> bool {
    reaches(sample, sample.root_uri, sample.root, "type_errors.py"@)
}

/// Whether the folder whose configuration file turns type errors off reaches `type_errors.py`.
pub open spec fn disabled_reached(sample: SampleView) -> bool {
    let folder = joined(sample.root, "disable_type_error_in_config"@);
    reaches(sample, sample.disabled_uri, folder, "type_errors.py"@)
}

/// Whether the files at two paths have two URIs. Where the paths are plain, their URIs are those
/// that name them.
pub open spec fn told_apart(one: Seq<char>, other: Seq<char>) -> bool {
    if plain_path(one) && plain_path(other) {
        names(Play::uri(one), one) && names(Play::uri(other), other)
    } else {
        Play::uri(one) != Play::uri(other)
    }
}

/// What the folder `basic` holds: `foo.py` uses the class `Bar`, which `bar.py` defines.
pub open spec fn basic_sample(world: World, sample: SampleView) -> bool {
    let foo = joined(joined(sample.root, "basic"@), "foo.py"@);
    &&& forall|script: Option<Seq<char>>|
        #[trigger] (world.definition)(foo, 6, 16, script) == bar_location_view(sample.bar_uri)
    &&& (world.hover)(foo, 6, 17) == bar_hover_view(sample.bar_uri)
}

/// What a file with the one type error holds, which its project includes.
pub open spec fn type_error_file(world: World, path: Seq<char>) -> bool {
    &&& (world.project)(path).included
    &&& forall|script: Option<Seq<char>>|
        #[trigger] (world.errors)(path, script) == seq![type_error_view()]
}

/// The file `type_errors.py` in the folder at the root, which belongs to no project with a
/// configuration file.
pub open spec fn loose_sample(world: World, sample: SampleView) -> bool {
    let file = joined(sample.root, "type_errors.py"@);
    &&& type_error_file(world, file)
    &&& !(world.project)(file).has_config
}

/// The file `type_errors.py` of the project whose configuration file turns type errors off.
pub open spec fn disabled_sample(world: World, sample: SampleView) -> bool {
    let file = joined(joined(sample.root, "disable_type_error_in_config"@), "type_errors.py"@);
    &&& type_error_file(world, file)
    &&& (world.project)(file).type_errors_disabled
}

/// The file `type_errors.py` of a project whose configuration file leaves type errors on.
pub open spec fn project_sample(world: World, sample: SampleView) -> bool {
    let file = joined(joined(sample.root, "tests_requiring_config"@), "type_errors.py"@);
    &&& type_error_file(world, file)
    &&& (world.project)(file).has_config
    &&& !(world.project)(file).type_errors_disabled
}

/// The two files of a project that includes the one at `inner` and not the one at `outer`.
pub open spec fn halved_sample(
    world: World,
    sample: SampleView,
    inner: Seq<char>,
    outer: Seq<char>,
) -> bool {
    let inside = joined(sample.root, inner);
    let outside = joined(sample.root, outer);
    &&& type_error_file(world, inside)
    &&& !(world.project)(outside).included
    &&& told_apart(inside, outside)
}

/// What the file `file` holds, which its project includes: it imports `custom_module.py` in the
/// folder `packages`. The module is found with an interpreter that reports that folder, and with no
/// other. Where it is not found, the import is a type error and is its own definition.
pub open spec fn import_sample(
    world: World,
    sample: SampleView,
    file: Seq<char>,
    packages: Seq<char>,
) -> bool {
    let foo = joined(sample.root, file);
    let folder = joined(sample.root, packages);
    let finder = interpreter_script(folder);
    &&& (world.project)(foo).included
    &&& forall|script: Option<Seq<char>>|
        (#[trigger] (world.errors)(foo, script)).len() == if script == Some(finder) {
            0int
        } else {
            1
        }
    &&& forall|script: Option<Seq<char>>|
        #[trigger] (world.definition)(foo, 5, 31, script) == if script == Some(finder) {
            location_view(Play::uri(joined(folder, "custom_module.py"@)), range_view(6, 6, 6, 17))
        } else {
            location_view(Play::uri(foo), range_view(5, 26, 5, 37))
        }
}

/// A server whose client has configuration and at most one workspace folder, when no request for
/// configuration is open.
pub struct Standing {
    /// The URI of the folder.
    pub folder: Option<Seq<char>>,
    /// The settings of the folder; those for files of no folder where there is none.
    pub settings: SettingsView,
    /// The files that the client has opened.
    pub documents: Seq<DocumentView>,
    /// The number of the client's next request.
    pub next_request: int,
    /// The number of the next request for configuration.
    pub next_configuration: int,
}

impl Standing {
    /// The server.
    pub open spec fn session(self) -> SessionView {
        SessionView {
            offered: true,
            folders: match self.folder {
                Some(uri) => seq![FolderView { name: "test"@, uri, settings: self.settings }],
                None => Seq::empty(),
            },
            default_settings: match self.folder {
                Some(uri) => SettingsView::initial(),
                None => self.settings,
            },
            documents: self.documents,
            pending: Seq::empty(),
            next_request: self.next_request,
            next_configuration: self.next_configuration,
        }
    }

    /// The folders that it asks the configuration of.
    pub open spec fn scopes(self) -> Seq<Seq<char>> {
        match self.folder {
            Some(uri) => seq![uri],
            None => Seq::empty(),
        }
    }

    /// The server when its client has just started the session.
    pub open spec fn started(folder: Option<Seq<char>>, next_configuration: int) -> Standing {
        Standing {
            folder,
            settings: SettingsView::initial(),
            documents: Seq::empty(),
            next_request: 2,
            next_configuration,
        }
    }

    /// The server after an answer of one item.
    pub open spec fn configured(self, item: JsonView) -> Standing {
        Standing {
            settings: self.settings.configured(item),
            next_configuration: self.next_configuration + 1,
            ..self
        }
    }

    /// The server after a request of the client.
    pub open spec fn numbered(self) -> Standing {
        Standing { next_request: self.next_request + 1, ..self }
    }

    /// The server after its client has opened a file.
    pub open spec fn opened(self, uri: Seq<char>, project: ProjectView) -> Standing {
        Standing { documents: self.documents.push(DocumentView { uri, project }), ..self }
    }

    /// Whether the settings count for the file at `uri`.
    pub open spec fn covers(self, uri: Seq<char>) -> bool {
        self.folder matches Some(folder) ==> within(folder, uri)
    }
}

proof fn lemma_configured(standing: Standing, item: JsonView)
    ensures
        standing.session().request() == Some(
            RequestView { id: standing.next_configuration, scopes: standing.scopes() },
        ),
        standing.session().requested().responded(standing.next_configuration, one_item(item))
            == standing.configured(item).session(),
{
    let session = standing.session();
    let after = reconfigured(session, one_item(item));
    lemma_reconfigured(session, one_item(item));
    assert(folder_uris(session.folders) =~= standing.scopes());
    if standing.folder is Some {
        lemma_answered_folder(session, 0, one_item(item).items());
    }
    assert(after.folders =~= standing.configured(item).session().folders);
}

proof fn lemma_settings_at(standing: Standing, uri: Seq<char>)
    requires
        standing.covers(uri),
    ensures
        standing.session().settings_at(uri) == standing.settings,
{
    let folders = standing.session().folders;
    if standing.folder is None {
        assert(!exists|i: int| governs(folders, uri, i));
    } else {
        assert(governs(folders, uri, 0));
        let chosen = choose|i: int| governs(folders, uri, i);
        lemma_governs_unique(folders, uri, chosen, 0);
    }
}

proof fn lemma_started(folder: Option<Seq<char>>)
    ensures
        ({
            let folders = match folder {
                Some(uri) => seq![("test"@, uri)],
                None => Seq::empty(),
            };
            let begun = Standing::started(folder, 1).session();
            &&& SessionView::begun(true, folders) == begun
            &&& begun.requested().responded(1, JsonView::Null) == Standing::started(
                folder,
                2,
            ).session()
        }),
{
    let folders = match folder {
        Some(uri) => seq![("test"@, uri)],
        None => Seq::empty(),
    };
    let begun = Standing::started(folder, 1).session();
    reveal_with_fuel(with_folders, 2);
    assert(SessionView::begun(true, folders).folders =~= begun.folders);
    lemma_reconfigured(begun, JsonView::Null);
    let after = reconfigured(begun, JsonView::Null);
    if folder is Some {
        lemma_answered_folder(begun, 0, Seq::empty());
    }
    assert(after.folders =~= begun.folders);
}

proof fn lemma_keys_differ()
    ensures
        "pyrefly"@ != "pythonPath"@,
        "displayTypeErrors"@ != "disableLanguageServices"@,
        "displayTypeErrors"@ != "disabledLanguageServices"@,
        "disableLanguageServices"@ != "disabledLanguageServices"@,
        "definition"@ != "hover"@,
        "force-on"@ != "force-off"@,
{
    reveal_strlit("pyrefly");
    reveal_strlit("pythonPath");
    reveal_strlit("displayTypeErrors");
    reveal_strlit("disableLanguageServices");
    reveal_strlit("disabledLanguageServices");
    reveal_strlit("definition");
    reveal_strlit("hover");
    reveal_strlit("force-on");
    reveal_strlit("force-off");
    assert("pyrefly"@.len() == 7);
    assert("pythonPath"@.len() == 10);
    assert("displayTypeErrors"@.len() == 17);
    assert("disableLanguageServices"@.len() == 23);
    assert("disabledLanguageServices"@.len() == 24);
    assert("definition"@.len() == 10);
    assert("hover"@.len() == 5);
    assert("force-on"@.len() == 8);
    assert("force-off"@.len() == 9);
}

/// What the answers of the scenarios do to the settings that they reach.
proof fn lemma_answers(settings: SettingsView, path: Seq<char>)
    ensures
        settings.configured(JsonView::object()) == settings,
        settings.configured(display_item("force-on"@)) == (SettingsView {
            display_type_errors: DisplayTypeErrors::ForceOn,
            ..settings
        }),
        settings.configured(display_item("force-off"@)) == (SettingsView {
            display_type_errors: DisplayTypeErrors::ForceOff,
            ..settings
        }),
        settings.configured(pylance_item("force-off"@)) == (SettingsView {
            display_type_errors: DisplayTypeErrors::ForceOff,
            ..settings
        }),
        settings.configured(services_off_item()) == (SettingsView {
            language_services_disabled: true,
            ..settings
        }),
        settings.configured(hover_off_item()) == (SettingsView {
            hover_disabled: true,
            ..settings
        }),
        settings.configured(python_path_item(path)) == (SettingsView {
            python_path: Some(path),
            ..settings
        }),
{
    lemma_keys_differ();
    let display = display_item("force-off"@);
    law_foreign_settings(settings, display, pylance_analysis_view());
}

/// The stand-ins for interpreters in two folders are two.
proof fn lemma_stand_ins_apart(root: Seq<char>, one: Seq<char>, other: Seq<char>)
    requires
        one != other,
        one.len() > 0,
        other.len() > 0,
        one[0] != '/',
        other[0] != '/',
        one.last() != '/',
        other.last() != '/',
    ensures
        interpreter_path(joined(root, one)) != interpreter_path(joined(root, other)),
{
    let a = joined(root, one);
    let b = joined(root, other);
    let n = a.len() - one.len();
    assert(a.last() == one.last());
    assert(b.last() == other.last());
    if a == b {
        assert(one =~= a.skip(n));
        assert(other =~= b.skip(n));
    }
    law_stand_ins_apart(a, b);
}

proof fn lemma_names_plain()
    ensures
        plain_name("basic"@),
        plain_name("foo.py"@),
        plain_name("type_errors.py"@),
        plain_name("disable_type_error_in_config"@),
{
    reveal_strlit("basic");
    reveal_strlit("foo.py");
    reveal_strlit("type_errors.py");
    reveal_strlit("disable_type_error_in_config");
    assert forall|i: int| 0 <= i < "basic"@.len() implies plain_char(
        #[trigger] "basic"@[i],
    ) && "basic"@[i] != '/' by {
        assert(
            i == 0 || i == 1 || i == 2 || i == 3 || i == 4
        );
    }
    assert forall|i: int| 0 <= i < "foo.py"@.len() implies plain_char(
        #[trigger] "foo.py"@[i],
    ) && "foo.py"@[i] != '/' by {
        assert(
            i == 0 || i == 1 || i == 2 || i == 3 || i == 4 || i == 5
        );
    }
    assert forall|i: int| 0 <= i < "type_errors.py"@.len() implies plain_char(
        #[trigger] "type_errors.py"@[i],
    ) && "type_errors.py"@[i] != '/' by {
        assert(
            i == 0 || i == 1 || i == 2 || i == 3 || i == 4 || i == 5 || i == 6 || i == 7
            || i == 8 || i == 9 || i == 10 || i == 11 || i == 12 || i == 13
        );
    }
    assert forall|i: int| 0 <= i < "disable_type_error_in_config"@.len() implies plain_char(
        #[trigger] "disable_type_error_in_config"@[i],
    ) && "disable_type_error_in_config"@[i] != '/' by {
        assert(
            i == 0 || i == 1 || i == 2 || i == 3 || i == 4 || i == 5 || i == 6 || i == 7
            || i == 8 || i == 9 || i == 10 || i == 11 || i == 12 || i == 13 || i == 14
            || i == 15 || i == 16 || i == 17 || i == 18 || i == 19 || i == 20 || i == 21
            || i == 22 || i == 23 || i == 24 || i == 25 || i == 26 || i == 27
        );
    }
}

/// A folder of the sample files reaches the files in it.
proof fn lemma_reaches(
    sample: SampleView,
    folder_uri: Seq<char>,
    folder: Seq<char>,
    file: Seq<char>,
)
    requires
        reaches(sample, folder_uri, folder, file),
        plain_path(sample.root) ==> plain_path(folder),
        plain_name(file),
    ensures
        within(folder_uri, Play::uri(joined(folder, file))),
{
    if plain_path(sample.root) {
        lemma_plain_below(folder, file);
        law_files_below_a_folder(folder_uri, folder, Play::uri(joined(folder, file)), file);
    }
}

/// The folder `basic` reaches `foo.py`.
proof fn lemma_basic_reaches(sample: SampleView)
    requires
        basic_reached(sample),
    ensures
        within(
            sample.basic_uri,
            Play::uri(joined(joined(sample.root, "basic"@), "foo.py"@)),
        ),
{
    lemma_names_plain();
    if plain_path(sample.root) {
        lemma_plain_below(sample.root, "basic"@);
    }
    lemma_reaches(sample, sample.basic_uri, joined(sample.root, "basic"@), "foo.py"@);
}

/// The folder at the root reaches `type_errors.py`.
proof fn lemma_root_reaches(sample: SampleView)
    requires
        root_reached(sample),
    ensures
        within(sample.root_uri, Play::uri(joined(sample.root, "type_errors.py"@))),
{
    lemma_names_plain();
    lemma_reaches(sample, sample.root_uri, sample.root, "type_errors.py"@);
}

/// The folder whose configuration file turns type errors off reaches `type_errors.py`.
proof fn lemma_disabled_reaches(sample: SampleView)
    requires
        disabled_reached(sample),
    ensures
        within(
            sample.disabled_uri,
            Play::uri(
                joined(joined(sample.root, "disable_type_error_in_config"@), "type_errors.py"@),
            ),
        ),
{
    let folder = joined(sample.root, "disable_type_error_in_config"@);
    lemma_names_plain();
    if plain_path(sample.root) {
        lemma_plain_below(sample.root, "disable_type_error_in_config"@);
    }
    lemma_reaches(sample, sample.disabled_uri, folder, "type_errors.py"@);
}

/// Two files that have two names have two URIs.
proof fn lemma_told_apart(root: Seq<char>, one: Seq<char>, other: Seq<char>)
    requires
        told_apart(joined(root, one), joined(root, other)),
        one.len() == other.len() > 0,
        one != other,
        one[0] != '/',
        other[0] != '/',
    ensures
        Play::uri(joined(root, one)) != Play::uri(joined(root, other)),
{
    let a = joined(root, one);
    let b = joined(root, other);
    let n = a.len() - one.len();
    if a == b {
        assert(one =~= a.skip(n));
        assert(other =~= b.skip(n));
    }
    if "file://"@ + a == "file://"@ + b {
        assert(a =~= ("file://"@ + a).skip("file://"@.len() as int));
        assert(b =~= ("file://"@ + b).skip("file://"@.len() as int));
    }
}

/// The folder that the client sees files from is set, and the session is started.
proof fn begin(
    world: World,
    steps: Seq<StepView>,
    i: int,
    play: Play,
    root: Seq<char>,
    folder: Option<Seq<char>>,
    item: Option<JsonView>,
) -> (next: (Play, Standing))
    requires
        0 <= i < steps.len() - 1,
        steps[i] == (StepView::SetRoot { path: root }),
        steps[i + 1] == (StepView::Initialize {
            workspace_folders: match folder {
                Some(uri) => Some(seq![("test"@, uri)]),
                None => None,
            },
            configuration: Some(
                match item {
                    Some(item) => Some(one_item(item)),
                    None => None,
                },
            ),
        }),
    ensures
        plays_from(world, play, steps, i) == plays_from(world, next.0, steps, i + 2),
        next.0.root == root,
        next.0.scripts == play.scripts,
        next.0.session == next.1.session(),
        next.1 == match item {
            Some(item) => Standing::started(folder, 1).configured(item),
            None => Standing::started(folder, 2),
        },
{
    reveal_with_fuel(plays_from, 3);
    lemma_started(folder);
    let standing = match item {
        Some(item) => Standing::started(folder, 1).configured(item),
        None => Standing::started(folder, 2),
    };
    if let Some(item) = item {
        lemma_configured(Standing::started(folder, 1), item);
    }
    (play.after(world, steps[i]).after(world, steps[i + 1]), standing)
}

/// A file is opened.
proof fn open_file(
    world: World,
    steps: Seq<StepView>,
    i: int,
    at: (Play, Standing),
    file: Seq<char>,
) -> (next: (Play, Standing))
    requires
        0 <= i < steps.len(),
        steps[i] == (StepView::DidOpen { file }),
        at.0.session == at.1.session(),
    ensures
        plays_from(world, at.0, steps, i) == plays_from(world, next.0, steps, i + 1),
        next.0.root == at.0.root,
        next.0.scripts == at.0.scripts,
        next.0.session == next.1.session(),
        ({
            let path = joined(at.0.root, file);
            next.1 == at.1.opened(Play::uri(path), (world.project)(path))
        }),
{
    let path = joined(at.0.root, file);
    (at.0.after(world, steps[i]), at.1.opened(Play::uri(path), (world.project)(path)))
}

/// The configuration changes: the server asks, and the client answers with one item.
proof fn round(
    world: World,
    steps: Seq<StepView>,
    i: int,
    at: (Play, Standing),
    item: JsonView,
) -> (next: (Play, Standing))
    requires
        0 <= i < steps.len() - 2,
        at.0.session == at.1.session(),
        steps[i] == StepView::DidChangeConfiguration,
        ({
            let id = at.1.next_configuration;
            let scopes = match at.1.folder {
                Some(uri) => Some(seq![uri]),
                None => None,
            };
            let params = unscoped_params();
            ||| steps[i + 1] == (StepView::ExpectConfigurationRequest { id, scopes })
            ||| at.1.folder is None && steps[i + 1] == (StepView::ExpectRequest {
                method: "workspace/configuration"@,
                id,
                params,
            })
        }),
        steps[i + 2] == (StepView::SendConfigurationResponse {
            id: at.1.next_configuration,
            result: one_item(item),
        }),
    ensures
        plays_from(world, at.0, steps, i) == plays_from(world, next.0, steps, i + 3),
        next.0.root == at.0.root,
        next.0.scripts == at.0.scripts,
        next.0.session == next.1.session(),
        next.1 == at.1.configured(item),
{
    reveal_with_fuel(plays_from, 4);
    lemma_configured(at.1, item);
    let asked = at.0.after(world, steps[i]);
    let expected = asked.after(world, steps[i + 1]);
    let request = RequestView { id: at.1.next_configuration, scopes: at.1.scopes() };
    if at.1.folder is Some {
        law_scoped_params(request);
    }
    assert(asked.meets(world, steps[i + 1]));
    assert(expected == asked);
    (expected.after(world, steps[i + 2]), at.1.configured(item))
}

/// The client asks, and expects `result`.
proof fn ask(
    world: World,
    steps: Seq<StepView>,
    i: int,
    at: (Play, Standing),
    result: JsonView,
) -> (next: (Play, Standing))
    requires
        0 <= i < steps.len() - 1,
        at.0.session == at.1.session(),
        steps[i + 1] == (StepView::ExpectResponse { id: at.1.next_request, result }),
        answers(world, at.0, steps[i], result),
    ensures
        plays_from(world, at.0, steps, i) == plays_from(world, next.0, steps, i + 2),
        next.0.root == at.0.root,
        next.0.scripts == at.0.scripts,
        next.0.session == next.1.session(),
        next.1 == at.1.numbered(),
{
    reveal_with_fuel(plays_from, 3);
    let asked = at.0.after(world, steps[i]);
    assert(asked == at.0.answered(result));
    (asked.after(world, steps[i + 1]), at.1.numbered())
}

/// Whether the server answers the request `step` with `result`.
spec fn answers(world: World, play: Play, step: StepView, result: JsonView) -> bool {
    match step {
        StepView::Definition { file, line, character } => {
            let path = play.path(file);
            let uri = Play::uri(path);
            let script = play.script(uri);
            result == play.session.definition(
                uri,
                (world.definition)(path, line, character, script),
            )
        },
        StepView::Hover { file, line, character } => {
            let path = play.path(file);
            result == play.session.hover(Play::uri(path), (world.hover)(path, line, character))
        },
        StepView::Diagnostic { file } => {
            let path = play.path(file);
            let uri = Play::uri(path);
            let found = (world.errors)(path, play.script(uri));
            result == play.session.diagnostics(uri, found)
        },
        _ => false,
    }
}

/// The server shows `count` errors in `file`, and then answers a request for a definition in it by
/// a location in `target`.
proof fn count_and_locate(
    world: World,
    steps: Seq<StepView>,
    i: int,
    at: (Play, Standing),
    file: Seq<char>,
    count: int,
    target: Seq<char>,
    range: (int, int, int, int),
) -> (next: (Play, Standing))
    requires
        0 <= i < steps.len() - 2,
        at.0.session == at.1.session(),
        ({
            let path = joined(at.0.root, file);
            let uri = Play::uri(path);
            let script = at.0.script(uri);
            let located = location_view(
                Play::uri(joined(at.0.root, target)),
                range_view(range.0, range.1, range.2, range.3),
            );
            &&& steps[i] == (StepView::ExpectPublishDiagnosticsErrorCount { path, count })
            &&& steps[i + 1] == (StepView::Definition { file, line: 5, character: 31 })
            &&& steps[i + 2] == (StepView::ExpectDefinitionResponseFromRoot {
                file: target,
                start_line: range.0,
                start_character: range.1,
                end_line: range.2,
                end_character: range.3,
            })
            &&& at.0.session.shown(uri, (world.errors)(path, script)).len() == count
            &&& at.0.session.definition(uri, (world.definition)(path, 5, 31, script))
                == located
        }),
    ensures
        plays_from(world, at.0, steps, i) == plays_from(world, next.0, steps, i + 3),
        next.0.root == at.0.root,
        next.0.scripts == at.0.scripts,
        next.0.session == next.1.session(),
        next.1 == at.1.numbered(),
{
    reveal_with_fuel(plays_from, 4);
    let asked = at.0.after(world, steps[i + 1]);
    assert(at.0.after(world, steps[i]) == at.0);
    (asked.after(world, steps[i + 2]), at.1.numbered())
}

/// The session ends.
proof fn end(world: World, steps: Seq<StepView>, i: int, at: (Play, Standing))
    requires
        i == steps.len() - 1,
        0 <= i,
        steps[i] == StepView::Shutdown,
    ensures
        plays_from(world, at.0, steps, i),
{
    reveal_with_fuel(plays_from, 2);
}

proof fn lemma_plain_names()
    ensures
        "custom_interpreter"@ != "bad_interpreter_bin"@,
        "custom_interpreter_config"@ != "bad_interpreter_bin"@,
        "custom_interpreter"@.len() > 0,
        "custom_interpreter_config"@.len() > 0,
        "bad_interpreter_bin"@.len() > 0,
        "custom_interpreter"@[0] != '/',
        "custom_interpreter_config"@[0] != '/',
        "bad_interpreter_bin"@[0] != '/',
        "custom_interpreter"@.last() != '/',
        "custom_interpreter_config"@.last() != '/',
        "bad_interpreter_bin"@.last() != '/',
{
    reveal_strlit("custom_interpreter");
    reveal_strlit("custom_interpreter_config");
    reveal_strlit("bad_interpreter_bin");
    assert("custom_interpreter"@.len() == 18);
    assert("custom_interpreter_config"@.len() == 25);
    assert("bad_interpreter_bin"@.len() == 19);
}

/// Two interpreters are set up, at two paths.
proof fn written(
    world: World,
    steps: Seq<StepView>,
    root: Seq<char>,
    one: Seq<char>,
    other: Seq<char>,
) -> (play: Play)
    requires
        steps.len() > 2,
        steps[0] == stand_in_written(joined(root, one)),
        steps[1] == stand_in_written(joined(root, other)),
        interpreter_path(joined(root, one)) != interpreter_path(joined(root, other)),
    ensures
        plays(world, steps) == plays_from(world, play, steps, 2),
        stands_at(play.scripts, joined(root, one)),
        stands_at(play.scripts, joined(root, other)),
{
    reveal_with_fuel(plays_from, 3);
    Play::start().after(world, steps[0]).after(world, steps[1])
}

/// The step that sets the stand-in for an interpreter up in `folder`.
spec fn stand_in_written(folder: Seq<char>) -> StepView {
    StepView::WriteInterpreter {
        path: interpreter_path(folder),
        script: interpreter_script(site_packages_path(folder)),
    }
}

/// Whether the stand-in for an interpreter in `folder` is there.
spec fn stands_at(scripts: Map<Seq<char>, Seq<char>>, folder: Seq<char>) -> bool {
    &&& scripts.dom().contains(interpreter_path(folder))
    &&& scripts[interpreter_path(folder)] == interpreter_script(site_packages_path(folder))
}

/// A client that goes by the scenario `did_change_configuration` finds what it expects.
pub proof fn did_change_configuration_plays(world: World, sample: SampleView)
    ensures
        plays(world, did_change_configuration_steps(sample)),
{
    let steps = did_change_configuration_steps(sample);
    let root = sample.root;
    let p0 = begin(world, steps, 0, Play::start(), root, Some(sample.root_uri), None);
    let p1 = round(world, steps, 2, p0, JsonView::object());
    end(world, steps, 5, p1);
}

/// A client that goes by the scenario `pythonpath_change` finds what it expects.
pub proof fn pythonpath_change_plays(world: World, sample: SampleView)
    requires
        import_sample(
            world,
            sample,
            "custom_interpreter/src/foo.py"@,
            "custom_interpreter/bin/site-packages"@,
        ),
        (world.project)(joined(sample.root, "custom_interpreter/src/foo.py"@)).interpreter is None,
    ensures
        plays(world, pythonpath_change_steps(sample)),
{
    let steps = pythonpath_change_steps(sample);
    let good = interpreter_path(joined(sample.root, "custom_interpreter"@));
    let bad = interpreter_path(joined(sample.root, "bad_interpreter_bin"@));
    let file = "custom_interpreter/src/foo.py"@;
    let module = "custom_interpreter/bin/site-packages/custom_module.py"@;
    let root = sample.root;
    lemma_plain_names();
    lemma_stand_ins_apart(root, "custom_interpreter"@, "bad_interpreter_bin"@);
    law_stand_ins_differ(
        joined(root, "custom_interpreter"@),
        joined(root, "bad_interpreter_bin"@),
    );
    law_sample_module_reported(root);
    let start = written(world, steps, root, "custom_interpreter"@, "bad_interpreter_bin"@);
    lemma_answers(SettingsView::initial(), bad);
    let p0 = begin(world, steps, 2, start, root, None, Some(display_item("force-on"@)));
    let uri = Play::uri(joined(root, file));
    let p1 = open_file(world, steps, 4, p0, "custom_interpreter/src/foo.py"@);
    lemma_settings_at(p1.1, uri);
    let p2 = count_and_locate(world, steps, 5, p1, file, 1, file, (5, 26, 5, 37));
    lemma_answers(p2.1.settings, good);
    let p3 = round(world, steps, 8, p2, python_path_item(good));
    lemma_settings_at(p3.1, uri);
    let p4 = count_and_locate(world, steps, 11, p3, file, 0, module, (6, 6, 6, 17));
    lemma_answers(p4.1.settings, bad);
    let p5 = round(world, steps, 14, p4, python_path_item(bad));
    lemma_settings_at(p5.1, uri);
    let p6 = count_and_locate(world, steps, 17, p5, file, 1, file, (5, 26, 5, 37));
    end(world, steps, 20, p6);
}

/// A client that goes by the scenario `workspace_pythonpath_ignored_when_set_in_config_file` finds
/// what it expects.
pub proof fn workspace_pythonpath_ignored_when_set_in_config_file_plays(
    world: World,
    sample: SampleView,
)
    requires
        import_sample(
            world,
            sample,
            "custom_interpreter_config/src/foo.py"@,
            "custom_interpreter_config/bin/site-packages"@,
        ),
        ({
            let foo = joined(sample.root, "custom_interpreter_config/src/foo.py"@);
            let found = interpreter_path(joined(sample.root, "custom_interpreter_config"@));
            (world.project)(foo).interpreter == Some(found)
        }),
    ensures
        plays(world, workspace_pythonpath_ignored_when_set_in_config_file_steps(sample)),
{
    let steps = workspace_pythonpath_ignored_when_set_in_config_file_steps(sample);
    let good = interpreter_path(joined(sample.root, "custom_interpreter_config"@));
    let bad = interpreter_path(joined(sample.root, "bad_interpreter_bin"@));
    let file = "custom_interpreter_config/src/foo.py"@;
    let module = "custom_interpreter_config/bin/site-packages/custom_module.py"@;
    let root = sample.root;
    lemma_plain_names();
    lemma_stand_ins_apart(root, "custom_interpreter_config"@, "bad_interpreter_bin"@);
    law_sample_module_reported(root);
    let start = written(world, steps, root, "custom_interpreter_config"@, "bad_interpreter_bin"@);
    lemma_answers(SettingsView::initial(), bad);
    let p0 = begin(world, steps, 2, start, root, None, Some(display_item("force-on"@)));
    let uri = Play::uri(joined(root, file));
    let p1 = open_file(world, steps, 4, p0, "custom_interpreter_config/src/foo.py"@);
    lemma_settings_at(p1.1, uri);
    let p2 = count_and_locate(world, steps, 5, p1, file, 0, module, (6, 6, 6, 17));
    lemma_answers(p2.1.settings, bad);
    let p3 = round(world, steps, 8, p2, python_path_item(bad));
    lemma_settings_at(p3.1, uri);
    let p4 = count_and_locate(world, steps, 11, p3, file, 0, module, (6, 6, 6, 17));
    end(world, steps, 14, p4);
}

/// A client that goes by the scenario `disable_language_services` finds what it expects.
pub proof fn disable_language_services_plays(world: World, sample: SampleView)
    requires
        basic_sample(world, sample),
        basic_reached(sample),
    ensures
        plays(world, disable_language_services_steps(sample)),
{
    let steps = disable_language_services_steps(sample);
    lemma_basic_reaches(sample);
    let root = joined(sample.root, "basic"@);
    let p0 = begin(world, steps, 0, Play::start(), root, Some(sample.basic_uri), None);
    let uri = Play::uri(joined(root, "foo.py"@));
    let p1 = open_file(world, steps, 2, p0, "foo.py"@);
    lemma_settings_at(p1.1, uri);
    let p2 = ask(world, steps, 3, p1, bar_location_view(sample.bar_uri));
    lemma_answers(p2.1.settings, root);
    let p3 = round(world, steps, 5, p2, services_off_item());
    lemma_settings_at(p3.1, uri);
    let p4 = ask(world, steps, 8, p3, JsonView::Array(Seq::empty()));
    end(world, steps, 10, p4);
}

/// A client that goes by the scenario `disable_language_services_default_workspace` finds what it
/// expects.
pub proof fn disable_language_services_default_workspace_plays(world: World, sample: SampleView)
    requires
        basic_sample(world, sample),
    ensures
        plays(world, disable_language_services_default_workspace_steps(sample)),
{
    let steps = disable_language_services_default_workspace_steps(sample);
    let root = joined(sample.root, "basic"@);
    let p0 = begin(world, steps, 0, Play::start(), root, None, None);
    let uri = Play::uri(joined(root, "foo.py"@));
    let p1 = open_file(world, steps, 2, p0, "foo.py"@);
    lemma_settings_at(p1.1, uri);
    let p2 = ask(world, steps, 3, p1, bar_location_view(sample.bar_uri));
    lemma_answers(p2.1.settings, root);
    let p3 = round(world, steps, 5, p2, services_off_item());
    lemma_settings_at(p3.1, uri);
    let p4 = ask(world, steps, 8, p3, JsonView::Array(Seq::empty()));
    end(world, steps, 10, p4);
}

/// A client that goes by the scenario `disable_specific_language_services_via_analysis_config`
/// finds what it expects.
pub proof fn disable_specific_language_services_via_analysis_config_plays(
    world: World,
    sample: SampleView,
)
    requires
        basic_sample(world, sample),
        basic_reached(sample),
    ensures
        plays(world, disable_specific_language_services_via_analysis_config_steps(sample)),
{
    let steps = disable_specific_language_services_via_analysis_config_steps(sample);
    lemma_basic_reaches(sample);
    let root = joined(sample.root, "basic"@);
    let p0 = begin(world, steps, 0, Play::start(), root, Some(sample.basic_uri), None);
    let uri = Play::uri(joined(root, "foo.py"@));
    let p1 = open_file(world, steps, 2, p0, "foo.py"@);
    lemma_settings_at(p1.1, uri);
    let p2 = ask(world, steps, 3, p1, bar_hover_view(sample.bar_uri));
    lemma_settings_at(p2.1, uri);
    let p3 = ask(world, steps, 5, p2, bar_location_view(sample.bar_uri));
    lemma_answers(p3.1.settings, root);
    let p4 = round(world, steps, 7, p3, hover_off_item());
    lemma_settings_at(p4.1, uri);
    let p5 = ask(world, steps, 10, p4, empty_hover_view());
    lemma_settings_at(p5.1, uri);
    let p6 = ask(world, steps, 12, p5, bar_location_view(sample.bar_uri));
    end(world, steps, 14, p6);
}

/// A client that goes by the scenario `did_change_workspace_folder` finds what it expects.
pub proof fn did_change_workspace_folder_plays(world: World, sample: SampleView)
    ensures
        plays(world, did_change_workspace_folder_steps(sample)),
{
    let steps = did_change_workspace_folder_steps(sample);
    let root = sample.root;
    let p0 = begin(world, steps, 0, Play::start(), root, None, None);
    let uri = sample.root_uri;
    let session = p0.0.session;
    law_added_folder(session, "test"@, uri);
    assert(folder_uris(session.folders).push(uri) =~= seq![uri]);
    law_scoped_params(RequestView { id: session.next_configuration, scopes: seq![uri] });
    reveal_with_fuel(plays_from, 5);
}

/// A client that goes by the scenario `disable_type_errors_language_services_still_work` finds what
/// it expects.
pub proof fn disable_type_errors_language_services_still_work_plays(
    world: World,
    sample: SampleView,
)
    requires
        basic_sample(world, sample),
        basic_reached(sample),
    ensures
        plays(world, disable_type_errors_language_services_still_work_steps(sample)),
{
    let steps = disable_type_errors_language_services_still_work_steps(sample);
    lemma_basic_reaches(sample);
    lemma_answers(SettingsView::initial(), sample.root);
    let root = joined(sample.root, "basic"@);
    let p0 = begin(
        world,
        steps,
        0,
        Play::start(),
        root,
        Some(sample.basic_uri),
        Some(display_item("force-off"@)),
    );
    let uri = Play::uri(joined(root, "foo.py"@));
    let p1 = open_file(world, steps, 2, p0, "foo.py"@);
    lemma_settings_at(p1.1, uri);
    let p2 = ask(world, steps, 3, p1, bar_hover_view(sample.bar_uri));
    end(world, steps, 5, p2);
}

/// A client that goes by the scenario `disable_type_errors_workspace_folder` finds what it expects.
pub proof fn disable_type_errors_workspace_folder_plays(world: World, sample: SampleView)
    requires
        loose_sample(world, sample),
        root_reached(sample),
    ensures
        plays(world, disable_type_errors_workspace_folder_steps(sample)),
{
    let steps = disable_type_errors_workspace_folder_steps(sample);
    lemma_root_reaches(sample);
    let root = sample.root;
    let p0 = begin(world, steps, 0, Play::start(), root, Some(sample.root_uri), None);
    let uri = Play::uri(joined(root, "type_errors.py"@));
    let p1 = open_file(world, steps, 2, p0, "type_errors.py"@);
    lemma_settings_at(p1.1, uri);
    let p2 = ask(world, steps, 3, p1, report_view(Seq::empty()));
    lemma_answers(p2.1.settings, root);
    let p3 = round(world, steps, 5, p2, display_item("force-off"@));
    lemma_settings_at(p3.1, uri);
    let p4 = ask(world, steps, 8, p3, report_view(Seq::empty()));
    lemma_answers(p4.1.settings, root);
    let p5 = round(world, steps, 10, p4, display_item("force-on"@));
    lemma_settings_at(p5.1, uri);
    let p6 = ask(world, steps, 13, p5, report_view(seq![type_error_view()]));
    end(world, steps, 15, p6);
}

/// A client that goes by the scenario `disable_type_errors_default_workspace` finds what it
/// expects.
pub proof fn disable_type_errors_default_workspace_plays(world: World, sample: SampleView)
    requires
        loose_sample(world, sample),
    ensures
        plays(world, disable_type_errors_default_workspace_steps(sample)),
{
    let steps = disable_type_errors_default_workspace_steps(sample);
    let root = sample.root;
    let p0 = begin(world, steps, 0, Play::start(), root, None, None);
    let uri = Play::uri(joined(root, "type_errors.py"@));
    let p1 = open_file(world, steps, 2, p0, "type_errors.py"@);
    lemma_settings_at(p1.1, uri);
    let p2 = ask(world, steps, 3, p1, report_view(Seq::empty()));
    lemma_answers(p2.1.settings, root);
    let p3 = round(world, steps, 5, p2, display_item("force-off"@));
    lemma_settings_at(p3.1, uri);
    let p4 = ask(world, steps, 8, p3, report_view(Seq::empty()));
    lemma_answers(p4.1.settings, root);
    let p5 = round(world, steps, 10, p4, display_item("force-on"@));
    lemma_settings_at(p5.1, uri);
    let p6 = ask(world, steps, 13, p5, report_view(seq![type_error_view()]));
    end(world, steps, 15, p6);
}

/// A client that goes by the scenario `disable_type_errors_config` finds what it expects.
pub proof fn disable_type_errors_config_plays(world: World, sample: SampleView)
    requires
        disabled_sample(world, sample),
        disabled_reached(sample),
    ensures
        plays(world, disable_type_errors_config_steps(sample)),
{
    let steps = disable_type_errors_config_steps(sample);
    lemma_disabled_reaches(sample);
    let root = joined(sample.root, "disable_type_error_in_config"@);
    let p0 = begin(world, steps, 0, Play::start(), root, Some(sample.disabled_uri), None);
    let uri = Play::uri(joined(root, "type_errors.py"@));
    let p1 = open_file(world, steps, 2, p0, "type_errors.py"@);
    lemma_settings_at(p1.1, uri);
    let p2 = ask(world, steps, 3, p1, report_view(Seq::empty()));
    lemma_answers(p2.1.settings, root);
    let p3 = round(world, steps, 5, p2, display_item("force-on"@));
    lemma_settings_at(p3.1, uri);
    let p4 = ask(world, steps, 8, p3, report_view(seq![type_error_view()]));
    end(world, steps, 10, p4);
}

/// A client that goes by the scenario `parse_pylance_configs` finds what it expects.
pub proof fn parse_pylance_configs_plays(world: World, sample: SampleView)
    ensures
        plays(world, parse_pylance_configs_steps(sample)),
{
    let steps = parse_pylance_configs_steps(sample);
    let root = sample.root;
    let p0 = begin(world, steps, 0, Play::start(), root, None, None);
    let uri = Play::uri(joined(root, "type_errors.py"@));
    let p1 = open_file(world, steps, 2, p0, "type_errors.py"@);
    lemma_settings_at(p1.1, uri);
    lemma_answers(p1.1.settings, root);
    let p2 = round(world, steps, 3, p1, pylance_item("force-off"@));
    lemma_settings_at(p2.1, uri);
    let p3 = ask(world, steps, 6, p2, report_view(Seq::empty()));
    end(world, steps, 8, p3);
}

/// A client that goes by the scenario `diagnostics_default_workspace` finds what it expects.
pub proof fn diagnostics_default_workspace_plays(world: World, sample: SampleView)
    requires
        loose_sample(world, sample),
    ensures
        plays(world, diagnostics_default_workspace_steps(sample)),
{
    let steps = diagnostics_default_workspace_steps(sample);
    let root = sample.root;
    let p0 = begin(world, steps, 0, Play::start(), root, None, None);
    let uri = Play::uri(joined(root, "type_errors.py"@));
    let p1 = open_file(world, steps, 2, p0, "type_errors.py"@);
    lemma_settings_at(p1.1, uri);
    let p2 = ask(world, steps, 3, p1, report_view(Seq::empty()));
    lemma_answers(p2.1.settings, root);
    let p3 = round(world, steps, 5, p2, display_item("force-on"@));
    lemma_settings_at(p3.1, uri);
    let p4 = ask(world, steps, 8, p3, report_view(seq![type_error_view()]));
    end(world, steps, 10, p4);
}

/// A client that goes by the scenario `diagnostics_default_workspace_with_config` finds what it
/// expects.
pub proof fn diagnostics_default_workspace_with_config_plays(world: World, sample: SampleView)
    requires
        project_sample(world, sample),
    ensures
        plays(world, diagnostics_default_workspace_with_config_steps(sample)),
{
    let steps = diagnostics_default_workspace_with_config_steps(sample);
    let root = joined(sample.root, "tests_requiring_config"@);
    let p0 = begin(world, steps, 0, Play::start(), root, None, None);
    let uri = Play::uri(joined(root, "type_errors.py"@));
    let p1 = open_file(world, steps, 2, p0, "type_errors.py"@);
    lemma_settings_at(p1.1, uri);
    let p2 = ask(world, steps, 3, p1, report_view(seq![type_error_view()]));
    lemma_answers(p2.1.settings, root);
    let p3 = round(world, steps, 5, p2, display_item("force-off"@));
    lemma_settings_at(p3.1, uri);
    let p4 = ask(world, steps, 8, p3, report_view(Seq::empty()));
    end(world, steps, 10, p4);
}

/// A client that goes by the scenario `diagnostics_in_workspace` finds what it expects.
pub proof fn diagnostics_in_workspace_plays(world: World, sample: SampleView)
    requires
        loose_sample(world, sample),
        root_reached(sample),
    ensures
        plays(world, diagnostics_in_workspace_steps(sample)),
{
    let steps = diagnostics_in_workspace_steps(sample);
    lemma_root_reaches(sample);
    let root = sample.root;
    let p0 = begin(world, steps, 0, Play::start(), root, Some(sample.root_uri), None);
    let uri = Play::uri(joined(root, "type_errors.py"@));
    let p1 = open_file(world, steps, 2, p0, "type_errors.py"@);
    lemma_settings_at(p1.1, uri);
    let p2 = ask(world, steps, 3, p1, report_view(Seq::empty()));
    lemma_answers(p2.1.settings, root);
    let p3 = round(world, steps, 5, p2, display_item("force-on"@));
    lemma_settings_at(p3.1, uri);
    let p4 = ask(world, steps, 8, p3, report_view(seq![type_error_view()]));
    end(world, steps, 10, p4);
}

/// A client that goes by the scenario `diagnostics_file_not_in_includes` finds what it expects.
pub proof fn diagnostics_file_not_in_includes_plays(world: World, sample: SampleView)
    requires
        halved_sample(
            world,
            sample,
            "diagnostics_file_not_in_includes/type_errors_include.py"@,
            "diagnostics_file_not_in_includes/type_errors_exclude.py"@,
        ),
    ensures
        plays(world, diagnostics_file_not_in_includes_steps(sample)),
{
    let steps = diagnostics_file_not_in_includes_steps(sample);
    let inner_file = "diagnostics_file_not_in_includes/type_errors_include.py"@;
    let outer_file = "diagnostics_file_not_in_includes/type_errors_exclude.py"@;
    reveal_strlit("diagnostics_file_not_in_includes/type_errors_include.py");
    reveal_strlit("diagnostics_file_not_in_includes/type_errors_exclude.py");
    assert(inner_file[45] == 'i' && outer_file[45] == 'e');
    lemma_told_apart(sample.root, inner_file, outer_file);
    lemma_answers(SettingsView::initial(), sample.root);
    let root = sample.root;
    let p0 = begin(world, steps, 0, Play::start(), root, None, Some(display_item("force-on"@)));
    let inner = Play::uri(joined(root, "diagnostics_file_not_in_includes/type_errors_include.py"@));
    let outer = Play::uri(joined(root, "diagnostics_file_not_in_includes/type_errors_exclude.py"@));
    let p1 = open_file(
        world,
        steps,
        2,
        p0,
        "diagnostics_file_not_in_includes/type_errors_exclude.py"@,
    );
    let p2 = open_file(
        world,
        steps,
        3,
        p1,
        "diagnostics_file_not_in_includes/type_errors_include.py"@,
    );
    assert(p2.1.documents.drop_last() =~= p1.1.documents);
    assert(project_of(p1.1.documents, outer) is Some);
    assert(project_of(p2.1.documents, outer) == project_of(p1.1.documents, outer));
    lemma_settings_at(p2.1, inner);
    let p3 = ask(world, steps, 4, p2, report_view(seq![type_error_view()]));
    lemma_settings_at(p3.1, outer);
    let p4 = ask(world, steps, 6, p3, report_view(Seq::empty()));
    end(world, steps, 8, p4);
}

/// A client that goes by the scenario `diagnostics_file_in_excludes` finds what it expects.
pub proof fn diagnostics_file_in_excludes_plays(world: World, sample: SampleView)
    requires
        halved_sample(
            world,
            sample,
            "diagnostics_file_in_excludes/type_errors_include.py"@,
            "diagnostics_file_in_excludes/type_errors_exclude.py"@,
        ),
    ensures
        plays(world, diagnostics_file_in_excludes_steps(sample)),
{
    let steps = diagnostics_file_in_excludes_steps(sample);
    let inner_file = "diagnostics_file_in_excludes/type_errors_include.py"@;
    let outer_file = "diagnostics_file_in_excludes/type_errors_exclude.py"@;
    reveal_strlit("diagnostics_file_in_excludes/type_errors_include.py");
    reveal_strlit("diagnostics_file_in_excludes/type_errors_exclude.py");
    assert(inner_file[41] == 'i' && outer_file[41] == 'e');
    lemma_told_apart(sample.root, inner_file, outer_file);
    lemma_answers(SettingsView::initial(), sample.root);
    let root = sample.root;
    let p0 = begin(world, steps, 0, Play::start(), root, None, Some(display_item("force-on"@)));
    let inner = Play::uri(joined(root, "diagnostics_file_in_excludes/type_errors_include.py"@));
    let outer = Play::uri(joined(root, "diagnostics_file_in_excludes/type_errors_exclude.py"@));
    let p1 = open_file(world, steps, 2, p0, "diagnostics_file_in_excludes/type_errors_exclude.py"@);
    let p2 = open_file(world, steps, 3, p1, "diagnostics_file_in_excludes/type_errors_include.py"@);
    assert(p2.1.documents.drop_last() =~= p1.1.documents);
    assert(project_of(p1.1.documents, outer) is Some);
    assert(project_of(p2.1.documents, outer) == project_of(p1.1.documents, outer));
    lemma_settings_at(p2.1, inner);
    let p3 = ask(world, steps, 4, p2, report_view(seq![type_error_view()]));
    lemma_settings_at(p3.1, outer);
    let p4 = ask(world, steps, 6, p3, report_view(Seq::empty()));
    end(world, steps, 8, p4);
}

} // verus!
