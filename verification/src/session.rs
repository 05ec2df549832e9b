//! A session of the server with one client.
//!
//! The analysis of Python files happens elsewhere: a session is handed what it finds, and decides
//! what the client gets to see of it.
//!
//! A session is a model of a server. Its clients' scenarios, in [`crate::scenarios`], settle most
//! of what it decides. They are silent on the following points, which are this library's choice and
//! no fact about any other server:
//! - the innermost of the folders that a file is within governs it;
//! - a setting that an answer does not give, or gives in no known form, stays as it was;
//! - the items of an answer go to the folders by their place, and an answer that no request waits
//!   for changes nothing;
//! - the one item without a scope is asked for only where there are no folders, and a client that
//!   has no configuration is not asked at all;
//! - two folders are never at the same URI, and those removed go before those added come;
//! - of a file that is not open no type error is shown;
//! - `disabledLanguageServices` turns off a definition as it does a hover.

use crate::answers::{empty_hover, empty_hover_view, nowhere, report, report_view};
use crate::configuration::{
    answer_default, answer_folders, answered_default, answered_folders, request_ids, request_index,
    request_views, scopes_of, texts, ConfigurationRequest, RequestView,
};
use crate::json::{json_views, Json, JsonView};
use crate::path::option_view;
use crate::settings::{copy_text, Project, ProjectView, Settings, SettingsView};
use crate::workspace::{
    add_entries, add_folder, distinct, folder_uris, folder_views, lemma_filter_distinct,
    lemma_with_entries_distinct, lemma_with_folders_distinct, named_by, remove_entries, settings_at,
    settings_for, with_entries, with_folders, without_folders, Folder, FolderView,
};
use vstd::prelude::*;

verus! {

/// How a client starts a session.
pub struct InitializeSettings {
    /// The client's workspace folders, each by its name and its URI.
    pub workspace_folders: Option<Vec<(String, String)>>,
    /// Nothing where the client has no configuration to ask for; else what it answers when it is
    /// first asked, which may be nothing.
    pub configuration: Option<Option<Json>>,
}

/// A file that the client has opened.
#[derive(Debug)]
pub struct Document {
    pub uri: String,
    pub project: Project,
}

/// A file that the client has opened.
pub struct DocumentView {
    pub uri: Seq<char>,
    pub project: ProjectView,
}

impl View for Document {
    type V = DocumentView;

    open spec fn view(&self) -> DocumentView {
        DocumentView { uri: self.uri@, project: self.project@ }
    }
}

/// The views of documents, one by one.
pub open spec fn document_views(documents: Seq<Document>) -> Seq<DocumentView> {
    Seq::new(documents.len(), |i: int| documents[i]@)
}

/// The answer to a client's request.
#[derive(Debug)]
pub struct Response {
    /// The number of the request.
    pub id: i32,
    /// The answer.
    pub result: Json,
}

/// A session of the server with one client.
#[derive(Debug)]
pub struct Session {
    offered: bool,
    folders: Vec<Folder>,
    default_settings: Settings,
    documents: Vec<Document>,
    pending: Vec<ConfigurationRequest>,
    next_request: i32,
    next_configuration: i32,
}

/// A session of the server with one client.
pub struct SessionView {
    /// Whether the client has configuration to ask for.
    pub offered: bool,
    /// The workspace folders.
    pub folders: Seq<FolderView>,
    /// The settings for files of no folder.
    pub default_settings: SettingsView,
    /// The files that the client has opened, the latest last.
    pub documents: Seq<DocumentView>,
    /// The requests for configuration that the client has not answered.
    pub pending: Seq<RequestView>,
    /// The number of the client's next request.
    pub next_request: int,
    /// The number of the next request for configuration.
    pub next_configuration: int,
}

impl View for Session {
    type V = SessionView;

    closed spec fn view(&self) -> SessionView {
        SessionView {
            offered: self.offered,
            folders: folder_views(self.folders@),
            default_settings: self.default_settings@,
            documents: document_views(self.documents@),
            pending: request_views(self.pending@),
            next_request: self.next_request as int,
            next_configuration: self.next_configuration as int,
        }
    }
}

/// The project of the file at `uri`, as it was when the file was last opened.
pub open spec fn project_of(documents: Seq<DocumentView>, uri: Seq<char>) -> Option<ProjectView>
    decreases documents.len(),
{
    if documents.len() == 0 {
        None
    } else if documents.last().uri == uri {
        Some(documents.last().project)
    } else {
        project_of(documents.drop_last(), uri)
    }
}

impl SessionView {
    /// No two folders are at the same URI, the numbers of the unanswered requests go up and have
    /// all been given out, and a client without configuration has not been asked for any.
    pub open spec fn valid(self) -> bool {
        &&& distinct(self.folders)
        &&& forall|i: int, j: int|
            0 <= i < j < self.pending.len() ==> (#[trigger] self.pending[i]).id < (
            #[trigger] self.pending[j]).id
        &&& forall|i: int|
            0 <= i < self.pending.len() ==> (#[trigger] self.pending[i]).id
                < self.next_configuration
        &&& !self.offered ==> self.pending.len() == 0
    }

    /// A session that has just begun. The number 1 went to the request that began it.
    pub open spec fn begun(offered: bool, folders: Seq<(Seq<char>, Seq<char>)>) -> SessionView {
        SessionView {
            offered,
            folders: with_folders(Seq::empty(), folders, folders.len()),
            default_settings: SettingsView::initial(),
            documents: Seq::empty(),
            pending: Seq::empty(),
            next_request: 2,
            next_configuration: 1,
        }
    }

    /// The session of a client that has `folders` and, where it has configuration to ask for,
    /// answers the first request for it with `configuration`.
    pub open spec fn initialized(
        folders: Seq<(Seq<char>, Seq<char>)>,
        configuration: Option<Option<JsonView>>,
    ) -> SessionView {
        match configuration {
            None => SessionView::begun(false, folders),
            Some(answer) => SessionView::begun(true, folders).requested().responded(
                1,
                match answer {
                    Some(result) => result,
                    None => JsonView::Null,
                },
            ),
        }
    }

    /// The request for configuration that the server sends when it learns that the configuration
    /// has changed: one for every folder, or for files of no folder where there are no folders.
    pub open spec fn request(self) -> Option<RequestView> {
        if self.offered {
            Some(RequestView { id: self.next_configuration, scopes: folder_uris(self.folders) })
        } else {
            None
        }
    }

    /// The session after that request.
    pub open spec fn requested(self) -> SessionView {
        match self.request() {
            Some(request) => SessionView {
                pending: self.pending.push(request),
                next_configuration: self.next_configuration + 1,
                ..self
            },
            None => self,
        }
    }

    /// The place of the request number `id` among those that the client has not answered.
    pub open spec fn awaited(self, id: int) -> Option<int> {
        request_ids(self.pending).index_of_first(id)
    }

    /// The session after the client has answered the request number `id`. An answer to no request
    /// changes nothing.
    pub open spec fn responded(self, id: int, result: JsonView) -> SessionView {
        match self.awaited(id) {
            Some(i) => SessionView {
                folders: answered_folders(self.folders, self.pending[i].scopes, result.items()),
                default_settings: answered_default(
                    self.default_settings,
                    self.pending[i].scopes,
                    result.items(),
                ),
                pending: self.pending.remove(i),
                ..self
            },
            None => self,
        }
    }

    /// The session after the client has changed its workspace folders: those removed are gone,
    /// and those added are there.
    pub open spec fn refoldered(self, params: JsonView) -> SessionView {
        let event = params.section("event"@);
        let added = event.section("added"@).items();
        let kept = without_folders(self.folders, event.section("removed"@).items());
        SessionView { folders: with_entries(kept, added, added.len()), ..self }
    }

    /// The session after the client has opened the file at `uri`.
    pub open spec fn opened(self, uri: Seq<char>, project: ProjectView) -> SessionView {
        SessionView { documents: self.documents.push(DocumentView { uri, project }), ..self }
    }

    /// The session after a request of the client has got its number.
    pub open spec fn numbered(self) -> SessionView {
        SessionView { next_request: self.next_request + 1, ..self }
    }

    /// The settings that count for the file at `uri`.
    pub open spec fn settings_at(self, uri: Seq<char>) -> SettingsView {
        settings_for(self.folders, self.default_settings, uri)
    }

    /// The answer to a request for a definition in the file at `uri` that is at `located`.
    pub open spec fn definition(self, uri: Seq<char>, located: JsonView) -> JsonView {
        if self.settings_at(uri).serves_definition() {
            located
        } else {
            JsonView::Array(Seq::empty())
        }
    }

    /// The answer to a request to hover in the file at `uri` over what `hovered` describes.
    pub open spec fn hover(self, uri: Seq<char>, hovered: JsonView) -> JsonView {
        if self.settings_at(uri).serves_hover() {
            hovered
        } else {
            empty_hover_view()
        }
    }

    /// What is shown of the type errors `found` in the file at `uri`: all of them, or none.
    pub open spec fn shown(self, uri: Seq<char>, found: Seq<JsonView>) -> Seq<JsonView> {
        match project_of(self.documents, uri) {
            Some(project) => if self.settings_at(uri).shows_type_errors(project) {
                found
            } else {
                Seq::empty()
            },
            None => Seq::empty(),
        }
    }

    /// The answer to a request for the diagnostics of the file at `uri`.
    pub open spec fn diagnostics(self, uri: Seq<char>, found: Seq<JsonView>) -> JsonView {
        report_view(self.shown(uri, found))
    }

    /// The interpreter that tells which packages the file at `uri` can import.
    pub open spec fn interpreter(self, uri: Seq<char>) -> Option<Seq<char>> {
        match project_of(self.documents, uri) {
            Some(project) => self.settings_at(uri).interpreter(project),
            None => self.settings_at(uri).python_path,
        }
    }
}

impl SessionView {
    /// A session is valid when it begins.
    pub proof fn lemma_begun_valid(offered: bool, folders: Seq<(Seq<char>, Seq<char>)>)
        ensures
            SessionView::begun(offered, folders).valid(),
    {
        lemma_with_folders_distinct(Seq::empty(), folders, folders.len());
    }

    /// A request for configuration keeps a session valid.
    pub proof fn lemma_requested_valid(self)
        requires
            self.valid(),
        ensures
            self.requested().valid(),
    {
    }

    /// An answer with configuration keeps a session valid.
    pub proof fn lemma_responded_valid(self, id: int, result: JsonView)
        requires
            self.valid(),
        ensures
            self.responded(id, result).valid(),
    {
        request_ids(self.pending).index_of_first_ensures(id);
        if let Some(i) = self.awaited(id) {
            let after = self.responded(id, result);
            assert forall|j: int| 0 <= j < after.folders.len() implies (
            #[trigger] after.folders[j]).uri == self.folders[j].uri by {}
            assert forall|j: int| 0 <= j < after.pending.len() implies (#[trigger] after.pending[j])
                == self.pending[if j < i { j } else { j + 1 }] by {}
        }
    }

    /// A change of the workspace folders keeps a session valid.
    pub proof fn lemma_refoldered_valid(self, params: JsonView)
        requires
            self.valid(),
        ensures
            self.refoldered(params).valid(),
    {
        let event = params.section("event"@);
        let added = event.section("added"@).items();
        let removed = event.section("removed"@).items();
        lemma_filter_distinct(
            self.folders,
            |folder: FolderView| !named_by(removed, folder.uri),
        );
        lemma_with_entries_distinct(
            without_folders(self.folders, removed),
            added,
            added.len(),
        );
    }
}

/// The names and URIs of folders, one by one.
pub open spec fn pair_views(pairs: Seq<(String, String)>) -> Seq<(Seq<char>, Seq<char>)> {
    Seq::new(pairs.len(), |i: int| (pairs[i].0@, pairs[i].1@))
}

/// What a client answers when it is first asked for configuration, where it has any.
pub open spec fn first_answer(configuration: Option<Option<Json>>) -> Option<Option<JsonView>> {
    match configuration {
        Some(Some(result)) => Some(Some(result@)),
        Some(None) => Some(None),
        None => None,
    }
}

impl InitializeSettings {
    /// The names and URIs of the client's workspace folders.
    pub open spec fn folder_pairs(self) -> Seq<(Seq<char>, Seq<char>)> {
        match self.workspace_folders {
            Some(pairs) => pair_views(pairs@),
            None => Seq::empty(),
        }
    }

    /// The client's first answer.
    pub open spec fn answer(self) -> Option<Option<JsonView>> {
        first_answer(self.configuration)
    }
}

/// Where the file at `uri` was last opened.
fn find_document<'a>(documents: &'a Vec<Document>, uri: &str) -> (found: Option<&'a Document>)
    ensures
        match found {
            Some(document) => project_of(document_views(documents@), uri@) == Some(
                document.project@,
            ),
            None => project_of(document_views(documents@), uri@) is None,
        },
{
    let ghost views = document_views(documents@);
    let wanted = uri.to_owned();
    let mut i: usize = documents.len();
    assert(views.take(i as int) =~= views);
    while i > 0
        invariant
            i <= documents@.len(),
            wanted@ == uri@,
            views == document_views(documents@),
            project_of(views, uri@) == project_of(views.take(i as int), uri@),
        decreases i,
    {
        assert(views.take(i as int).drop_last() =~= views.take(i - 1));
        assert(views.take(i as int).last() == views[i - 1]);
        i = i - 1;
        if documents[i].uri == wanted {
            return Some(&documents[i]);
        }
    }
    None
}

impl Session {
    /// Starts a session.
    pub fn initialize(settings: InitializeSettings) -> (session: Session)
        ensures
            session@ == SessionView::initialized(settings.folder_pairs(), settings.answer()),
            session@.valid(),
    {
        let ghost pairs = settings.folder_pairs();
        let mut folders: Vec<Folder> = Vec::new();
        assert(folder_views(folders@) =~= Seq::<FolderView>::empty());
        if let Some(given) = &settings.workspace_folders {
            let mut i: usize = 0;
            while i < given.len()
                invariant
                    i <= given@.len(),
                    pairs == pair_views(given@),
                    folder_views(folders@) == with_folders(Seq::empty(), pairs, i as nat),
                decreases given@.len() - i,
            {
                add_folder(&mut folders, given[i].0.clone(), given[i].1.clone());
                i = i + 1;
            }
        }
        let offered = settings.configuration.is_some();
        let mut session = Session {
            offered,
            folders,
            default_settings: Settings::initial(),
            documents: Vec::new(),
            pending: Vec::new(),
            next_request: 2,
            next_configuration: 1,
        };
        proof {
            assert(session@.documents =~= Seq::<DocumentView>::empty());
            assert(session@.pending =~= Seq::<RequestView>::empty());
            assert(session@ == SessionView::begun(offered, pairs));
            SessionView::lemma_begun_valid(offered, pairs);
        }
        if let Some(answer) = settings.configuration {
            session.did_change_configuration();
            let result = match answer {
                Some(result) => result,
                None => Json::Null,
            };
            session.send_configuration_response(1, &result);
        }
        session
    }

    /// Takes note that the client's configuration has changed. Returns the request for it, which
    /// goes to a client that has configuration to ask for.
    pub fn did_change_configuration(&mut self) -> (request: Option<ConfigurationRequest>)
        requires
            old(self)@.next_configuration < i32::MAX,
        ensures
            match request {
                Some(request) => old(self)@.request() == Some(request@),
                None => old(self)@.request() is None,
            },
            final(self)@ == old(self)@.requested(),
            old(self)@.valid() ==> final(self)@.valid(),
    {
        proof {
            if self@.valid() {
                self@.lemma_requested_valid();
            }
        }
        if !self.offered {
            return None;
        }
        let ghost before = self@;
        let id: i32 = self.next_configuration;
        let kept = ConfigurationRequest { id, scopes: scopes_of(&self.folders) };
        let sent = ConfigurationRequest { id, scopes: scopes_of(&self.folders) };
        let ghost view = kept@;
        self.pending.push(kept);
        self.next_configuration = id + 1;
        assert(self@.pending =~= before.pending.push(view));
        Some(sent)
    }

    /// Takes the client's answer to the request for configuration number `id`. Returns whether it
    /// was awaited; one that was not changes nothing.
    pub fn send_configuration_response(&mut self, id: i32, result: &Json) -> (awaited: bool)
        ensures
            awaited == old(self)@.awaited(id as int) is Some,
            final(self)@ == old(self)@.responded(id as int, result@),
            old(self)@.valid() ==> final(self)@.valid(),
    {
        let ghost before = self@;
        proof {
            if self@.valid() {
                self@.lemma_responded_valid(id as int, result@);
            }
        }
        match request_index(&self.pending, id) {
            Some(i) => {
                proof {
                    request_ids(before.pending).index_of_first_ensures(id as int);
                }
                let request = self.pending.remove(i);
                assert(self@.pending =~= before.pending.remove(i as int));
                answer_folders(&mut self.folders, &request.scopes, result);
                self.default_settings = answer_default(
                    &self.default_settings,
                    &request.scopes,
                    result,
                );
                assert(texts(request.scopes@) == before.pending[i as int].scopes);
                true
            },
            None => false,
        }
    }

    /// Takes the client's change of its workspace folders, which asks for their configuration.
    /// Returns the request for it, which goes to a client that has configuration to ask for.
    pub fn did_change_workspace_folders(&mut self, params: &Json) -> (request: Option<
        ConfigurationRequest,
    >)
        requires
            old(self)@.next_configuration < i32::MAX,
        ensures
            match request {
                Some(request) => old(self)@.refoldered(params@).request() == Some(request@),
                None => old(self)@.refoldered(params@).request() is None,
            },
            final(self)@ == old(self)@.refoldered(params@).requested(),
            old(self)@.valid() ==> final(self)@.valid(),
    {
        proof {
            if self@.valid() {
                self@.lemma_refoldered_valid(params@);
            }
        }
        let null = Json::Null;
        let event = params.section("event", &null);
        remove_entries(&mut self.folders, event.section("removed", &null));
        add_entries(&mut self.folders, event.section("added", &null));
        self.did_change_configuration()
    }

    /// Takes note that the client has opened the file at `uri`, of which its project's
    /// configuration says `project`.
    pub fn did_open(&mut self, uri: &str, project: Project)
        ensures
            final(self)@ == old(self)@.opened(uri@, project@),
            old(self)@.valid() ==> final(self)@.valid(),
    {
        let ghost before = self@;
        let document = Document { uri: uri.to_owned(), project };
        let ghost view = document@;
        self.documents.push(document);
        assert(self@.documents =~= before.documents.push(view));
    }

    /// Gives the client's next request its number.
    fn take_number(&mut self) -> (id: i32)
        requires
            old(self)@.next_request < i32::MAX,
        ensures
            id == old(self)@.next_request,
            final(self)@ == old(self)@.numbered(),
    {
        let id: i32 = self.next_request;
        self.next_request = id + 1;
        id
    }

    /// The settings that count for the file at `uri`.
    pub fn settings_at(&self, uri: &str) -> (settings: &Settings)
        ensures
            settings@ == self@.settings_at(uri@),
    {
        settings_at(&self.folders, &self.default_settings, uri)
    }

    /// Answers a request for a definition in the file at `uri`, where the analysis has found it at
    /// `located`.
    pub fn definition(&mut self, uri: &str, located: Json) -> (response: Response)
        requires
            old(self)@.next_request < i32::MAX,
        ensures
            response.id == old(self)@.next_request,
            response.result@ == old(self)@.definition(uri@, located@),
            final(self)@ == old(self)@.numbered(),
            old(self)@.valid() ==> final(self)@.valid(),
    {
        let result = if self.settings_at(uri).serves_definition() {
            located
        } else {
            nowhere()
        };
        Response { id: self.take_number(), result }
    }

    /// Answers a request to hover in the file at `uri`, where the analysis describes what is there
    /// by `hovered`.
    pub fn hover(&mut self, uri: &str, hovered: Json) -> (response: Response)
        requires
            old(self)@.next_request < i32::MAX,
        ensures
            response.id == old(self)@.next_request,
            response.result@ == old(self)@.hover(uri@, hovered@),
            final(self)@ == old(self)@.numbered(),
            old(self)@.valid() ==> final(self)@.valid(),
    {
        let result = if self.settings_at(uri).serves_hover() {
            hovered
        } else {
            empty_hover()
        };
        Response { id: self.take_number(), result }
    }

    /// What the client is shown of the type errors that the analysis has found in the file at
    /// `uri`: all of them, or none.
    pub fn publish_diagnostics(&self, uri: &str, found: Vec<Json>) -> (shown: Vec<Json>)
        ensures
            json_views(shown@) == self@.shown(uri@, json_views(found@)),
    {
        let none: Vec<Json> = Vec::new();
        assert(json_views(none@) =~= Seq::<JsonView>::empty());
        match find_document(&self.documents, uri) {
            Some(document) => if self.settings_at(uri).shows_type_errors(&document.project) {
                found
            } else {
                none
            },
            None => none,
        }
    }

    /// Answers a request for the diagnostics of the file at `uri`, in which the analysis has found
    /// the type errors `found`.
    pub fn diagnostic(&mut self, uri: &str, found: Vec<Json>) -> (response: Response)
        requires
            old(self)@.next_request < i32::MAX,
        ensures
            response.id == old(self)@.next_request,
            response.result@ == old(self)@.diagnostics(uri@, json_views(found@)),
            final(self)@ == old(self)@.numbered(),
            old(self)@.valid() ==> final(self)@.valid(),
    {
        let result = report(self.publish_diagnostics(uri, found));
        Response { id: self.take_number(), result }
    }

    /// The interpreter that tells which packages the file at `uri` can import.
    pub fn interpreter(&self, uri: &str) -> (path: Option<String>)
        ensures
            option_view(path) == self@.interpreter(uri@),
    {
        match find_document(&self.documents, uri) {
            Some(document) => self.settings_at(uri).interpreter(&document.project),
            None => copy_text(&self.settings_at(uri).python_path),
        }
    }
}

} // verus!
