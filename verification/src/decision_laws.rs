//! What every session decides, told by the settings, the folders, the projects and the messages
//! that it goes by.

use crate::configuration::{
    answered_default, answered_folder, answered_folders, lemma_first_index, request_ids,
};
use crate::json::{Json, JsonView};
use crate::laws::{item_for, law_answer_counts, reconfigured};
use crate::session::{
    document_views, first_answer, pair_views, project_of, Document, InitializeSettings, SessionView,
};
use crate::settings::{Project, ProjectView, Settings, SettingsView};
use crate::value_laws::{
    asks_for, has_only, law_hover, law_report, law_scoped_params, law_unscoped_params,
};
use crate::workspace::{
    folder_uris, folder_views, governs, has_folder, lemma_governs_unique, named_by, settings_for,
    with_entries, with_folder, with_folders, within, without_folders, Folder, FolderView,
};
use vstd::prelude::*;

verus! {

/// Before a client has configured anything, no interpreter is named, no service is off and type
/// errors go by the project.
pub proof fn law_initial_settings()
    ensures
        SettingsView::initial().python_path is None,
        SettingsView::initial().display_type_errors is Default,
        !SettingsView::initial().language_services_disabled,
        !SettingsView::initial().definition_disabled,
        !SettingsView::initial().hover_disabled,
{
}

/// Each setting that an item gives is what the item says from then on, and each that it does not
/// give stays as it was, whatever the item says of the others.
pub proof fn law_each_setting(settings: SettingsView, item: JsonView)
    ensures
        ({
            let after = settings.configured(item);
            let pyrefly = item.section("pyrefly"@);
            let disabled = pyrefly.section("disabledLanguageServices"@);
            &&& match pyrefly.flag_at("disableLanguageServices"@) {
                Some(flag) => after.language_services_disabled == flag,
                None => after.language_services_disabled == settings.language_services_disabled,
            }
            &&& match disabled.flag_at("definition"@) {
                Some(flag) => after.definition_disabled == flag,
                None => after.definition_disabled == settings.definition_disabled,
            }
            &&& match disabled.flag_at("hover"@) {
                Some(flag) => after.hover_disabled == flag,
                None => after.hover_disabled == settings.hover_disabled,
            }
            &&& match item.text_at("pythonPath"@) {
                Some(path) => after.python_path == Some(path),
                None => after.python_path == settings.python_path,
            }
        }),
{
}

/// Type errors are forced on or off exactly by those two words; any other word, and no word,
/// leaves their display as it was.
pub proof fn law_display_setting(settings: SettingsView, item: JsonView)
    ensures
        ({
            let after = settings.configured(item).display_type_errors;
            let given = item.section("pyrefly"@).text_at("displayTypeErrors"@);
            &&& given == Some("force-on"@) ==> after is ForceOn
            &&& given == Some("force-off"@) ==> after is ForceOff
            &&& given != Some("force-on"@) && given != Some("force-off"@) ==> after
                == settings.display_type_errors
        }),
{
    reveal_strlit("force-on");
    reveal_strlit("force-off");
    assert("force-on"@.len() != "force-off"@.len());
}

/// A service is served exactly if neither it nor every service is off; the type errors of a file
/// are shown exactly if its project includes it and they are forced on, or are not forced and
/// belong to a project whose configuration file leaves them on; and the interpreter is the
/// project's, where it names one.
pub proof fn law_settings_decide(settings: SettingsView, project: ProjectView)
    ensures
        settings.serves_definition() <==> !settings.language_services_disabled
            && !settings.definition_disabled,
        settings.serves_hover() <==> !settings.language_services_disabled
            && !settings.hover_disabled,
        !project.included ==> !settings.shows_type_errors(project),
        settings.display_type_errors is ForceOff ==> !settings.shows_type_errors(project),
        settings.display_type_errors is ForceOn ==> settings.shows_type_errors(project)
            == project.included,
        settings.display_type_errors is Default ==> (settings.shows_type_errors(project) <==> {
            &&& project.included
            &&& project.has_config
            &&& !project.type_errors_disabled
        }),
        project.interpreter is Some ==> settings.interpreter(project) == project.interpreter,
        project.interpreter is None ==> settings.interpreter(project) == settings.python_path,
{
}

/// What an item says last counts: to answer with it again changes nothing.
pub proof fn law_configured_again(settings: SettingsView, item: JsonView)
    ensures
        settings.configured(item).configured(item) == settings.configured(item),
{
}

/// A definition is where the analysis locates it if neither every service nor this one is off for
/// the file, whatever folders there are and files are open. Else it is nowhere.
pub proof fn law_definition_answer(session: SessionView, uri: Seq<char>, located: JsonView)
    ensures
        ({
            let settings = session.settings_at(uri);
            let off = settings.language_services_disabled || settings.definition_disabled;
            &&& !off ==> session.definition(uri, located) == located
            &&& off ==> session.definition(uri, located) == JsonView::Array(
                Seq::<JsonView>::empty(),
            )
        }),
{
}

/// A hover shows what the analysis describes if neither every service nor this one is off for the
/// file, whatever folders there are and files are open. Else its contents are an empty list.
pub proof fn law_hover_answer(session: SessionView, uri: Seq<char>, hovered: JsonView)
    ensures
        ({
            let settings = session.settings_at(uri);
            let off = settings.language_services_disabled || settings.hover_disabled;
            let answer = session.hover(uri, hovered);
            &&& !off ==> answer == hovered
            &&& off ==> answer.member("contents"@) == Some(
                JsonView::Array(Seq::<JsonView>::empty()),
            )
            &&& off ==> has_only(answer, set!["contents"@])
        }),
{
    law_hover(Seq::empty());
}

/// What a session has in common with another decides what it answers: two in which the same
/// settings count for a file, and which have the same project for it, answer alike.
pub proof fn law_same_settings_same_answers(
    one: SessionView,
    other: SessionView,
    uri: Seq<char>,
    found: Seq<JsonView>,
    answer: JsonView,
)
    requires
        one.settings_at(uri) == other.settings_at(uri),
        project_of(one.documents, uri) == project_of(other.documents, uri),
    ensures
        one.definition(uri, answer) == other.definition(uri, answer),
        one.hover(uri, answer) == other.hover(uri, answer),
        one.shown(uri, found) == other.shown(uri, found),
        one.diagnostics(uri, found) == other.diagnostics(uri, found),
        one.interpreter(uri) == other.interpreter(uri),
{
}

/// All type errors of a file are shown or none is. They are shown exactly if the file is open, its
/// project includes it, and they are forced on or, where they are not forced off either, the
/// project has a configuration file that does not turn them off.
pub proof fn law_shown(session: SessionView, uri: Seq<char>, found: Seq<JsonView>)
    ensures
        ({
            let settings = session.settings_at(uri);
            let shown = session.shown(uri, found);
            match project_of(session.documents, uri) {
                Some(project) => {
                    let by_project = project.has_config && !project.type_errors_disabled;
                    &&& !project.included ==> shown.len() == 0
                    &&& settings.display_type_errors is ForceOff ==> shown.len() == 0
                    &&& project.included && settings.display_type_errors is ForceOn ==> shown
                        == found
                    &&& project.included && settings.display_type_errors is Default && by_project
                        ==> shown == found
                    &&& settings.display_type_errors is Default && !by_project ==> shown.len() == 0
                },
                None => shown.len() == 0,
            }
        }),
{
}

/// The answer to a request for diagnostics reports exactly the type errors that are published, in
/// their order, in a full report.
pub proof fn law_reported_is_published(session: SessionView, uri: Seq<char>, found: Seq<JsonView>)
    ensures
        session.diagnostics(uri, found).section("items"@).items() == session.shown(uri, found),
        session.diagnostics(uri, found).member("items"@) == Some(
            JsonView::Array(session.shown(uri, found)),
        ),
        session.diagnostics(uri, found).member("kind"@) == Some(JsonView::Text("full"@)),
        has_only(session.diagnostics(uri, found), set!["items"@, "kind"@]),
{
    law_report(session.shown(uri, found));
}

/// Where a client answers that type errors are forced on, every type error that the analysis finds
/// in an open file which its project includes is published and reported, with workspace folders
/// as without.
pub proof fn law_force_on_publishes(
    session: SessionView,
    uri: Seq<char>,
    k: int,
    result: JsonView,
    found: Seq<JsonView>,
)
    requires
        session.valid(),
        session.offered,
        item_for(session, uri, k, result),
        result.items()[k].section("pyrefly"@).text_at("displayTypeErrors"@) == Some("force-on"@),
        project_of(session.documents, uri) is Some,
        project_of(session.documents, uri)->0.included,
    ensures
        reconfigured(session, result).shown(uri, found) == found,
        reconfigured(session, result).diagnostics(uri, found).section("items"@).items() == found,
{
    let after = reconfigured(session, result);
    law_answer_counts(session, uri, k, result);
    law_display_setting(session.settings_at(uri), result.items()[k]);
    law_shown(after, uri, found);
    law_reported_is_published(after, uri, found);
}

/// Where a client answers that hovering is disabled, a hover shows nothing, whatever else the
/// answer says.
pub proof fn law_hover_disabled(
    session: SessionView,
    uri: Seq<char>,
    k: int,
    result: JsonView,
    found: JsonView,
)
    requires
        session.valid(),
        session.offered,
        item_for(session, uri, k, result),
        result.items()[k].section("pyrefly"@).section("disabledLanguageServices"@).flag_at(
            "hover"@,
        ) == Some(true),
    ensures
        reconfigured(session, result).hover(uri, found).member("contents"@) == Some(
            JsonView::Array(Seq::<JsonView>::empty()),
        ),
        has_only(reconfigured(session, result).hover(uri, found), set!["contents"@]),
{
    law_answer_counts(session, uri, k, result);
    law_each_setting(session.settings_at(uri), result.items()[k]);
    law_hover_answer(reconfigured(session, result), uri, found);
}

/// Where a client answers that no service is disabled, by itself or with all others, a definition
/// is where the analysis locates it and a hover shows what it describes, whatever was before.
pub proof fn law_services_back(
    session: SessionView,
    uri: Seq<char>,
    k: int,
    result: JsonView,
    found: JsonView,
)
    requires
        session.valid(),
        session.offered,
        item_for(session, uri, k, result),
        ({
            let pyrefly = result.items()[k].section("pyrefly"@);
            let disabled = pyrefly.section("disabledLanguageServices"@);
            &&& pyrefly.flag_at("disableLanguageServices"@) == Some(false)
            &&& disabled.flag_at("definition"@) == Some(false)
            &&& disabled.flag_at("hover"@) == Some(false)
        }),
    ensures
        reconfigured(session, result).definition(uri, found) == found,
        reconfigured(session, result).hover(uri, found) == found,
{
    law_answer_counts(session, uri, k, result);
    law_each_setting(session.settings_at(uri), result.items()[k]);
    law_definition_answer(reconfigured(session, result), uri, found);
    law_hover_answer(reconfigured(session, result), uri, found);
}

/// The interpreter of a file is the one that its project names, and where none does, the one of
/// the settings that count for the file.
pub proof fn law_interpreter_of(session: SessionView, uri: Seq<char>)
    ensures
        match project_of(session.documents, uri) {
            Some(project) => match project.interpreter {
                Some(path) => session.interpreter(uri) == Some(path),
                None => session.interpreter(uri) == session.settings_at(uri).python_path,
            },
            None => session.interpreter(uri) == session.settings_at(uri).python_path,
        },
{
}

/// The project of a file is that with which it was last opened, and that of a file which was not
/// opened is unknown. Opening a file changes nothing else.
pub proof fn law_last_opened(
    session: SessionView,
    uri: Seq<char>,
    project: ProjectView,
    other: Seq<char>,
)
    ensures
        project_of(Seq::empty(), other) is None,
        project_of(session.opened(uri, project).documents, uri) == Some(project),
        other != uri ==> project_of(session.opened(uri, project).documents, other) == project_of(
            session.documents,
            other,
        ),
        session.opened(uri, project) == (SessionView {
            documents: session.opened(uri, project).documents,
            ..session
        }),
{
    let after = session.opened(uri, project).documents;
    assert(after.drop_last() =~= session.documents);
}

/// A URI is within a folder if it is the folder's, or has more behind it after a separator; the
/// separator may be the last of the folder's own.
pub proof fn law_within(folder: Seq<char>, rest: Seq<char>, uri: Seq<char>)
    ensures
        within(folder, folder + rest) <==> {
            ||| rest.len() == 0
            ||| rest[0] == '/'
            ||| folder.len() > 0 && folder.last() == '/'
        },
        within(folder, uri) ==> folder.len() <= uri.len() && uri == folder + uri.skip(
            folder.len() as int,
        ),
{
    assert((folder + rest).take(folder.len() as int) =~= folder);
    if rest.len() > 0 {
        assert((folder + rest)[folder.len() as int] == rest[0]);
    }
    if within(folder, uri) {
        assert(uri =~= folder + uri.skip(folder.len() as int));
    }
}

/// The settings that count for a file are those of the folder that it is within, and of the one
/// with the longest URI where it is within several.
pub proof fn law_settings_of_folder(session: SessionView, uri: Seq<char>, i: int)
    requires
        0 <= i < session.folders.len(),
        within(session.folders[i].uri, uri),
        forall|j: int|
            0 <= j < session.folders.len() && j != i && within(
                (#[trigger] session.folders[j]).uri,
                uri,
            ) ==> session.folders[j].uri.len() < session.folders[i].uri.len(),
    ensures
        session.settings_at(uri) == session.folders[i].settings,
        settings_for(session.folders, session.default_settings, uri)
            == session.folders[i].settings,
        governs(session.folders, uri, i),
{
    let folders = session.folders;
    assert(governs(folders, uri, i));
    let chosen = choose|k: int| governs(folders, uri, k);
    lemma_governs_unique(folders, uri, chosen, i);
}

/// For a file that is within no folder, the settings for files of no folder count.
pub proof fn law_settings_of_no_folder(session: SessionView, uri: Seq<char>)
    requires
        forall|j: int|
            0 <= j < session.folders.len() ==> !within((#[trigger] session.folders[j]).uri, uri),
    ensures
        session.settings_at(uri) == session.default_settings,
        settings_for(session.folders, session.default_settings, uri) == session.default_settings,
        forall|i: int| !governs(session.folders, uri, i),
{
    assert(!exists|k: int| governs(session.folders, uri, k));
}

/// The folder that governs a file is one that the file is within, and no other that it is within
/// has a longer URI, or one as long and a place before it.
pub proof fn law_governing(folders: Seq<FolderView>, uri: Seq<char>, i: int, j: int)
    requires
        governs(folders, uri, i),
    ensures
        0 <= i < folders.len(),
        within(folders[i].uri, uri),
        0 <= j < folders.len() && within(folders[j].uri, uri) ==> folders[j].uri.len()
            <= folders[i].uri.len(),
        0 <= j < i && within(folders[j].uri, uri) ==> folders[j].uri.len()
            < folders[i].uri.len(),
{
}

/// A folder that is added comes last, under its name and not configured, unless one is at its URI;
/// folders are added one after the other, and removed one by one.
pub proof fn law_folder_list(
    folders: Seq<FolderView>,
    name: Seq<char>,
    uri: Seq<char>,
    entries: Seq<JsonView>,
    entry: JsonView,
    folder: FolderView,
)
    ensures
        folder_uris(folders).contains(uri) ==> with_folder(folders, name, uri) == folders,
        !folder_uris(folders).contains(uri) ==> with_folder(folders, name, uri) == folders.push(
            FolderView { name, uri, settings: SettingsView::initial() },
        ),
        with_entries(folders, Seq::empty(), 0) == folders,
        ({
            let before = with_entries(folders, entries, entries.len());
            let after = with_entries(folders, entries.push(entry), entries.len() + 1);
            match (entry.text_at("uri"@), entry.text_at("name"@)) {
                (Some(uri), Some(name)) => after == with_folder(before, name, uri),
                (Some(uri), None) => after == with_folder(before, Seq::empty(), uri),
                _ => after == before,
            }
        }),
        without_folders(Seq::empty(), entries).len() == 0,
        ({
            let named = exists|i: int|
                0 <= i < entries.len() && (#[trigger] entries[i]).text_at("uri"@) == Some(
                    folder.uri,
                );
            let before = without_folders(folders, entries);
            let after = without_folders(folders.push(folder), entries);
            &&& named ==> after == before
            &&& !named ==> after == before.push(folder)
        }),
{
    law_folder_uris(folders, uri);
    lemma_entries_of_prefix(folders, entries, entries.push(entry), entries.len());
    reveal(Seq::filter);
    let larger = folders.push(folder);
    assert(larger.drop_last() =~= folders);
    assert(larger.last() == folder);
}

/// The URIs of folders are theirs, in their order, and there is a folder at a URI exactly if one of
/// them is there.
pub proof fn law_folder_uris(folders: Seq<FolderView>, uri: Seq<char>)
    ensures
        folder_uris(folders).len() == folders.len(),
        forall|i: int|
            0 <= i < folders.len() ==> #[trigger] folder_uris(folders)[i] == folders[i].uri,
        has_folder(folders, uri) <==> folder_uris(folders).contains(uri),
{
    if has_folder(folders, uri) {
        let i = choose|i: int| 0 <= i < folders.len() && (#[trigger] folders[i]).uri == uri;
        assert(folder_uris(folders)[i] == uri);
    }
    if folder_uris(folders).contains(uri) {
        let i = choose|i: int|
            0 <= i < folder_uris(folders).len() && folder_uris(folders)[i] == uri;
        assert(folders[i].uri == uri);
    }
}

/// A client that has configuration is asked for that of every folder, once and in their order; it
/// is asked for that of no folder where it has none. The request gets the next number and waits for
/// its answer; nothing else changes. A client that has no configuration is not asked.
pub proof fn law_asking(session: SessionView)
    ensures
        session.offered ==> {
            &&& session.request() is Some
            &&& session.request()->0.id == session.next_configuration
            &&& session.request()->0.scopes.len() == session.folders.len()
            &&& forall|i: int|
                0 <= i < session.folders.len() ==> #[trigger] session.request()->0.scopes[i]
                    == session.folders[i].uri
            &&& session.requested() == (SessionView {
                pending: session.pending.push(session.request()->0),
                next_configuration: session.next_configuration + 1,
                ..session
            })
        },
        !session.offered ==> session.request() is None && session.requested() == session,
{
}

/// What a client is sent when it is asked: an item for each folder with the folder's URI, or the
/// one item without a URI where there are no folders.
pub proof fn law_asked_params(session: SessionView)
    requires
        session.offered,
    ensures
        session.request() is Some,
        ({
            let params = session.request()->0.params();
            let items = params.section("items"@).items();
            &&& has_only(params, set!["items"@])
            &&& session.folders.len() > 0 ==> items.len() == session.folders.len()
            &&& forall|i: int|
                0 <= i < session.folders.len() ==> asks_for(
                    #[trigger] items[i],
                    session.folders[i].uri,
                )
            &&& session.folders.len() == 0 ==> items.len() == 1 && has_only(
                items[0],
                set!["section"@],
            ) && items[0].member("section"@) == Some(JsonView::Text("python"@))
        }),
{
    law_asking(session);
    let request = session.request()->0;
    if session.folders.len() > 0 {
        law_scoped_params(request);
        let items = request.params().section("items"@).items();
        assert forall|i: int| 0 <= i < session.folders.len() implies asks_for(
            #[trigger] items[i],
            session.folders[i].uri,
        ) by {
            assert(request.scopes[i] == session.folders[i].uri);
        }
    } else {
        law_unscoped_params(request);
    }
}

/// An answer to a request that waits for it configures each folder by the item in the place that
/// the folder's URI has in the request, and the files of no folder by the first item where the
/// request was for no folder. A folder that the request was not for, or that the answer has no item
/// for, stays as it was. The request waits no more; nothing else changes.
pub proof fn law_answering(session: SessionView, i: int, result: JsonView, j: int, k: int)
    requires
        session.valid(),
        0 <= i < session.pending.len(),
    ensures
        ({
            let request = session.pending[i];
            let after = session.responded(request.id, result);
            let items = result.items();
            &&& after.folders.len() == session.folders.len()
            &&& 0 <= j < session.folders.len() ==> {
                let folder = session.folders[j];
                let place = 0 <= k < request.scopes.len() && request.scopes[k] == folder.uri
                    && forall|m: int| 0 <= m < k ==> request.scopes[m] != folder.uri;
                &&& after.folders[j].uri == folder.uri
                &&& after.folders[j].name == folder.name
                &&& place && k < items.len() ==> after.folders[j].settings
                    == folder.settings.configured(items[k])
                &&& place && k >= items.len() ==> after.folders[j].settings == folder.settings
                &&& !request.scopes.contains(folder.uri) ==> after.folders[j].settings
                    == folder.settings
            }
            &&& request.scopes.len() == 0 && items.len() > 0 ==> after.default_settings
                == session.default_settings.configured(items[0])
            &&& request.scopes.len() > 0 || items.len() == 0 ==> after.default_settings
                == session.default_settings
            &&& after == (SessionView {
                folders: after.folders,
                default_settings: after.default_settings,
                pending: session.pending.take(i) + session.pending.skip(i + 1),
                ..session
            })
        }),
{
    let request = session.pending[i];
    let after = session.responded(request.id, result);
    assert forall|m: int| 0 <= m < i implies request_ids(session.pending)[m] != request.id by {
        assert(session.pending[m].id < session.pending[i].id);
    }
    lemma_first_index(request_ids(session.pending), request.id, i);
    assert(session.pending.remove(i) =~= session.pending.take(i) + session.pending.skip(i + 1));
    if 0 <= j < session.folders.len() {
        let uri = session.folders[j].uri;
        request.scopes.index_of_first_ensures(uri);
        let place = 0 <= k < request.scopes.len() && request.scopes[k] == uri
            && forall|m: int| 0 <= m < k ==> request.scopes[m] != uri;
        if place {
            lemma_first_index(request.scopes, uri, k);
        }
    }
}

/// An answer to a request for `scopes` configures a folder by the item in the place of its URI
/// among them, the files of no folder by the first where there are none, and nothing else.
pub proof fn law_answered(
    folders: Seq<FolderView>,
    settings: SettingsView,
    scopes: Seq<Seq<char>>,
    items: Seq<JsonView>,
    j: int,
    k: int,
)
    requires
        0 <= j < folders.len(),
    ensures
        ({
            let after = answered_folders(folders, scopes, items);
            let folder = folders[j];
            let place = 0 <= k < scopes.len() && scopes[k] == folder.uri && forall|m: int|
                0 <= m < k ==> scopes[m] != folder.uri;
            &&& after.len() == folders.len()
            &&& after[j] == answered_folder(folder, scopes, items)
            &&& after[j].name == folder.name
            &&& after[j].uri == folder.uri
            &&& place && k < items.len() ==> after[j].settings == folder.settings.configured(
                items[k],
            )
            &&& place && k >= items.len() ==> after[j] == folder
            &&& !scopes.contains(folder.uri) ==> after[j] == folder
        }),
        scopes.len() == 0 && items.len() > 0 ==> answered_default(settings, scopes, items)
            == settings.configured(items[0]),
        scopes.len() > 0 || items.len() == 0 ==> answered_default(settings, scopes, items)
            == settings,
{
    let uri = folders[j].uri;
    scopes.index_of_first_ensures(uri);
    let place = 0 <= k < scopes.len() && scopes[k] == uri && forall|m: int|
        0 <= m < k ==> scopes[m] != uri;
    if place {
        lemma_first_index(scopes, uri, k);
    }
}

/// An answer counts exactly if a request with its number waits for one; any other changes nothing.
pub proof fn law_awaited(session: SessionView, id: int, result: JsonView)
    ensures
        session.awaited(id) is Some <==> exists|i: int|
            0 <= i < session.pending.len() && (#[trigger] session.pending[i]).id == id,
        (forall|i: int|
            0 <= i < session.pending.len() ==> (#[trigger] session.pending[i]).id != id)
            ==> session.responded(id, result) == session,
{
    let ids = request_ids(session.pending);
    ids.index_of_first_ensures(id);
    if exists|i: int| 0 <= i < session.pending.len() && (#[trigger] session.pending[i]).id == id {
        let i = choose|i: int|
            0 <= i < session.pending.len() && (#[trigger] session.pending[i]).id == id;
        assert(ids[i] == id);
    }
    if let Some(i) = session.awaited(id) {
        assert(session.pending[i].id == id);
    }
}

/// A number is given to each request of the client in turn; nothing else changes.
pub proof fn law_numbering(session: SessionView)
    ensures
        session.numbered() == (SessionView { next_request: session.next_request + 1, ..session }),
{
}

proof fn lemma_folders_of_prefix(
    folders: Seq<FolderView>,
    added: Seq<(Seq<char>, Seq<char>)>,
    more: Seq<(Seq<char>, Seq<char>)>,
    n: nat,
)
    requires
        n <= added.len() <= more.len(),
        forall|i: int| 0 <= i < n ==> added[i] == more[i],
    ensures
        with_folders(folders, added, n) == with_folders(folders, more, n),
    decreases n,
{
    if n > 0 {
        lemma_folders_of_prefix(folders, added, more, (n - 1) as nat);
    }
}

/// A session begins with a folder for each that its client gives, in their order, under its name
/// and not configured; one at a URI that was given before is left out. It begins with no file open
/// and no request waiting.
pub proof fn law_beginning(
    offered: bool,
    folders: Seq<(Seq<char>, Seq<char>)>,
    name: Seq<char>,
    uri: Seq<char>,
)
    ensures
        ({
            let begun = SessionView::begun(offered, folders);
            let more = SessionView::begun(offered, folders.push((name, uri)));
            let taken = exists|i: int|
                0 <= i < begun.folders.len() && (#[trigger] begun.folders[i]).uri == uri;
            &&& taken ==> more == begun
            &&& !taken ==> more == (SessionView {
                folders: begun.folders.push(
                    FolderView { name, uri, settings: SettingsView::initial() },
                ),
                ..begun
            })
            &&& begun.offered == offered
            &&& begun.default_settings == SettingsView::initial()
            &&& begun.documents.len() == 0
            &&& begun.pending.len() == 0
            &&& begun.next_request == 2
            &&& begun.next_configuration == 1
        }),
        SessionView::begun(offered, Seq::empty()).folders.len() == 0,
{
    let pairs = folders.push((name, uri));
    lemma_folders_of_prefix(Seq::empty(), folders, pairs, folders.len());
    let begun = SessionView::begun(offered, folders);
    assert(with_folders(Seq::empty(), pairs, pairs.len()) == with_folder(
        begun.folders,
        name,
        uri,
    ));
}

/// A client that has no configuration is not asked as its session starts. One that has it is asked
/// once, and its first answer configures each folder by the item in the folder's place, or the
/// files of no folder by the first item where there are no folders. An answer that gives nothing
/// configures nothing.
pub proof fn law_starting(
    folders: Seq<(Seq<char>, Seq<char>)>,
    result: JsonView,
    k: int,
)
    ensures
        SessionView::initialized(folders, None) == SessionView::begun(false, folders),
        SessionView::initialized(folders, Some(None)) == SessionView::initialized(
            folders,
            Some(Some(JsonView::Array(Seq::empty()))),
        ),
        ({
            let begun = SessionView::begun(true, folders);
            let after = SessionView::initialized(folders, Some(Some(result)));
            let items = result.items();
            &&& after.folders.len() == begun.folders.len()
            &&& 0 <= k < begun.folders.len() ==> {
                let folder = begun.folders[k];
                &&& after.folders[k].name == folder.name
                &&& after.folders[k].uri == folder.uri
                &&& k < items.len() ==> after.folders[k].settings == folder.settings.configured(
                    items[k],
                )
                &&& k >= items.len() ==> after.folders[k].settings == folder.settings
            }
            &&& begun.folders.len() == 0 && items.len() > 0 ==> after.default_settings
                == begun.default_settings.configured(items[0])
            &&& begun.folders.len() > 0 || items.len() == 0 ==> after.default_settings
                == begun.default_settings
            &&& after == (SessionView {
                folders: after.folders,
                default_settings: after.default_settings,
                next_configuration: 2,
                ..begun
            })
        }),
{
    let begun = SessionView::begun(true, folders);
    let asked = begun.requested();
    SessionView::lemma_begun_valid(true, folders);
    begun.lemma_requested_valid();
    law_asking(begun);
    assert(asked.pending.len() == 1);
    assert(asked.pending[0].id == 1);
    law_answering(asked, 0, result, k, k);
    assert(asked.pending.take(0) + asked.pending.skip(1) =~= begun.pending);
    if 0 <= k < begun.folders.len() {
        let scopes = asked.pending[0].scopes;
        assert(scopes[k] == begun.folders[k].uri);
        assert forall|m: int| 0 <= m < k implies scopes[m] != begun.folders[k].uri by {
            assert(scopes[m] == begun.folders[m].uri);
        }
    }
}

/// The folders that a change of folders adds.
pub open spec fn added_by(params: JsonView) -> Seq<JsonView> {
    params.section("event"@).section("added"@).items()
}

/// The folders that a change of folders removes.
pub open spec fn removed_by(params: JsonView) -> Seq<JsonView> {
    params.section("event"@).section("removed"@).items()
}

/// A change of folders that neither adds nor removes any changes nothing, and any changes nothing
/// but the folders.
pub proof fn law_folders_only(session: SessionView, params: JsonView)
    ensures
        session.refoldered(params) == (SessionView {
            folders: session.refoldered(params).folders,
            ..session
        }),
        added_by(params).len() == 0 && removed_by(params).len() == 0 ==> session.refoldered(params)
            == session,
{
    if added_by(params).len() == 0 && removed_by(params).len() == 0 {
        let keep = |folder: FolderView| !named_by(removed_by(params), folder.uri);
        lemma_all_kept(session.folders, keep);
        assert(without_folders(session.folders, removed_by(params)) == session.folders);
    }
}

proof fn lemma_all_kept(folders: Seq<FolderView>, keep: spec_fn(FolderView) -> bool)
    requires
        forall|folder: FolderView| #[trigger] keep(folder),
    ensures
        folders.filter(keep) == folders,
    decreases folders.len(),
{
    reveal(Seq::filter);
    if folders.len() > 0 {
        lemma_all_kept(folders.drop_last(), keep);
        assert(keep(folders.last()));
        assert(folders =~= folders.drop_last().push(folders.last()));
    }
}

proof fn lemma_entries_of_prefix(
    folders: Seq<FolderView>,
    added: Seq<JsonView>,
    more: Seq<JsonView>,
    n: nat,
)
    requires
        n <= added.len() <= more.len(),
        forall|i: int| 0 <= i < n ==> added[i] == more[i],
    ensures
        with_entries(folders, added, n) == with_entries(folders, more, n),
    decreases n,
{
    if n > 0 {
        lemma_entries_of_prefix(folders, added, more, (n - 1) as nat);
    }
}

/// A folder that is added besides others comes last, under its name and not configured, unless a
/// folder is at its URI already; an entry without a URI adds none.
pub proof fn law_one_more_added(
    session: SessionView,
    params: JsonView,
    more: JsonView,
    entry: JsonView,
)
    requires
        removed_by(params) == removed_by(more),
        added_by(more) == added_by(params).push(entry),
    ensures
        ({
            let before = session.refoldered(params).folders;
            let after = session.refoldered(more).folders;
            match entry.text_at("uri"@) {
                Some(uri) => {
                    let taken = exists|i: int|
                        0 <= i < before.len() && (#[trigger] before[i]).uri == uri;
                    let name = match entry.text_at("name"@) {
                        Some(name) => name,
                        None => Seq::empty(),
                    };
                    &&& taken ==> after == before
                    &&& !taken ==> after == before.push(
                        FolderView { name, uri, settings: SettingsView::initial() },
                    )
                },
                None => after == before,
            }
        }),
{
    let kept = without_folders(session.folders, removed_by(params));
    let some = added_by(params);
    let all = added_by(more);
    lemma_entries_of_prefix(kept, some, all, some.len());
    assert(all[all.len() - 1] == entry);
}

/// Where nothing is added, each folder is there after a change as it was before, in its place among
/// the others, unless an entry of the folders removed names it by its URI.
pub proof fn law_each_folder_kept_or_removed(
    session: SessionView,
    params: JsonView,
    folder: FolderView,
)
    requires
        added_by(params).len() == 0,
    ensures
        ({
            let larger = SessionView { folders: session.folders.push(folder), ..session };
            let before = session.refoldered(params).folders;
            let after = larger.refoldered(params).folders;
            let named = exists|i: int|
                0 <= i < removed_by(params).len() && (#[trigger] removed_by(params)[i]).text_at(
                    "uri"@,
                ) == Some(folder.uri);
            &&& named ==> after == before
            &&& !named ==> after == before.push(folder)
        }),
        ({
            let empty = SessionView { folders: Seq::empty(), ..session };
            empty.refoldered(params).folders.len() == 0
        }),
{
    reveal(Seq::filter);
    let larger = session.folders.push(folder);
    assert(larger.drop_last() =~= session.folders);
    assert(larger.last() == folder);
    assert(removed_by(params) == params.section("event"@).section("removed"@).items());
}

/// The settings, projects, folders and files of a session are those that it holds, field by field
/// and one by one.
pub proof fn law_views(
    settings: Settings,
    project: Project,
    folder: Folder,
    document: Document,
    folders: Seq<Folder>,
    documents: Seq<Document>,
    pairs: Seq<(String, String)>,
)
    ensures
        settings@.python_path is Some <==> settings.python_path is Some,
        settings.python_path is Some ==> settings@.python_path->0 == settings.python_path->0@,
        settings@.display_type_errors == settings.display_type_errors,
        settings@.language_services_disabled == settings.language_services_disabled,
        settings@.definition_disabled == settings.definition_disabled,
        settings@.hover_disabled == settings.hover_disabled,
        project@.has_config == project.has_config,
        project@.type_errors_disabled == project.type_errors_disabled,
        project@.included == project.included,
        project@.interpreter is Some <==> project.interpreter is Some,
        project.interpreter is Some ==> project@.interpreter->0 == project.interpreter->0@,
        folder@.name == folder.name@,
        folder@.uri == folder.uri@,
        folder@.settings == folder.settings@,
        document@.uri == document.uri@,
        document@.project == document.project@,
        folder_views(folders).len() == folders.len(),
        forall|i: int|
            0 <= i < folders.len() ==> #[trigger] folder_views(folders)[i] == folders[i]@,
        document_views(documents).len() == documents.len(),
        forall|i: int|
            0 <= i < documents.len() ==> #[trigger] document_views(documents)[i] == documents[i]@,
        pair_views(pairs).len() == pairs.len(),
        forall|i: int|
            0 <= i < pairs.len() ==> #[trigger] pair_views(pairs)[i] == (pairs[i].0@, pairs[i].1@),
{
}

/// A session starts from the folders that its client gives, all of them, and from its first answer
/// as it is.
pub proof fn law_given(settings: InitializeSettings)
    ensures
        settings.workspace_folders is None ==> settings.folder_pairs().len() == 0,
        settings.workspace_folders matches Some(pairs) ==> settings.folder_pairs().len()
            == pairs@.len() && forall|i: int|
            0 <= i < pairs@.len() ==> #[trigger] settings.folder_pairs()[i] == (
                pairs@[i].0@,
                pairs@[i].1@,
            ),
        settings.configuration is None ==> settings.answer() is None,
        settings.configuration == Some(None::<Json>) ==> settings.answer() == Some(
            None::<JsonView>,
        ),
        settings.configuration matches Some(Some(result)) ==> settings.answer() == Some(
            Some(result@),
        ),
        first_answer(settings.configuration) == settings.answer(),
{
}

} // verus!
