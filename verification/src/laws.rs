//! What holds of every session, every answer and every file.

use crate::answers::{empty_hover_view, report_view};
use crate::configuration::{
    answered_default, answered_folder, answered_folders, lemma_first_index, request_ids,
    unscoped_params,
};
use crate::fixtures::{
    interpreter_path, interpreter_script, site_packages_path, SCRIPT_HEAD, SCRIPT_TAIL,
};
use crate::json::JsonView;
use crate::path::{joined, plain_path};
use crate::payloads::{folder_change, folder_entry};
use crate::scenarios::names;
use crate::session::{project_of, SessionView};
use crate::settings::{DisplayTypeErrors, SettingsView};
use crate::workspace::{
    folder_uris, governs, has_folder, lemma_governs_unique, named_by, with_entries, with_folders,
    within, without_folders, FolderView,
};
use vstd::prelude::*;

verus! {

/// The session after the server has asked for configuration and the client has answered with
/// `result`.
pub open spec fn reconfigured(session: SessionView, result: JsonView) -> SessionView {
    session.requested().responded(session.next_configuration, result)
}

/// The item of an answer that is for the file at `uri`: the one in the place of the folder that
/// governs it, or the first where there are no folders.
pub open spec fn item_for(session: SessionView, uri: Seq<char>, k: int, result: JsonView) -> bool {
    &&& 0 <= k < result.items().len()
    &&& (session.folders.len() == 0 && k == 0) || governs(session.folders, uri, k)
}

pub(crate) proof fn lemma_reconfigured(session: SessionView, result: JsonView)
    requires
        session.valid(),
        session.offered,
    ensures
        reconfigured(session, result) == (SessionView {
            folders: answered_folders(
                session.folders,
                folder_uris(session.folders),
                result.items(),
            ),
            default_settings: answered_default(
                session.default_settings,
                folder_uris(session.folders),
                result.items(),
            ),
            next_configuration: session.next_configuration + 1,
            ..session
        }),
{
    let asked = session.requested();
    let last = asked.pending.len() - 1;
    assert(asked.pending.drop_last() =~= session.pending);
    assert forall|j: int| 0 <= j < last implies request_ids(asked.pending)[j]
        != session.next_configuration by {
        assert(asked.pending[j] == session.pending[j]);
    }
    lemma_first_index(request_ids(asked.pending), session.next_configuration, last);
    assert(asked.pending.remove(last) =~= session.pending);
}

pub(crate) proof fn lemma_answered_folder(session: SessionView, k: int, items: Seq<JsonView>)
    requires
        session.valid(),
        0 <= k < session.folders.len(),
    ensures
        answered_folder(session.folders[k], folder_uris(session.folders), items) == (if k
            < items.len() {
            FolderView {
                settings: session.folders[k].settings.configured(items[k]),
                ..session.folders[k]
            }
        } else {
            session.folders[k]
        }),
{
    lemma_first_index(folder_uris(session.folders), session.folders[k].uri, k);
}

/// A client's answer to the request for configuration is what the server goes by from then on:
/// the item that is for a file configures the settings that count for it. It changes neither the
/// folders that there are nor the files that are open, and leaves no request unanswered that was
/// answered before.
pub proof fn law_answer_counts(session: SessionView, uri: Seq<char>, k: int, result: JsonView)
    requires
        session.valid(),
        session.offered,
        item_for(session, uri, k, result),
    ensures
        reconfigured(session, result).settings_at(uri) == session.settings_at(uri).configured(
            result.items()[k],
        ),
        folder_uris(reconfigured(session, result).folders) == folder_uris(session.folders),
        reconfigured(session, result).documents == session.documents,
        reconfigured(session, result).pending == session.pending,
{
    let after = reconfigured(session, result);
    let items = result.items();
    lemma_reconfigured(session, result);
    assert(folder_uris(after.folders) =~= folder_uris(session.folders));
    if session.folders.len() == 0 {
        assert(!exists|i: int| governs(session.folders, uri, i));
        assert(!exists|i: int| governs(after.folders, uri, i));
    } else {
        assert forall|j: int| 0 <= j < session.folders.len() implies (
        #[trigger] after.folders[j]).uri == session.folders[j].uri by {}
        assert(governs(after.folders, uri, k));
        let chosen = choose|i: int| governs(session.folders, uri, i);
        lemma_governs_unique(session.folders, uri, chosen, k);
        let chosen_after = choose|i: int| governs(after.folders, uri, i);
        lemma_governs_unique(after.folders, uri, chosen_after, k);
        lemma_answered_folder(session, k, items);
    }
}

/// The answer that a client gives to the first request, as its session starts, counts as any later
/// one does.
pub proof fn law_first_answer_counts(
    folders: Seq<(Seq<char>, Seq<char>)>,
    uri: Seq<char>,
    k: int,
    result: JsonView,
)
    requires
        item_for(SessionView::begun(true, folders), uri, k, result),
    ensures
        SessionView::initialized(folders, Some(Some(result))).settings_at(uri)
            == SettingsView::initial().configured(result.items()[k]),
{
    let begun = SessionView::begun(true, folders);
    SessionView::lemma_begun_valid(true, folders);
    law_answer_counts(begun, uri, k, result);
    lemma_new_folders(folders, folders.len());
    if begun.folders.len() > 0 {
        let chosen = choose|i: int| governs(begun.folders, uri, i);
        lemma_governs_unique(begun.folders, uri, chosen, k);
    }
}

proof fn lemma_new_folders(added: Seq<(Seq<char>, Seq<char>)>, n: nat)
    ensures
        forall|i: int|
            0 <= i < with_folders(Seq::empty(), added, n).len() ==> (#[trigger] with_folders(
                Seq::empty(),
                added,
                n,
            )[i]).settings == SettingsView::initial(),
    decreases n,
{
    if n > 0 {
        lemma_new_folders(added, (n - 1) as nat);
    }
}

/// Where a client answers that type errors are forced off, no type error of the file is shown,
/// whatever its project says and whatever the analysis finds.
pub proof fn law_force_off(
    session: SessionView,
    uri: Seq<char>,
    k: int,
    result: JsonView,
    found: Seq<JsonView>,
)
    requires
        session.valid(),
        session.offered,
        item_for(session, uri, k, result),
        result.items()[k].section("pyrefly"@).text_at("displayTypeErrors"@) == Some("force-off"@),
    ensures
        reconfigured(session, result).shown(uri, found) == Seq::<JsonView>::empty(),
        reconfigured(session, result).diagnostics(uri, found) == report_view(Seq::empty()),
{
    law_answer_counts(session, uri, k, result);
}

/// Where a client answers that type errors are forced on, every type error that the analysis finds
/// in an open file is shown if the file's project includes it, and none if it does not, whatever
/// else the project says; none is shown of a file that is not open.
pub proof fn law_force_on(
    session: SessionView,
    uri: Seq<char>,
    k: int,
    result: JsonView,
    found: Seq<JsonView>,
)
    requires
        session.valid(),
        session.offered,
        item_for(session, uri, k, result),
        result.items()[k].section("pyrefly"@).text_at("displayTypeErrors"@) == Some("force-on"@),
    ensures
        reconfigured(session, result).diagnostics(uri, found) == report_view(
            match project_of(session.documents, uri) {
                Some(project) => if project.included {
                    found
                } else {
                    Seq::empty()
                },
                None => Seq::empty(),
            },
        ),
{
    law_answer_counts(session, uri, k, result);
    reveal_strlit("force-on");
    reveal_strlit("force-off");
    assert("force-on"@.len() != "force-off"@.len());
}

/// Where no client has forced type errors on or off, those of an open file are shown exactly if its
/// project includes it and has a configuration file that does not turn them off.
pub proof fn law_default_display(session: SessionView, uri: Seq<char>, found: Seq<JsonView>)
    requires
        session.settings_at(uri).display_type_errors == DisplayTypeErrors::Default,
        project_of(session.documents, uri) is Some,
    ensures
        ({
            let project = project_of(session.documents, uri)->0;
            session.diagnostics(uri, found) == report_view(
                if project.included && project.has_config && !project.type_errors_disabled {
                    found
                } else {
                    Seq::empty()
                },
            )
        }),
{
}

/// Type errors of a file that its project does not include are never shown.
pub proof fn law_excluded_file(session: SessionView, uri: Seq<char>, found: Seq<JsonView>)
    requires
        project_of(session.documents, uri) is Some,
        !project_of(session.documents, uri)->0.included,
    ensures
        session.shown(uri, found) == Seq::<JsonView>::empty(),
        session.diagnostics(uri, found) == report_view(Seq::empty()),
{
}

/// Where a client answers that language services are disabled, a definition is nowhere and a hover
/// shows nothing, whatever the analysis finds.
pub proof fn law_disable_language_services(
    session: SessionView,
    uri: Seq<char>,
    k: int,
    result: JsonView,
    found: JsonView,
)
    requires
        session.valid(),
        session.offered,
        item_for(session, uri, k, result),
        result.items()[k].section("pyrefly"@).flag_at("disableLanguageServices"@) == Some(true),
    ensures
        reconfigured(session, result).definition(uri, found) == JsonView::Array(Seq::empty()),
        reconfigured(session, result).hover(uri, found) == empty_hover_view(),
{
    law_answer_counts(session, uri, k, result);
}

/// Where a client answers that hovering is disabled, a hover shows nothing, and a definition is
/// where it was before if the answer says nothing of other services.
pub proof fn law_disable_hover(
    session: SessionView,
    uri: Seq<char>,
    k: int,
    result: JsonView,
    found: JsonView,
)
    requires
        session.valid(),
        session.offered,
        item_for(session, uri, k, result),
        ({
            let pyrefly = result.items()[k].section("pyrefly"@);
            let disabled = pyrefly.section("disabledLanguageServices"@);
            &&& pyrefly.flag_at("disableLanguageServices"@) is None
            &&& disabled.flag_at("definition"@) is None
            &&& disabled.flag_at("hover"@) == Some(true)
        }),
    ensures
        reconfigured(session, result).hover(uri, found) == empty_hover_view(),
        reconfigured(session, result).definition(uri, found) == session.definition(uri, found),
{
    law_answer_counts(session, uri, k, result);
}

/// An answer that says nothing of language services leaves them as they were: forcing type errors
/// on or off, or naming an interpreter, changes no definition and no hover.
pub proof fn law_services_stay(
    session: SessionView,
    uri: Seq<char>,
    k: int,
    result: JsonView,
    found: JsonView,
)
    requires
        session.valid(),
        session.offered,
        item_for(session, uri, k, result),
        ({
            let pyrefly = result.items()[k].section("pyrefly"@);
            let disabled = pyrefly.section("disabledLanguageServices"@);
            &&& pyrefly.flag_at("disableLanguageServices"@) is None
            &&& disabled.flag_at("definition"@) is None
            &&& disabled.flag_at("hover"@) is None
        }),
    ensures
        reconfigured(session, result).hover(uri, found) == session.hover(uri, found),
        reconfigured(session, result).definition(uri, found) == session.definition(uri, found),
{
    law_answer_counts(session, uri, k, result);
}

/// An answer that does not force type errors on or off leaves what is shown of them as it was:
/// naming an interpreter, or disabling language services, hides no type error and shows none.
pub proof fn law_display_stays(
    session: SessionView,
    uri: Seq<char>,
    k: int,
    result: JsonView,
    found: Seq<JsonView>,
)
    requires
        session.valid(),
        session.offered,
        item_for(session, uri, k, result),
        result.items()[k].section("pyrefly"@).text_at("displayTypeErrors"@) is None,
    ensures
        reconfigured(session, result).diagnostics(uri, found) == session.diagnostics(uri, found),
{
    law_answer_counts(session, uri, k, result);
}

/// The interpreter that a client's answer names is the one that a file's imports are looked up
/// with, unless the configuration file of its project names one: then that one stays, whatever the
/// client answers.
pub proof fn law_interpreter(session: SessionView, uri: Seq<char>, k: int, result: JsonView)
    requires
        session.valid(),
        session.offered,
        item_for(session, uri, k, result),
        result.items()[k].text_at("pythonPath"@) is Some,
    ensures
        ({
            let project = project_of(session.documents, uri);
            let after = reconfigured(session, result).interpreter(uri);
            if project is Some && project->0.interpreter is Some {
                after == project->0.interpreter && session.interpreter(uri) == after
            } else {
                after == result.items()[k].text_at("pythonPath"@)
            }
        }),
{
    law_answer_counts(session, uri, k, result);
}

/// Settings of another language server in a client's answer, under `analysis`, whatever they are,
/// keep no setting of this one from being applied.
pub proof fn law_foreign_settings(settings: SettingsView, item: JsonView, analysis: JsonView)
    ensures
        settings.configured(item.with("analysis"@, analysis)) == settings.configured(item),
{
    reveal_strlit("analysis");
    reveal_strlit("pyrefly");
    reveal_strlit("pythonPath");
    assert("analysis"@.len() != "pyrefly"@.len());
    assert("analysis"@.len() != "pythonPath"@.len());
}

/// An answer with an empty object configures nothing.
pub proof fn law_empty_item(settings: SettingsView)
    ensures
        settings.configured(JsonView::object()) == settings,
{
}

/// An answer that no request waits for changes nothing; in particular the second answer to one
/// request does.
pub proof fn law_unawaited_answer(session: SessionView, id: int, first: JsonView, second: JsonView)
    requires
        session.valid(),
    ensures
        session.awaited(id) is None ==> session.responded(id, first) == session,
        session.responded(id, first).responded(id, second) == session.responded(id, first),
{
    let after = session.responded(id, first);
    request_ids(session.pending).index_of_first_ensures(id);
    request_ids(after.pending).index_of_first_ensures(id);
    if let Some(i) = session.awaited(id) {
        assert forall|j: int| 0 <= j < after.pending.len() implies request_ids(after.pending)[j]
            != id by {
            assert(after.pending[j] == session.pending[if j < i { j } else { j + 1 }]);
            assert(session.pending[i].id == id);
        }
    }
}

/// The requests of a client are numbered one by one, and so are the requests for configuration.
pub proof fn law_numbers(session: SessionView)
    ensures
        session.numbered().next_request == session.next_request + 1,
        session.numbered().next_configuration == session.next_configuration,
        session.requested().next_request == session.next_request,
        session.offered ==> session.request() is Some && session.requested().request() is Some
            && session.request()->0.id == session.next_configuration
            && session.requested().request()->0.id == session.request()->0.id + 1,
{
}

/// A request for configuration asks for every folder, in their order, and for no other.
pub proof fn law_scopes(session: SessionView)
    requires
        session.offered,
    ensures
        session.request() is Some,
        session.request()->0.scopes == folder_uris(session.folders),
        session.folders.len() == 0 ==> session.request()->0.params() == unscoped_params(),
{
    assert(session.folders.len() == 0 ==> session.request()->0.scopes.len() == 0);
}

proof fn lemma_folder_change(added: Seq<JsonView>, removed: Seq<JsonView>)
    ensures
        folder_change(added, removed).section("event"@).section("added"@).items() == added,
        folder_change(added, removed).section("event"@).section("removed"@).items() == removed,
{
    reveal_strlit("added");
    reveal_strlit("removed");
    assert("added"@.len() != "removed"@.len());
}

proof fn lemma_folder_entry(name: Seq<char>, uri: Seq<char>)
    ensures
        folder_entry(name, uri).text_at("uri"@) == Some(uri),
        folder_entry(name, uri).text_at("name"@) == Some(name),
{
    reveal_strlit("uri");
    reveal_strlit("name");
    assert("uri"@.len() != "name"@.len());
}

/// A folder that a client adds is the last that the request for configuration then asks for, is not
/// configured yet, and goes away again without a trace when the client removes it.
pub proof fn law_added_folder(session: SessionView, name: Seq<char>, uri: Seq<char>)
    requires
        session.valid(),
        session.offered,
        !has_folder(session.folders, uri),
    ensures
        ({
            let entry = folder_entry(name, uri);
            let added = session.refoldered(folder_change(seq![entry], Seq::empty()));
            let removed = added.refoldered(folder_change(Seq::empty(), seq![entry]));
            &&& added.request() is Some
            &&& added.request()->0.scopes == folder_uris(session.folders).push(uri)
            &&& added.folders.last().settings == SettingsView::initial()
            &&& removed == session
        }),
{
    let entry = folder_entry(name, uri);
    let new = FolderView { name, uri, settings: SettingsView::initial() };
    let change = folder_change(seq![entry], Seq::empty());
    let undo = folder_change(Seq::empty(), seq![entry]);
    lemma_folder_entry(name, uri);
    lemma_folder_change(seq![entry], Seq::empty());
    lemma_folder_change(Seq::empty(), seq![entry]);
    let none = Seq::<JsonView>::empty();
    lemma_filter_all(session.folders, |folder: FolderView| !named_by(none, folder.uri));
    assert(without_folders(session.folders, none) == session.folders);
    reveal_with_fuel(with_entries, 2);
    let added = session.refoldered(change);
    assert(added.folders == session.folders.push(new));
    assert(folder_uris(added.folders) =~= folder_uris(session.folders).push(uri));
    let keep = |folder: FolderView| !named_by(seq![entry], folder.uri);
    assert forall|i: int| 0 <= i < session.folders.len() implies keep(
        #[trigger] session.folders[i],
    ) by {
        assert(session.folders[i].uri != uri);
    }
    lemma_filter_all(session.folders, keep);
    reveal(Seq::filter);
    assert(added.folders.drop_last() =~= session.folders);
    assert(seq![entry][0].text_at("uri"@) == Some(uri));
    assert(!keep(new));
    assert(added.folders.filter(keep) == session.folders);
    assert(added.refoldered(undo) == session);
}

proof fn lemma_filter_all(folders: Seq<FolderView>, keep: spec_fn(FolderView) -> bool)
    requires
        forall|i: int| 0 <= i < folders.len() ==> keep(#[trigger] folders[i]),
    ensures
        folders.filter(keep) == folders,
    decreases folders.len(),
{
    reveal(Seq::filter);
    if folders.len() > 0 {
        let rest = folders.drop_last();
        assert forall|i: int| 0 <= i < rest.len() implies keep(#[trigger] rest[i]) by {
            assert(folders[i] == rest[i]);
        }
        lemma_filter_all(rest, keep);
        assert(folders =~= rest.push(folders.last()));
        assert(keep(folders[folders.len() - 1]));
    }
}

/// The URI of a file below a folder is within the folder's, where their paths are plain, so the
/// folder's settings count for the file where no folder is closer to it.
pub proof fn law_files_below_a_folder(
    folder: Seq<char>,
    root: Seq<char>,
    uri: Seq<char>,
    file: Seq<char>,
)
    requires
        names(folder, root),
        names(uri, joined(root, file)),
        plain_path(root),
        plain_path(joined(root, file)),
        file.len() > 0 ==> file[0] != '/',
    ensures
        within(folder, uri),
{
    assert(uri.take(folder.len() as int) =~= folder);
    assert(joined(root, file)[root.len() as int] == '/');
    assert(uri[folder.len() as int] == '/');
}

/// Seeing a path from a second path, and that from a base, is seeing it from where the second path
/// leads from the base.
pub proof fn law_join_by_steps(base: Seq<char>, middle: Seq<char>, rest: Seq<char>)
    ensures
        joined(joined(base, middle), rest) == joined(base, joined(middle, rest)),
{
    assert(joined(joined(base, middle), rest) =~= joined(base, joined(middle, rest)));
}

/// Stand-ins for interpreters at two paths are two scripts: no stand-in reports what another one
/// does.
pub proof fn law_stand_ins_differ(one: Seq<char>, other: Seq<char>)
    requires
        interpreter_path(one) != interpreter_path(other),
    ensures
        interpreter_script(site_packages_path(one)) != interpreter_script(
            site_packages_path(other),
        ),
{
    reveal_strlit("bin/python");
    reveal_strlit("bin/site-packages");
    lemma_joined_apart(one, other, "bin/python"@, "bin/site-packages"@);
    lemma_script_injective(site_packages_path(one), site_packages_path(other));
}

/// A stand-in reports the folder of packages that lies beside it.
pub proof fn law_packages_beside_stand_in(folder: Seq<char>)
    ensures
        interpreter_path(folder) == joined(joined(folder, "bin"@), "python"@),
        site_packages_path(folder) == joined(joined(folder, "bin"@), "site-packages"@),
{
    reveal_strlit("bin");
    reveal_strlit("python");
    reveal_strlit("site-packages");
    reveal_strlit("bin/python");
    reveal_strlit("bin/site-packages");
    law_join_by_steps(folder, "bin"@, "python"@);
    law_join_by_steps(folder, "bin"@, "site-packages"@);
    assert(joined("bin"@, "python"@) =~= "bin/python"@);
    assert(joined("bin"@, "site-packages"@) =~= "bin/site-packages"@);
}

/// What lies in the folder of packages that a stand-in reports is seen from `root` at the
/// stand-in's folder, then `bin/site-packages`, then its name.
pub proof fn law_reported_module(root: Seq<char>, folder: Seq<char>, module: Seq<char>)
    ensures
        joined(site_packages_path(joined(root, folder)), module) == joined(
            root,
            joined(joined(folder, "bin/site-packages"@), module),
        ),
{
    law_join_by_steps(root, folder, "bin/site-packages"@);
    law_join_by_steps(root, joined(folder, "bin/site-packages"@), module);
}

/// The module that the sample files import, wherever they lie, is in the folder of packages that
/// the stand-in beside it reports.
pub proof fn law_sample_module_reported(root: Seq<char>)
    ensures
        site_packages_path(joined(root, "custom_interpreter"@)) == joined(
            root,
            "custom_interpreter/bin/site-packages"@,
        ),
        joined(site_packages_path(joined(root, "custom_interpreter"@)), "custom_module.py"@)
            == joined(root, "custom_interpreter/bin/site-packages/custom_module.py"@),
        site_packages_path(joined(root, "custom_interpreter_config"@)) == joined(
            root,
            "custom_interpreter_config/bin/site-packages"@,
        ),
        joined(site_packages_path(joined(root, "custom_interpreter_config"@)), "custom_module.py"@)
            == joined(root, "custom_interpreter_config/bin/site-packages/custom_module.py"@),
{
    reveal_strlit("bin/site-packages");
    reveal_strlit("custom_module.py");
    reveal_strlit("custom_interpreter");
    reveal_strlit("custom_interpreter/bin/site-packages");
    reveal_strlit("custom_interpreter/bin/site-packages/custom_module.py");
    reveal_strlit("custom_interpreter_config");
    reveal_strlit("custom_interpreter_config/bin/site-packages");
    reveal_strlit("custom_interpreter_config/bin/site-packages/custom_module.py");
    let plain = joined("custom_interpreter"@, "bin/site-packages"@);
    assert(plain =~= "custom_interpreter/bin/site-packages"@);
    assert(joined(plain, "custom_module.py"@)
        =~= "custom_interpreter/bin/site-packages/custom_module.py"@);
    law_join_by_steps(root, "custom_interpreter"@, "bin/site-packages"@);
    law_join_by_steps(root, plain, "custom_module.py"@);
    let configured = joined("custom_interpreter_config"@, "bin/site-packages"@);
    assert(configured =~= "custom_interpreter_config/bin/site-packages"@);
    assert(joined(configured, "custom_module.py"@)
        =~= "custom_interpreter_config/bin/site-packages/custom_module.py"@);
    law_join_by_steps(root, "custom_interpreter_config"@, "bin/site-packages"@);
    law_join_by_steps(root, configured, "custom_module.py"@);
}

/// Two folders that one path is seen from differently see every path differently.
proof fn lemma_joined_apart(
    one: Seq<char>,
    other: Seq<char>,
    first: Seq<char>,
    second: Seq<char>,
)
    requires
        joined(one, first) != joined(other, first),
        first.len() > 0 ==> first[0] != '/',
        second.len() > 0 ==> second[0] != '/',
    ensures
        joined(one, second) != joined(other, second),
{
    let a = joined(one, second);
    let b = joined(other, second);
    if a == b {
        let n = a.len() - second.len();
        assert(joined(one, first) =~= a.take(n) + first);
        assert(joined(other, first) =~= b.take(n) + first);
    }
}

/// Whether `one` is `other` with a separator that `joined` would put behind it.
pub open spec fn closed_by_separator(one: Seq<char>, other: Seq<char>) -> bool {
    other.len() > 0 && other.last() != '/' && one == other.push('/')
}

/// The stand-ins for interpreters in two folders are at two paths; a folder with a separator behind
/// it is no other.
pub proof fn law_stand_ins_apart(one: Seq<char>, other: Seq<char>)
    requires
        one != other,
        !closed_by_separator(one, other),
        !closed_by_separator(other, one),
    ensures
        interpreter_path(one) != interpreter_path(other),
{
    reveal_strlit("bin/python");
    let rest = "bin/python"@;
    let a = interpreter_path(one);
    let b = interpreter_path(other);
    if a == b {
        let n = a.len() - rest.len();
        let opened = |folder: Seq<char>| folder.len() == 0 || folder.last() == '/';
        assert(a.take(n) =~= if opened(one) { one } else { one.push('/') });
        assert(b.take(n) =~= if opened(other) { other } else { other.push('/') });
        if !opened(one) && !opened(other) {
            assert(one =~= one.push('/').drop_last());
            assert(other =~= other.push('/').drop_last());
        }
    }
}

proof fn lemma_script_injective(one: Seq<char>, other: Seq<char>)
    requires
        one != other,
    ensures
        interpreter_script(one) != interpreter_script(other),
{
    let head = SCRIPT_HEAD@;
    let tail = SCRIPT_TAIL@;
    let a = interpreter_script(one);
    let b = interpreter_script(other);
    if a == b {
        assert(a.len() == head.len() + one.len() + tail.len());
        assert(b.len() == head.len() + other.len() + tail.len());
        assert(one =~= a.subrange(head.len() as int, (head.len() + one.len()) as int));
        assert(other =~= b.subrange(head.len() as int, (head.len() + one.len()) as int));
    }
}

} // verus!
