//! Workspace folders, and which of them governs a file.

use crate::json::{Json, JsonView};
use crate::settings::{newer, Settings, SettingsView};
use vstd::prelude::*;

verus! {

/// A workspace folder with its settings.
#[derive(Debug)]
pub struct Folder {
    pub name: String,
    pub uri: String,
    pub settings: Settings,
}

/// A workspace folder with its settings.
pub struct FolderView {
    pub name: Seq<char>,
    pub uri: Seq<char>,
    pub settings: SettingsView,
}

impl View for Folder {
    type V = FolderView;

    open spec fn view(&self) -> FolderView {
        FolderView { name: self.name@, uri: self.uri@, settings: self.settings@ }
    }
}

/// The views of workspace folders, one by one.
pub open spec fn folder_views(folders: Seq<Folder>) -> Seq<FolderView> {
    Seq::new(folders.len(), |i: int| folders[i]@)
}

/// The URIs of workspace folders, one by one.
pub open spec fn folder_uris(folders: Seq<FolderView>) -> Seq<Seq<char>> {
    Seq::new(folders.len(), |i: int| folders[i].uri)
}

/// Whether one of the folders is at `uri`.
pub open spec fn has_folder(folders: Seq<FolderView>, uri: Seq<char>) -> bool {
    exists|i: int| 0 <= i < folders.len() && (#[trigger] folders[i]).uri == uri
}

/// Whether no two of the folders are at the same URI.
pub open spec fn distinct(folders: Seq<FolderView>) -> bool {
    forall|i: int, j: int|
        0 <= i < j < folders.len() ==> (#[trigger] folders[i]).uri != (#[trigger] folders[j]).uri
}

/// Whether `uri` names the folder at `folder`, or something below it.
pub open spec fn within(folder: Seq<char>, uri: Seq<char>) -> bool {
    &&& folder.len() <= uri.len()
    &&& uri.take(folder.len() as int) == folder
    &&& {
        ||| uri.len() == folder.len()
        ||| folder.len() > 0 && folder.last() == '/'
        ||| uri[folder.len() as int] == '/'
    }
}

/// Whether the folder at `i` is the innermost of those that `uri` is within.
pub open spec fn governs(folders: Seq<FolderView>, uri: Seq<char>, i: int) -> bool {
    &&& 0 <= i < folders.len()
    &&& within(folders[i].uri, uri)
    &&& forall|j: int|
        0 <= j < folders.len() && within((#[trigger] folders[j]).uri, uri) ==> folders[j].uri.len()
            < folders[i].uri.len() || (folders[j].uri.len() == folders[i].uri.len() && i <= j)
}

/// The settings that count for `uri`: those of the innermost folder that it is within, and the
/// settings for files of no folder where it is within none.
pub open spec fn settings_for(
    folders: Seq<FolderView>,
    default_settings: SettingsView,
    uri: Seq<char>,
) -> SettingsView {
    if exists|i: int| governs(folders, uri, i) {
        folders[choose|i: int| governs(folders, uri, i)].settings
    } else {
        default_settings
    }
}

/// At most one folder governs a file.
pub proof fn lemma_governs_unique(folders: Seq<FolderView>, uri: Seq<char>, i: int, j: int)
    requires
        governs(folders, uri, i),
        governs(folders, uri, j),
    ensures
        i == j,
{
    assert(within(folders[i].uri, uri) && within(folders[j].uri, uri));
}

/// Whether `uri` names the folder at `folder`, or something below it.
pub fn is_within(folder: &str, uri: &str) -> (inside: bool)
    ensures
        inside == within(folder@, uri@),
{
    let n: usize = folder.unicode_len();
    let m: usize = uri.unicode_len();
    if n > m {
        return false;
    }
    if uri.substring_char(0, n).to_owned() != folder.to_owned() {
        return false;
    }
    m == n || (n > 0 && folder.get_char(n - 1) == '/') || uri.get_char(n) == '/'
}

/// The index of the innermost folder that `uri` is within.
pub fn governing_folder(folders: &Vec<Folder>, uri: &str) -> (at: Option<usize>)
    ensures
        match at {
            Some(i) => governs(folder_views(folders@), uri@, i as int),
            None => forall|i: int| !governs(folder_views(folders@), uri@, i),
        },
{
    let ghost views = folder_views(folders@);
    let mut best: Option<usize> = None;
    let mut i: usize = 0;
    while i < folders.len()
        invariant
            i <= folders@.len(),
            views == folder_views(folders@),
            match best {
                Some(b) => {
                    &&& b < i
                    &&& within(views[b as int].uri, uri@)
                    &&& forall|j: int|
                        0 <= j < i && within((#[trigger] views[j]).uri, uri@)
                            ==> views[j].uri.len() < views[b as int].uri.len() || (
                        views[j].uri.len() == views[b as int].uri.len() && b <= j)
                },
                None => forall|j: int| 0 <= j < i ==> !within((#[trigger] views[j]).uri, uri@),
            },
        decreases folders@.len() - i,
    {
        if is_within(folders[i].uri.as_str(), uri) {
            match best {
                Some(b) => {
                    let longest: usize = folders[b].uri.as_str().unicode_len();
                    if longest < folders[i].uri.as_str().unicode_len() {
                        best = Some(i);
                    }
                },
                None => {
                    best = Some(i);
                },
            }
        }
        i = i + 1;
    }
    best
}

/// The settings that count for `uri`.
pub fn settings_at<'a>(
    folders: &'a Vec<Folder>,
    default_settings: &'a Settings,
    uri: &str,
) -> (settings: &'a Settings)
    ensures
        settings@ == settings_for(folder_views(folders@), default_settings@, uri@),
{
    match governing_folder(folders, uri) {
        Some(i) => {
            proof {
                let views = folder_views(folders@);
                let k = choose|k: int| governs(views, uri@, k);
                lemma_governs_unique(views, uri@, i as int, k);
            }
            &folders[i].settings
        },
        None => default_settings,
    }
}

/// The folders with one more at `uri`, not configured yet, unless one is there already.
pub open spec fn with_folder(folders: Seq<FolderView>, name: Seq<char>, uri: Seq<char>) -> Seq<
    FolderView,
> {
    if has_folder(folders, uri) {
        folders
    } else {
        folders.push(FolderView { name, uri, settings: SettingsView::initial() })
    }
}

/// The folders with those of the first `n` of `added`, each given by its name and its URI.
pub open spec fn with_folders(
    folders: Seq<FolderView>,
    added: Seq<(Seq<char>, Seq<char>)>,
    n: nat,
) -> Seq<FolderView>
    decreases n,
{
    if n == 0 {
        folders
    } else {
        with_folder(
            with_folders(folders, added, (n - 1) as nat),
            added[n - 1].0,
            added[n - 1].1,
        )
    }
}

/// The folders without those that an item of `removed` names by its URI.
pub open spec fn without_folders(folders: Seq<FolderView>, removed: Seq<JsonView>) -> Seq<
    FolderView,
> {
    folders.filter(|folder: FolderView| !named_by(removed, folder.uri))
}

/// Whether an item of `entries` has `uri` for its URI.
pub open spec fn named_by(entries: Seq<JsonView>, uri: Seq<char>) -> bool {
    exists|i: int| 0 <= i < entries.len() && (#[trigger] entries[i]).text_at("uri"@) == Some(uri)
}

/// The folders with those that the first `n` items of `added` give by name and URI. An item
/// without a URI gives none.
pub open spec fn with_entries(folders: Seq<FolderView>, added: Seq<JsonView>, n: nat) -> Seq<
    FolderView,
>
    decreases n,
{
    if n == 0 {
        folders
    } else {
        let before = with_entries(folders, added, (n - 1) as nat);
        match added[n - 1].text_at("uri"@) {
            Some(uri) => with_folder(
                before,
                newer(added[n - 1].text_at("name"@), Seq::empty()),
                uri,
            ),
            None => before,
        }
    }
}

/// Adding folders keeps their URIs distinct.
pub proof fn lemma_with_folders_distinct(
    folders: Seq<FolderView>,
    added: Seq<(Seq<char>, Seq<char>)>,
    n: nat,
)
    requires
        distinct(folders),
    ensures
        distinct(with_folders(folders, added, n)),
    decreases n,
{
    if n > 0 {
        lemma_with_folders_distinct(folders, added, (n - 1) as nat);
    }
}

/// Adding folders keeps their URIs distinct.
pub proof fn lemma_with_entries_distinct(folders: Seq<FolderView>, added: Seq<JsonView>, n: nat)
    requires
        distinct(folders),
    ensures
        distinct(with_entries(folders, added, n)),
    decreases n,
{
    if n > 0 {
        lemma_with_entries_distinct(folders, added, (n - 1) as nat);
    }
}

/// Picking some of the folders keeps their URIs distinct.
pub proof fn lemma_filter_distinct(folders: Seq<FolderView>, keep: spec_fn(FolderView) -> bool)
    requires
        distinct(folders),
    ensures
        distinct(folders.filter(keep)),
        forall|i: int|
            0 <= i < folders.filter(keep).len() ==> has_folder(
                folders,
                (#[trigger] folders.filter(keep)[i]).uri,
            ),
    decreases folders.len(),
{
    reveal(Seq::filter);
    if folders.len() > 0 {
        let rest = folders.drop_last();
        lemma_filter_distinct(rest, keep);
        assert forall|uri: Seq<char>| has_folder(rest, uri) implies has_folder(folders, uri) by {
            let k = choose|k: int| 0 <= k < rest.len() && (#[trigger] rest[k]).uri == uri;
            assert(folders[k].uri == uri);
        }
        assert(!has_folder(rest, folders.last().uri)) by {
            assert forall|k: int| 0 <= k < rest.len() implies (#[trigger] rest[k]).uri
                != folders.last().uri by {
                assert(folders[k] == rest[k]);
                assert(folders[folders.len() - 1] == folders.last());
            }
        }
        assert(has_folder(folders, folders.last().uri)) by {
            assert(folders[folders.len() - 1] == folders.last());
        }
    }
}

/// Whether one of the folders is at `uri`.
fn contains_folder(folders: &Vec<Folder>, uri: &String) -> (found: bool)
    ensures
        found == has_folder(folder_views(folders@), uri@),
{
    let ghost views = folder_views(folders@);
    let mut i: usize = 0;
    while i < folders.len()
        invariant
            i <= folders@.len(),
            views == folder_views(folders@),
            forall|j: int| 0 <= j < i ==> (#[trigger] views[j]).uri != uri@,
        decreases folders@.len() - i,
    {
        if folders[i].uri == *uri {
            assert(views[i as int].uri == uri@);
            return true;
        }
        i = i + 1;
    }
    false
}

/// Adds a folder at `uri`, not configured yet, unless one is there already.
pub fn add_folder(folders: &mut Vec<Folder>, name: String, uri: String)
    ensures
        folder_views(final(folders)@) == with_folder(folder_views(old(folders)@), name@, uri@),
{
    if !contains_folder(folders, &uri) {
        let ghost before = folders@;
        let folder = Folder { name, uri, settings: Settings::initial() };
        folders.push(folder);
        assert(folder_views(folders@) =~= folder_views(before).push(folder@));
    }
}

/// Adds the folders that the items of `added` give.
pub fn add_entries(folders: &mut Vec<Folder>, added: &Json)
    ensures
        folder_views(final(folders)@) == with_entries(
            folder_views(old(folders)@),
            added@.items(),
            added@.items().len(),
        ),
{
    let ghost before = folder_views(folders@);
    let n: usize = added.len();
    let mut i: usize = 0;
    while i < n
        invariant
            i <= n == added@.items().len(),
            folder_views(folders@) == with_entries(before, added@.items(), i as nat),
        decreases n - i,
    {
        let entry = added.item(i);
        if let Some(uri) = entry.text_at("uri") {
            let name = match entry.text_at("name") {
                Some(name) => name.clone(),
                None => String::new(),
            };
            add_folder(folders, name, uri.clone());
        }
        i = i + 1;
    }
}

/// Whether an item of `entries` has `uri` for its URI.
fn is_named_by(entries: &Json, uri: &String) -> (named: bool)
    ensures
        named == named_by(entries@.items(), uri@),
{
    let n: usize = entries.len();
    let mut i: usize = 0;
    while i < n
        invariant
            i <= n == entries@.items().len(),
            forall|j: int|
                0 <= j < i ==> (#[trigger] entries@.items()[j]).text_at("uri"@) != Some(uri@),
        decreases n - i,
    {
        if let Some(named) = entries.item(i).text_at("uri") {
            if *named == *uri {
                assert(entries@.items()[i as int].text_at("uri"@) == Some(uri@));
                return true;
            }
        }
        i = i + 1;
    }
    false
}

/// Removes the folders that the items of `removed` name.
pub fn remove_entries(folders: &mut Vec<Folder>, removed: &Json)
    ensures
        folder_views(final(folders)@) == without_folders(
            folder_views(old(folders)@),
            removed@.items(),
        ),
{
    let ghost before = folder_views(folders@);
    let ghost keep = |folder: FolderView| !named_by(removed@.items(), folder.uri);
    let mut done: Vec<Folder> = Vec::new();
    proof {
        reveal(Seq::filter);
        assert(before.take(0) =~= Seq::<FolderView>::empty());
        assert(folder_views(done@) =~= before.take(0).filter(keep));
    }
    let mut i: usize = 0;
    while i < folders.len()
        invariant
            i <= folders@.len(),
            before == folder_views(folders@),
            keep == (|folder: FolderView| !named_by(removed@.items(), folder.uri)),
            folder_views(done@) == before.take(i as int).filter(keep),
        decreases folders@.len() - i,
    {
        let folder = &folders[i];
        let ghost so_far = done@;
        proof {
            reveal(Seq::filter);
            assert(before.take(i + 1).drop_last() =~= before.take(i as int));
        }
        if !is_named_by(removed, &folder.uri) {
            let kept = Folder {
                name: folder.name.clone(),
                uri: folder.uri.clone(),
                settings: folder.settings.copy(),
            };
            done.push(kept);
            assert(folder_views(done@) =~= folder_views(so_far).push(before[i as int]));
        }
        i = i + 1;
    }
    assert(before.take(folders@.len() as int) =~= before);
    *folders = done;
}

} // verus!
