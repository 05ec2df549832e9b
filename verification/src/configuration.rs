//! The exchange by which a server learns its client's configuration: the request, and what the
//! answer does to the workspace folders.

use crate::json::{json_views, Json, JsonView};
use crate::methods::workspace_configuration;
use crate::settings::{Settings, SettingsView};
use crate::workspace::{folder_uris, folder_views, Folder, FolderView};
use vstd::prelude::*;

verus! {

/// A server's request for configuration.
#[derive(Debug)]
pub struct ConfigurationRequest {
    /// The number of the request.
    pub id: i32,
    /// The URIs of the workspace folders that it asks for; none where it asks for the
    /// configuration of files of no folder.
    pub scopes: Vec<String>,
}

/// A server's request for configuration.
pub struct RequestView {
    pub id: int,
    pub scopes: Seq<Seq<char>>,
}

/// The texts of strings, one by one.
pub open spec fn texts(strings: Seq<String>) -> Seq<Seq<char>> {
    Seq::new(strings.len(), |i: int| strings[i]@)
}

impl View for ConfigurationRequest {
    type V = RequestView;

    open spec fn view(&self) -> RequestView {
        RequestView { id: self.id as int, scopes: texts(self.scopes@) }
    }
}

/// The views of requests, one by one.
pub open spec fn request_views(requests: Seq<ConfigurationRequest>) -> Seq<RequestView> {
    Seq::new(requests.len(), |i: int| requests[i]@)
}

/// The numbers of requests, one by one.
pub open spec fn request_ids(requests: Seq<RequestView>) -> Seq<int> {
    Seq::new(requests.len(), |i: int| requests[i].id)
}

/// What is asked for one scope.
pub open spec fn scoped_item(scope: Seq<char>) -> JsonView {
    JsonView::object().with("scopeUri"@, JsonView::Text(scope)).with(
        "section"@,
        JsonView::Text("python"@),
    )
}

/// What is asked for files of no folder.
pub open spec fn unscoped_item() -> JsonView {
    JsonView::object().with("section"@, JsonView::Text("python"@))
}

/// The parameters of a request for the configuration of files of no folder.
pub open spec fn unscoped_params() -> JsonView {
    JsonView::object().with("items"@, JsonView::Array(seq![unscoped_item()]))
}

/// The parameters of a request for the configuration of files of no folder.
pub fn unscoped() -> (params: Json)
    ensures
        params@ == unscoped_params(),
{
    let mut items: Vec<Json> = Vec::new();
    items.push(Json::object().with("section", Json::text("python")));
    assert(json_views(items@) =~= seq![unscoped_item()]);
    Json::object().with("items", Json::array(items))
}

impl RequestView {
    /// The parameters of the request: one item for each scope, or the one without a scope.
    pub open spec fn params(self) -> JsonView {
        if self.scopes.len() == 0 {
            unscoped_params()
        } else {
            JsonView::object().with(
                "items"@,
                JsonView::Array(
                    Seq::new(self.scopes.len(), |i: int| scoped_item(self.scopes[i])),
                ),
            )
        }
    }
}

impl ConfigurationRequest {
    /// The method of the request.
    pub fn method(&self) -> (method: String)
        ensures
            method@ == "workspace/configuration"@,
    {
        workspace_configuration()
    }

    /// The parameters of the request.
    pub fn params(&self) -> (params: Json)
        ensures
            params@ == self@.params(),
    {
        if self.scopes.len() == 0 {
            return unscoped();
        }
        let mut items: Vec<Json> = Vec::new();
        let mut i: usize = 0;
        while i < self.scopes.len()
            invariant
                i <= self.scopes@.len(),
                items@.len() == i,
                forall|j: int|
                    0 <= j < i ==> (#[trigger] items@[j])@ == scoped_item(self.scopes@[j]@),
            decreases self.scopes@.len() - i,
        {
            let item = Json::object().with("scopeUri", Json::text(self.scopes[i].as_str()));
            items.push(item.with("section", Json::text("python")));
            i = i + 1;
        }
        assert(json_views(items@) =~= Seq::new(
            self@.scopes.len(),
            |i: int| scoped_item(self@.scopes[i]),
        ));
        Json::object().with("items", Json::array(items))
    }
}

/// A folder after its client has answered a request for `scopes` with `items`: configured by the
/// item in the place of the folder's URI, and as it was where the answer has no such item.
pub open spec fn answered_folder(
    folder: FolderView,
    scopes: Seq<Seq<char>>,
    items: Seq<JsonView>,
) -> FolderView {
    match scopes.index_of_first(folder.uri) {
        Some(i) => if i < items.len() {
            FolderView { settings: folder.settings.configured(items[i]), ..folder }
        } else {
            folder
        },
        None => folder,
    }
}

/// The folders after their client has answered a request for `scopes` with `items`.
pub open spec fn answered_folders(
    folders: Seq<FolderView>,
    scopes: Seq<Seq<char>>,
    items: Seq<JsonView>,
) -> Seq<FolderView> {
    Seq::new(folders.len(), |i: int| answered_folder(folders[i], scopes, items))
}

/// The settings for files of no folder after their client has answered a request for `scopes`
/// with `items`: configured by the first item of the answer to a request without scopes, and else
/// as they were.
pub open spec fn answered_default(
    settings: SettingsView,
    scopes: Seq<Seq<char>>,
    items: Seq<JsonView>,
) -> SettingsView {
    if scopes.len() == 0 && items.len() > 0 {
        settings.configured(items[0])
    } else {
        settings
    }
}

/// The first place of `needle` is the one before which it does not occur.
pub proof fn lemma_first_index<A>(s: Seq<A>, needle: A, i: int)
    requires
        0 <= i < s.len(),
        s[i] == needle,
        forall|j: int| 0 <= j < i ==> s[j] != needle,
    ensures
        s.index_of_first(needle) == Some(i),
{
    s.index_of_first_ensures(needle);
}

/// The place of `uri` among `scopes`.
fn scope_index(scopes: &Vec<String>, uri: &String) -> (at: Option<usize>)
    ensures
        match at {
            Some(i) => texts(scopes@).index_of_first(uri@) == Some(i as int),
            None => texts(scopes@).index_of_first(uri@) is None,
        },
{
    let ghost all = texts(scopes@);
    let mut i: usize = 0;
    while i < scopes.len()
        invariant
            i <= scopes@.len(),
            all == texts(scopes@),
            forall|j: int| 0 <= j < i ==> all[j] != uri@,
        decreases scopes@.len() - i,
    {
        if scopes[i] == *uri {
            proof {
                lemma_first_index(all, uri@, i as int);
            }
            return Some(i);
        }
        i = i + 1;
    }
    proof {
        all.index_of_first_ensures(uri@);
    }
    None
}

/// The place of the request number `id` among `requests`.
pub fn request_index(requests: &Vec<ConfigurationRequest>, id: i32) -> (at: Option<usize>)
    ensures
        match at {
            Some(i) => request_ids(request_views(requests@)).index_of_first(id as int) == Some(
                i as int,
            ),
            None => request_ids(request_views(requests@)).index_of_first(id as int) is None,
        },
{
    let ghost all = request_ids(request_views(requests@));
    let mut i: usize = 0;
    while i < requests.len()
        invariant
            i <= requests@.len(),
            all == request_ids(request_views(requests@)),
            forall|j: int| 0 <= j < i ==> all[j] != id,
        decreases requests@.len() - i,
    {
        if requests[i].id == id {
            proof {
                lemma_first_index(all, id as int, i as int);
            }
            return Some(i);
        }
        i = i + 1;
    }
    proof {
        all.index_of_first_ensures(id as int);
    }
    None
}

/// The URIs of the folders.
pub fn scopes_of(folders: &Vec<Folder>) -> (scopes: Vec<String>)
    ensures
        texts(scopes@) == folder_uris(folder_views(folders@)),
{
    let mut scopes: Vec<String> = Vec::new();
    let mut i: usize = 0;
    while i < folders.len()
        invariant
            i <= folders@.len(),
            scopes@.len() == i,
            forall|j: int| 0 <= j < i ==> (#[trigger] scopes@[j])@ == folders@[j].uri@,
        decreases folders@.len() - i,
    {
        scopes.push(folders[i].uri.clone());
        i = i + 1;
    }
    assert(texts(scopes@) =~= folder_uris(folder_views(folders@)));
    scopes
}

/// Configures the folders by a client's answer to a request for `scopes`.
pub fn answer_folders(folders: &mut Vec<Folder>, scopes: &Vec<String>, result: &Json)
    ensures
        folder_views(final(folders)@) == answered_folders(
            folder_views(old(folders)@),
            texts(scopes@),
            result@.items(),
        ),
{
    let ghost before = folder_views(folders@);
    let ghost expected = answered_folders(before, texts(scopes@), result@.items());
    let n: usize = result.len();
    let mut done: Vec<Folder> = Vec::new();
    let mut i: usize = 0;
    while i < folders.len()
        invariant
            i <= folders@.len(),
            n == result@.items().len(),
            before == folder_views(folders@),
            expected == answered_folders(before, texts(scopes@), result@.items()),
            done@.len() == i,
            forall|j: int| 0 <= j < i ==> (#[trigger] done@[j])@ == expected[j],
        decreases folders@.len() - i,
    {
        let folder = &folders[i];
        let settings = match scope_index(scopes, &folder.uri) {
            Some(k) => if k < n {
                folder.settings.configured(result.item(k))
            } else {
                folder.settings.copy()
            },
            None => folder.settings.copy(),
        };
        let answered = Folder { name: folder.name.clone(), uri: folder.uri.clone(), settings };
        assert(answered@ == answered_folder(before[i as int], texts(scopes@), result@.items()));
        done.push(answered);
        i = i + 1;
    }
    assert(folder_views(done@) =~= expected);
    *folders = done;
}

/// The settings for files of no folder after their client has answered a request for `scopes`.
pub fn answer_default(settings: &Settings, scopes: &Vec<String>, result: &Json) -> (answered:
    Settings)
    ensures
        answered@ == answered_default(settings@, texts(scopes@), result@.items()),
{
    if scopes.len() == 0 && result.len() > 0 {
        settings.configured(result.item(0))
    } else {
        settings.copy()
    }
}

} // verus!
