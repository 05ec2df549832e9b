//! The configuration that clients answer with, and the notifications that they send.

use crate::json::{json_views, Json, JsonView};
use vstd::prelude::*;

verus! {

/// An answer of one item.
pub open spec fn one_item(item: JsonView) -> JsonView {
    JsonView::Array(seq![item])
}

/// An answer of one item.
pub fn answer(item: Json) -> (result: Json)
    ensures
        result@ == one_item(item@),
{
    let mut items: Vec<Json> = Vec::new();
    items.push(item);
    assert(json_views(items@) =~= seq![item@]);
    Json::array(items)
}

/// An item that gives `pyrefly` under that name.
pub open spec fn pyrefly_item(pyrefly: JsonView) -> JsonView {
    JsonView::object().with("pyrefly"@, pyrefly)
}

/// The answer that gives nothing.
pub open spec fn nothing_view() -> JsonView {
    one_item(JsonView::object())
}

/// The answer that gives nothing.
pub fn nothing() -> (result: Json)
    ensures
        result@ == nothing_view(),
{
    answer(Json::object())
}

/// The item that sets `displayTypeErrors` to `mode`.
pub open spec fn display_item(mode: Seq<char>) -> JsonView {
    pyrefly_item(JsonView::object().with("displayTypeErrors"@, JsonView::Text(mode)))
}

/// The answer that sets `displayTypeErrors` to `mode`.
pub open spec fn display_view(mode: Seq<char>) -> JsonView {
    one_item(display_item(mode))
}

/// The answer that sets `displayTypeErrors` to `mode`.
pub fn display(mode: &str) -> (result: Json)
    ensures
        result@ == display_view(mode@),
{
    let pyrefly = Json::object().with("displayTypeErrors", Json::text(mode));
    answer(Json::object().with("pyrefly", pyrefly))
}

/// The item that disables every language service.
pub open spec fn services_off_item() -> JsonView {
    pyrefly_item(JsonView::object().with("disableLanguageServices"@, JsonView::Bool(true)))
}

/// The answer that disables every language service.
pub open spec fn services_off_view() -> JsonView {
    one_item(services_off_item())
}

/// The answer that disables every language service.
pub fn services_off() -> (result: Json)
    ensures
        result@ == services_off_view(),
{
    let pyrefly = Json::object().with("disableLanguageServices", Json::Bool(true));
    answer(Json::object().with("pyrefly", pyrefly))
}

/// The item that disables hovering.
pub open spec fn hover_off_item() -> JsonView {
    pyrefly_item(
            JsonView::object().with(
                "disabledLanguageServices"@,
                JsonView::object().with("hover"@, JsonView::Bool(true)),
            ),
        )
}

/// The answer that disables hovering.
pub open spec fn hover_off_view() -> JsonView {
    one_item(hover_off_item())
}

/// The answer that disables hovering.
pub fn hover_off() -> (result: Json)
    ensures
        result@ == hover_off_view(),
{
    let disabled = Json::object().with("hover", Json::Bool(true));
    let pyrefly = Json::object().with("disabledLanguageServices", disabled);
    answer(Json::object().with("pyrefly", pyrefly))
}

/// The item that names the interpreter at `path`.
pub open spec fn python_path_item(path: Seq<char>) -> JsonView {
    JsonView::object().with("pythonPath"@, JsonView::Text(path))
}

/// The answer that names the interpreter at `path`.
pub open spec fn python_path_view(path: Seq<char>) -> JsonView {
    one_item(python_path_item(path))
}

/// The answer that names the interpreter at `path`.
pub fn python_path(path: &str) -> (result: Json)
    ensures
        result@ == python_path_view(path@),
{
    answer(Json::object().with("pythonPath", Json::text(path)))
}

/// Settings of another language server, as clients have them.
pub open spec fn pylance_analysis_view() -> JsonView {
    JsonView::object().with("diagnosticMode"@, JsonView::Text("workspace"@)).with(
        "importFormat"@,
        JsonView::Text("relative"@),
    ).with(
        "inlayHints"@,
        JsonView::object().with("callArgumentNames"@, JsonView::Text("on"@)).with(
            "functionReturnTypes"@,
            JsonView::Bool(true),
        ).with("pytestParameters"@, JsonView::Bool(true)).with(
            "variableTypes"@,
            JsonView::Bool(true),
        ),
    )
}

/// The item that sets `displayTypeErrors` to `mode` beside settings of another language
/// server.
pub open spec fn pylance_item(mode: Seq<char>) -> JsonView {
    display_item(mode).with("analysis"@, pylance_analysis_view())
}

/// The answer that sets `displayTypeErrors` to `mode` beside settings of another language
/// server.
pub open spec fn pylance_view(mode: Seq<char>) -> JsonView {
    one_item(pylance_item(mode))
}

/// The answer that sets `displayTypeErrors` to `mode` beside settings of another language
/// server.
pub fn pylance(mode: &str) -> (result: Json)
    ensures
        result@ == pylance_view(mode@),
{
    let hints = Json::object().with("callArgumentNames", Json::text("on")).with(
        "functionReturnTypes",
        Json::Bool(true),
    ).with("pytestParameters", Json::Bool(true)).with("variableTypes", Json::Bool(true));
    let analysis = Json::object().with("diagnosticMode", Json::text("workspace")).with(
        "importFormat",
        Json::text("relative"),
    ).with("inlayHints", hints);
    let pyrefly = Json::object().with("displayTypeErrors", Json::text(mode));
    answer(Json::object().with("pyrefly", pyrefly).with("analysis", analysis))
}

/// The entry by which a client names a workspace folder.
pub open spec fn folder_entry(name: Seq<char>, uri: Seq<char>) -> JsonView {
    JsonView::object().with("uri"@, JsonView::Text(uri)).with("name"@, JsonView::Text(name))
}

/// The parameters by which a client adds `added` to its workspace folders and removes `removed`.
pub open spec fn folder_change(added: Seq<JsonView>, removed: Seq<JsonView>) -> JsonView {
    JsonView::object().with(
        "event"@,
        JsonView::object().with("added"@, JsonView::Array(added)).with(
            "removed"@,
            JsonView::Array(removed),
        ),
    )
}

/// The parameters by which a client adds one folder.
pub fn folder_added(name: &str, uri: &str) -> (params: Json)
    ensures
        params@ == folder_change(seq![folder_entry(name@, uri@)], Seq::empty()),
{
    let mut added: Vec<Json> = Vec::new();
    added.push(Json::object().with("uri", Json::text(uri)).with("name", Json::text(name)));
    assert(json_views(added@) =~= seq![folder_entry(name@, uri@)]);
    let removed: Vec<Json> = Vec::new();
    assert(json_views(removed@) =~= Seq::<JsonView>::empty());
    let event = Json::object().with("added", Json::array(added)).with(
        "removed",
        Json::array(removed),
    );
    Json::object().with("event", event)
}

} // verus!
