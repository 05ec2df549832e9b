//! The JSON that answers are made of.

use crate::json::{json_views, Json, JsonView};
use vstd::prelude::*;

verus! {

/// A position in a file.
pub open spec fn position_view(line: int, character: int) -> JsonView {
    JsonView::object().with("line"@, JsonView::Number(line)).with(
        "character"@,
        JsonView::Number(character),
    )
}

/// A stretch of a file from one position to another.
pub open spec fn range_view(
    start_line: int,
    start_character: int,
    end_line: int,
    end_character: int,
) -> JsonView {
    JsonView::object().with("start"@, position_view(start_line, start_character)).with(
        "end"@,
        position_view(end_line, end_character),
    )
}

/// A stretch of the file that `uri` names.
pub open spec fn location_view(uri: Seq<char>, range: JsonView) -> JsonView {
    JsonView::object().with("uri"@, JsonView::Text(uri)).with("range"@, range)
}

/// A hover whose contents are the markdown text `value`.
pub open spec fn hover_view(value: Seq<char>) -> JsonView {
    JsonView::object().with(
        "contents"@,
        JsonView::object().with("kind"@, JsonView::Text("markdown"@)).with(
            "value"@,
            JsonView::Text(value),
        ),
    )
}

/// The hover that shows nothing.
pub open spec fn empty_hover_view() -> JsonView {
    JsonView::object().with("contents"@, JsonView::Array(Seq::empty()))
}

/// The full report of the diagnostics `items`.
pub open spec fn report_view(items: Seq<JsonView>) -> JsonView {
    JsonView::object().with("items"@, JsonView::Array(items)).with(
        "kind"@,
        JsonView::Text("full"@),
    )
}

/// A position in a file.
pub fn position(line: u32, character: u32) -> (value: Json)
    ensures
        value@ == position_view(line as int, character as int),
{
    Json::object().with("line", Json::Number(line as i64)).with(
        "character",
        Json::Number(character as i64),
    )
}

/// A stretch of a file from one position to another.
pub fn range(start_line: u32, start_character: u32, end_line: u32, end_character: u32) -> (value:
    Json)
    ensures
        value@ == range_view(
            start_line as int,
            start_character as int,
            end_line as int,
            end_character as int,
        ),
{
    Json::object().with("start", position(start_line, start_character)).with(
        "end",
        position(end_line, end_character),
    )
}

/// The location from `(start_line, start_character)` to `(end_line, end_character)` of the file
/// that `uri` names.
pub fn location(
    uri: &str,
    start_line: u32,
    start_character: u32,
    end_line: u32,
    end_character: u32,
) -> (value: Json)
    ensures
        value@ == location_view(
            uri@,
            range_view(
                start_line as int,
                start_character as int,
                end_line as int,
                end_character as int,
            ),
        ),
{
    Json::object().with("uri", Json::text(uri)).with(
        "range",
        range(start_line, start_character, end_line, end_character),
    )
}

/// A hover whose contents are the markdown text `value`.
pub fn hover(value: &str) -> (result: Json)
    ensures
        result@ == hover_view(value@),
{
    Json::object().with(
        "contents",
        Json::object().with("kind", Json::text("markdown")).with("value", Json::text(value)),
    )
}

/// The hover that shows nothing.
pub fn empty_hover() -> (result: Json)
    ensures
        result@ == empty_hover_view(),
{
    let items: Vec<Json> = Vec::new();
    assert(json_views(items@) =~= Seq::<JsonView>::empty());
    Json::object().with("contents", Json::array(items))
}

/// The full report of the diagnostics `items`.
pub fn report(items: Vec<Json>) -> (result: Json)
    ensures
        result@ == report_view(json_views(items@)),
{
    Json::object().with("items", Json::array(items)).with("kind", Json::text("full"))
}

/// The report of no diagnostics.
pub fn empty_report() -> (result: Json)
    ensures
        result@ == report_view(Seq::empty()),
{
    let items: Vec<Json> = Vec::new();
    assert(json_views(items@) =~= Seq::<JsonView>::empty());
    report(items)
}

/// The answer that gives no location.
pub fn nowhere() -> (result: Json)
    ensures
        result@ == JsonView::Array(Seq::empty()),
{
    let items: Vec<Json> = Vec::new();
    assert(json_views(items@) =~= Seq::<JsonView>::empty());
    Json::array(items)
}

} // verus!
