//! What holds of every JSON value that is read, written, asked for or answered with, and of every
//! path.

use crate::answers::{
    empty_hover_view, hover_view, location_view, position_view, range_view, report_view,
};
use crate::configuration::{texts, unscoped_params, ConfigurationRequest, RequestView};
use crate::fixtures::{
    bar_hover_view, bar_location_view, interpreter_script, SCRIPT_HEAD, SCRIPT_TAIL,
};
use crate::json::{json_views, members_view, Json, JsonView};
use crate::path::{joined, option_view};
use crate::payloads::{
    display_item, display_view, folder_change, folder_entry, hover_off_view, nothing_view,
    one_item, pylance_analysis_view, pylance_view, python_path_view, services_off_view,
};
use vstd::prelude::*;

verus! {

/// Whether `value` is an object whose members are those under `keys` and no others.
pub open spec fn has_only(value: JsonView, keys: Set<Seq<char>>) -> bool {
    &&& value is Object
    &&& forall|key: Seq<char>|
        #[trigger] value->Object_0.dom().contains(key) <==> keys.contains(key)
}

/// A member of an object is what the object holds under its key; what is no object has none.
pub proof fn law_member(members: Map<Seq<char>, JsonView>, value: JsonView, key: Seq<char>)
    ensures
        members.dom().contains(key) ==> JsonView::Object(members).member(key) == Some(members[key]),
        !members.dom().contains(key) ==> JsonView::Object(members).member(key) is None,
        value !is Object ==> value.member(key) is None,
{
}

/// A text, a truth value or a section is read exactly where a member of that kind is held.
pub proof fn law_reading(value: JsonView, key: Seq<char>, text: Seq<char>, flag: bool)
    ensures
        value.text_at(key) == Some(text) <==> value.member(key) == Some(JsonView::Text(text)),
        value.flag_at(key) == Some(flag) <==> value.member(key) == Some(JsonView::Bool(flag)),
        value.member(key) is Some ==> value.member(key) == Some(value.section(key)),
        value.member(key) is None ==> value.section(key) == JsonView::Null,
{
}

/// The items of an array are those that it was made of; what is no array has none.
pub proof fn law_items(items: Seq<JsonView>, value: JsonView)
    ensures
        JsonView::Array(items).items() == items,
        value !is Array ==> value.items().len() == 0,
{
}

/// What is put under a key is read back under it, and what is under other keys stays. The object
/// that one starts from has no members.
pub proof fn law_with(value: JsonView, key: Seq<char>, member: JsonView, other: Seq<char>)
    ensures
        value.with(key, member) is Object,
        value.with(key, member).member(key) == Some(member),
        other != key ==> value.with(key, member).member(other) == value.member(other),
        JsonView::object() is Object,
        JsonView::object().member(key) is None,
{
}

/// Members may be put in any order, and the last under a key counts.
pub proof fn law_with_order(
    value: JsonView,
    one: Seq<char>,
    first: JsonView,
    other: Seq<char>,
    second: JsonView,
)
    ensures
        one != other ==> value.with(one, first).with(other, second) == value.with(
            other,
            second,
        ).with(one, first),
        value.with(one, first).with(one, second) == value.with(one, second),
{
    let a = value.with(one, first);
    assert(a.with(one, second)->Object_0 =~= value.with(one, second)->Object_0);
    if one != other {
        assert(a.with(other, second)->Object_0 =~= value.with(other, second).with(
            one,
            first,
        )->Object_0);
    }
}

/// A value that is written means what is written.
pub proof fn law_written(flag: bool, number: i64, text: String, items: Vec<Json>)
    ensures
        Json::Null@ == JsonView::Null,
        Json::Bool(flag)@ == JsonView::Bool(flag),
        Json::Number(number)@ == JsonView::Number(number as int),
        Json::Text(text)@ == JsonView::Text(text@),
        Json::Array(items)@ is Array,
        Json::Array(items)@->Array_0.len() == items@.len(),
        forall|i: int|
            0 <= i < items@.len() ==> #[trigger] Json::Array(items)@->Array_0[i] == items@[i]@,
        json_views(items@) == Json::Array(items)@->Array_0,
{
    assert(json_views(items@) =~= Json::Array(items)@->Array_0);
}

/// An object that is written without members has none, and one more member is there besides the
/// others, in the place of one under the same key.
pub proof fn law_written_object(
    none: Vec<(String, Json)>,
    before: Vec<(String, Json)>,
    after: Vec<(String, Json)>,
    key: String,
    value: Json,
)
    requires
        none@.len() == 0,
        after@ == before@.push((key, value)),
    ensures
        Json::Object(none)@ == JsonView::Object(Map::empty()),
        Json::Object(before)@ is Object,
        Json::Object(after)@ == JsonView::Object(
            Json::Object(before)@->Object_0.insert(key@, value@),
        ),
{
    assert(members_view(none@, 0) == Map::<Seq<char>, JsonView>::empty());
    lemma_members_of_prefix(before@, after@, before@.len());
    assert(members_view(after@, after@.len()) == members_view(before@, before@.len()).insert(
        key@,
        value@,
    ));
}

proof fn lemma_members_of_prefix(
    members: Seq<(String, Json)>,
    more: Seq<(String, Json)>,
    n: nat,
)
    requires
        n <= members.len() <= more.len(),
        forall|i: int| 0 <= i < n ==> members[i] == more[i],
    ensures
        members_view(members, n) == members_view(more, n),
    decreases n,
{
    if n > 0 {
        lemma_members_of_prefix(members, more, (n - 1) as nat);
    }
}

proof fn lemma_answer_keys()
    ensures
        "items"@ != "kind"@,
        "line"@ != "character"@,
        "start"@ != "end"@,
        "uri"@ != "range"@,
        "uri"@ != "name"@,
        "kind"@ != "value"@,
        "scopeUri"@ != "section"@,
        "added"@ != "removed"@,
        "pyrefly"@ != "analysis"@,
{
    reveal_strlit("items");
    reveal_strlit("kind");
    reveal_strlit("line");
    reveal_strlit("character");
    reveal_strlit("start");
    reveal_strlit("end");
    reveal_strlit("uri");
    reveal_strlit("range");
    reveal_strlit("name");
    reveal_strlit("value");
    reveal_strlit("scopeUri");
    reveal_strlit("section");
    reveal_strlit("added");
    reveal_strlit("removed");
    reveal_strlit("pyrefly");
    reveal_strlit("analysis");
    assert("items"@.len() != "kind"@.len());
    assert("line"@.len() != "character"@.len());
    assert("start"@.len() != "end"@.len());
    assert("uri"@.len() != "range"@.len());
    assert("uri"@.len() != "name"@.len());
    assert("kind"@.len() != "value"@.len());
    assert("scopeUri"@.len() != "section"@.len());
    assert("added"@.len() != "removed"@.len());
    assert("pyrefly"@.len() != "analysis"@.len());
}

/// A report holds every diagnostic that it is made of, in their order, and no other; it says that
/// it is full, and nothing else.
pub proof fn law_report(items: Seq<JsonView>)
    ensures
        report_view(items).member("items"@) == Some(JsonView::Array(items)),
        report_view(items).section("items"@).items() == items,
        report_view(items).member("kind"@) == Some(JsonView::Text("full"@)),
        has_only(report_view(items), set!["items"@, "kind"@]),
{
    lemma_answer_keys();
}

/// No two lists of diagnostics have the same report.
pub proof fn law_report_tells(one: Seq<JsonView>, other: Seq<JsonView>)
    requires
        report_view(one) == report_view(other),
    ensures
        one == other,
{
    law_report(one);
    law_report(other);
}

/// A position holds its line and its character.
pub proof fn law_position(line: int, character: int)
    ensures
        position_view(line, character).member("line"@) == Some(JsonView::Number(line)),
        position_view(line, character).member("character"@) == Some(JsonView::Number(character)),
        has_only(position_view(line, character), set!["line"@, "character"@]),
{
    lemma_answer_keys();
}

/// A location holds the URI, and the lines and characters between which it stretches.
pub proof fn law_location(
    uri: Seq<char>,
    start_line: int,
    start_character: int,
    end_line: int,
    end_character: int,
)
    ensures
        ({
            let range = range_view(start_line, start_character, end_line, end_character);
            let location = location_view(uri, range);
            let start = location.section("range"@).section("start"@);
            let end = location.section("range"@).section("end"@);
            &&& location.member("uri"@) == Some(JsonView::Text(uri))
            &&& location.member("range"@) == Some(range)
            &&& has_only(location, set!["uri"@, "range"@])
            &&& has_only(range, set!["start"@, "end"@])
            &&& start.member("line"@) == Some(JsonView::Number(start_line))
            &&& start.member("character"@) == Some(JsonView::Number(start_character))
            &&& has_only(start, set!["line"@, "character"@])
            &&& end.member("line"@) == Some(JsonView::Number(end_line))
            &&& end.member("character"@) == Some(JsonView::Number(end_character))
            &&& has_only(end, set!["line"@, "character"@])
        }),
{
    lemma_answer_keys();
    law_position(start_line, start_character);
    law_position(end_line, end_character);
}

/// A hover holds its text, as markdown; the one that shows nothing holds an empty list.
pub proof fn law_hover(value: Seq<char>)
    ensures
        ({
            let contents = hover_view(value).section("contents"@);
            &&& has_only(hover_view(value), set!["contents"@])
            &&& contents.member("kind"@) == Some(JsonView::Text("markdown"@))
            &&& contents.member("value"@) == Some(JsonView::Text(value))
            &&& has_only(contents, set!["kind"@, "value"@])
        }),
        has_only(empty_hover_view(), set!["contents"@]),
        empty_hover_view().member("contents"@) == Some(JsonView::Array(Seq::empty())),
{
    lemma_answer_keys();
}

/// The hover on the sample class links to the file that `uri` names, and its location is the name
/// of the class in that file.
pub proof fn law_bar(uri: Seq<char>)
    ensures
        ({
            let head = "```python\n(class) Bar: type[Bar]\n```\n\nGo to [Bar]("@;
            let tail = "#L7,7)"@;
            let text = bar_hover_view(uri).section("contents"@).text_at("value"@)->0;
            &&& bar_hover_view(uri).section("contents"@).text_at("value"@) is Some
            &&& bar_hover_view(uri).section("contents"@).text_at("kind"@) == Some("markdown"@)
            &&& bar_hover_view(uri) == hover_view(text)
            &&& text.len() == head.len() + uri.len() + tail.len()
            &&& text.take(head.len() as int) == head
            &&& text.subrange(head.len() as int, (head.len() + uri.len()) as int) == uri
            &&& text.skip((head.len() + uri.len()) as int) == tail
        }),
        ({
            let range = bar_location_view(uri).section("range"@);
            &&& bar_location_view(uri) == location_view(uri, range)
            &&& range == range_view(6, 6, 6, 9)
            &&& bar_location_view(uri).text_at("uri"@) == Some(uri)
            &&& range.section("start"@).member("line"@) == Some(JsonView::Number(6))
            &&& range.section("start"@).member("character"@) == Some(JsonView::Number(6))
            &&& range.section("end"@).member("line"@) == Some(JsonView::Number(6))
            &&& range.section("end"@).member("character"@) == Some(JsonView::Number(9))
        }),
{
    let head = "```python\n(class) Bar: type[Bar]\n```\n\nGo to [Bar]("@;
    let tail = "#L7,7)"@;
    let text = head + uri + tail;
    lemma_answer_keys();
    law_hover(text);
    law_location(uri, 6, 6, 6, 9);
    assert(text.take(head.len() as int) =~= head);
    assert(text.subrange(head.len() as int, (head.len() + uri.len()) as int) =~= uri);
    assert(text.skip((head.len() + uri.len()) as int) =~= tail);
}

/// A request for the configuration of folders asks for each of them once, in their order, by its
/// URI and for the section `python`.
pub proof fn law_scoped_params(request: RequestView)
    requires
        request.scopes.len() > 0,
    ensures
        has_only(request.params(), set!["items"@]),
        request.params().member("items"@) is Some,
        request.params().section("items"@) is Array,
        request.params().section("items"@).items().len() == request.scopes.len(),
        forall|i: int|
            0 <= i < request.scopes.len() ==> asks_for(
                #[trigger] request.params().section("items"@).items()[i],
                request.scopes[i],
            ),
{
    lemma_answer_keys();
}

/// Whether an item of a request asks for the section `python` of the folder at `scope`.
pub open spec fn asks_for(item: JsonView, scope: Seq<char>) -> bool {
    &&& item.member("scopeUri"@) == Some(JsonView::Text(scope))
    &&& item.member("section"@) == Some(JsonView::Text("python"@))
    &&& has_only(item, set!["scopeUri"@, "section"@])
}

/// A request for the configuration of no folder asks once, for the section `python` and without a
/// URI.
pub proof fn law_unscoped_params(request: RequestView)
    requires
        request.scopes.len() == 0,
    ensures
        request.params() == unscoped_params(),
        has_only(request.params(), set!["items"@]),
        request.params().section("items"@) is Array,
        request.params().section("items"@).items().len() == 1,
        has_only(request.params().section("items"@).items()[0], set!["section"@]),
        request.params().section("items"@).items()[0].member("section"@) == Some(
            JsonView::Text("python"@),
        ),
{
}

/// Requests for different folders have different parameters.
pub proof fn law_params_tell(one: RequestView, other: RequestView)
    requires
        one.params() == other.params(),
    ensures
        one.scopes == other.scopes,
{
    lemma_answer_keys();
    if one.scopes.len() > 0 {
        law_scoped_params(one);
    } else {
        law_unscoped_params(one);
    }
    if other.scopes.len() > 0 {
        law_scoped_params(other);
    } else {
        law_unscoped_params(other);
    }
    let items = one.params().section("items"@).items();
    if one.scopes.len() == 0 && other.scopes.len() > 0 {
        assert(asks_for(items[0], other.scopes[0]));
        assert(items[0]->Object_0.dom().contains("scopeUri"@));
    }
    if one.scopes.len() > 0 && other.scopes.len() == 0 {
        assert(asks_for(items[0], one.scopes[0]));
        assert(items[0]->Object_0.dom().contains("scopeUri"@));
    }
    if one.scopes.len() > 0 && other.scopes.len() > 0 {
        assert forall|i: int| 0 <= i < one.scopes.len() implies one.scopes[i]
            == other.scopes[i] by {
            assert(asks_for(items[i], one.scopes[i]));
            assert(asks_for(items[i], other.scopes[i]));
        }
    }
    assert(one.scopes =~= other.scopes);
}

/// A request has the number and the scopes that it was made with.
pub proof fn law_request_view(request: ConfigurationRequest)
    ensures
        request@.id == request.id,
        request@.scopes.len() == request.scopes@.len(),
        texts(request.scopes@) == request@.scopes,
        forall|i: int|
            0 <= i < request.scopes@.len() ==> #[trigger] request@.scopes[i] == request.scopes@[i]@,
{
}

/// An answer of one item holds that item and no other.
pub proof fn law_one_item(item: JsonView)
    ensures
        one_item(item).items().len() == 1,
        one_item(item).items()[0] == item,
{
}

/// The answer that sets `displayTypeErrors` holds the mode and nothing else, and beside settings of
/// another language server it holds it too.
pub proof fn law_display_answer(mode: Seq<char>)
    ensures
        display_view(mode).items().len() == 1,
        pylance_view(mode).items().len() == 1,
        ({
            let item = display_view(mode).items()[0];
            let beside = pylance_view(mode).items()[0];
            let pyrefly = item.section("pyrefly"@);
            &&& item == display_item(mode)
            &&& has_only(item, set!["pyrefly"@])
            &&& has_only(pyrefly, set!["displayTypeErrors"@])
            &&& pyrefly.member("displayTypeErrors"@) == Some(JsonView::Text(mode))
            &&& has_only(beside, set!["pyrefly"@, "analysis"@])
            &&& beside.section("pyrefly"@) == pyrefly
            &&& beside.section("analysis"@) == pylance_analysis_view()
        }),
{
    lemma_answer_keys();
}

/// The answer that names an interpreter holds its path and nothing else.
pub proof fn law_python_path_answer(path: Seq<char>)
    ensures
        python_path_view(path).items().len() == 1,
        has_only(python_path_view(path).items()[0], set!["pythonPath"@]),
        python_path_view(path).items()[0].member("pythonPath"@) == Some(JsonView::Text(path)),
{
}

/// The answers that disable services, and the one that gives nothing, hold one item, and in it
/// what they are for and nothing else.
pub proof fn law_service_answers()
    ensures
        nothing_view().items().len() == 1,
        has_only(nothing_view().items()[0], Set::empty()),
        services_off_view().items().len() == 1,
        hover_off_view().items().len() == 1,
        ({
            let off = services_off_view().items()[0];
            let hover = hover_off_view().items()[0];
            let disabled = hover.section("pyrefly"@).section("disabledLanguageServices"@);
            &&& has_only(off, set!["pyrefly"@])
            &&& has_only(off.section("pyrefly"@), set!["disableLanguageServices"@])
            &&& off.section("pyrefly"@).flag_at("disableLanguageServices"@) == Some(true)
            &&& has_only(hover, set!["pyrefly"@])
            &&& has_only(hover.section("pyrefly"@), set!["disabledLanguageServices"@])
            &&& has_only(disabled, set!["hover"@])
            &&& disabled.flag_at("hover"@) == Some(true)
        }),
{
}

/// A change of workspace folders holds the folders added and the folders removed, and an entry the
/// folder's name and URI.
pub proof fn law_folder_change(
    name: Seq<char>,
    uri: Seq<char>,
    added: Seq<JsonView>,
    removed: Seq<JsonView>,
)
    ensures
        has_only(folder_change(added, removed), set!["event"@]),
        has_only(folder_change(added, removed).section("event"@), set!["added"@, "removed"@]),
        folder_change(added, removed).section("event"@).member("added"@) == Some(
            JsonView::Array(added),
        ),
        folder_change(added, removed).section("event"@).member("removed"@) == Some(
            JsonView::Array(removed),
        ),
        has_only(folder_entry(name, uri), set!["uri"@, "name"@]),
        folder_entry(name, uri).member("uri"@) == Some(JsonView::Text(uri)),
        folder_entry(name, uri).member("name"@) == Some(JsonView::Text(name)),
{
    lemma_answer_keys();
}

/// An optional text is there exactly where the string is, and is the string's.
pub proof fn law_optional_text(text: String)
    ensures
        option_view(Some(text)) == Some(text@),
        option_view(None) is None,
{
}

/// An absolute path is seen from everywhere as itself. Any other keeps the base before it and
/// itself behind, with one separator between them where the base is not empty and does not end in
/// one.
pub proof fn law_join(base: Seq<char>, rest: Seq<char>)
    ensures
        rest.len() > 0 && rest[0] == '/' ==> joined(base, rest) == rest,
        !(rest.len() > 0 && rest[0] == '/') ==> {
            let path = joined(base, rest);
            let between = path.len() - base.len() - rest.len();
            &&& 0 <= between <= 1
            &&& path.take(base.len() as int) == base
            &&& path.skip(base.len() + between) == rest
            &&& between == 1 <==> base.len() > 0 && base.last() != '/'
            &&& between == 1 ==> path[base.len() as int] == '/'
        },
{
    if !(rest.len() > 0 && rest[0] == '/') {
        let path = joined(base, rest);
        let between = path.len() - base.len() - rest.len();
        assert(path.take(base.len() as int) =~= base);
        assert(path.skip(base.len() + between) =~= rest);
    }
}

/// The script of a stand-in holds the folder that it reports, as it is, between the same two texts
/// whatever the folder.
pub proof fn law_script(folder: Seq<char>)
    ensures
        ({
            let script = interpreter_script(folder);
            let n = SCRIPT_HEAD@.len() as int;
            let m = n + folder.len();
            &&& script.len() == m + SCRIPT_TAIL@.len()
            &&& script.take(n) == SCRIPT_HEAD@
            &&& script.subrange(n, m) == folder
            &&& script.skip(m) == SCRIPT_TAIL@
        }),
{
    let script = interpreter_script(folder);
    let n = SCRIPT_HEAD@.len() as int;
    let m = n + folder.len();
    assert(script.take(n) =~= SCRIPT_HEAD@);
    assert(script.subrange(n, m) =~= folder);
    assert(script.skip(m) =~= SCRIPT_TAIL@);
}

} // verus!
