//! What the server is exercised with: a stand-in for a Python interpreter, and the answers that
//! the sample files call for.

use crate::answers::{
    hover, hover_view, location, location_view, range, range_view, report, report_view,
};
use crate::json::{json_views, Json, JsonView};
use crate::path::{join, joined};
use vstd::prelude::*;

verus! {

/// The stand-in's script, up to the folder that it reports.
pub const SCRIPT_HEAD: &'static str = r#"#!/usr/bin/env bash
if [[ "$1" == "-c" && "$2" == *"import json, sys"* ]]; then
    cat << 'EOF'
{"python_platform": "linux", "python_version": "3.12.0", "site_package_path": [""#;

/// The stand-in's script, behind the folder that it reports.
pub const SCRIPT_TAIL: &'static str = r#""]}
EOF
else
    echo "Mock python interpreter - args: $@" >&2
    exit 1
fi
"#;

/// A stand-in for a Python interpreter: a script that answers the query for its
/// environment and nothing else.
pub struct DummyInterpreter {
    /// Where the script belongs.
    pub path: String,
    /// The text of the script.
    pub script: String,
}

/// Where the stand-in below `custom_interpreter_path` belongs.
pub open spec fn interpreter_path(custom_interpreter_path: Seq<char>) -> Seq<char> {
    joined(custom_interpreter_path, "bin/python"@)
}

/// The folder of installed packages that the stand-in below `custom_interpreter_path` reports.
pub open spec fn site_packages_path(custom_interpreter_path: Seq<char>) -> Seq<char> {
    joined(custom_interpreter_path, "bin/site-packages"@)
}

/// The script that reports `site_packages` as its one folder of installed packages.
pub open spec fn interpreter_script(site_packages: Seq<char>) -> Seq<char> {
    SCRIPT_HEAD@ + site_packages + SCRIPT_TAIL@
}

/// The stand-in for the interpreter below `custom_interpreter_path`: where to write its script,
/// and the script, which reports the folder of installed packages beside it.
pub fn setup_dummy_interpreter(custom_interpreter_path: &str) -> (interpreter: DummyInterpreter)
    ensures
        interpreter.path@ == interpreter_path(custom_interpreter_path@),
        interpreter.script@ == interpreter_script(site_packages_path(custom_interpreter_path@)),
{
    let site_packages = join(custom_interpreter_path, "bin/site-packages");
    let mut script = SCRIPT_HEAD.to_owned();
    script.append(site_packages.as_str());
    script.append(SCRIPT_TAIL);
    DummyInterpreter { path: join(custom_interpreter_path, "bin/python"), script }
}

/// The one type error of the sample file `type_errors.py`.
pub open spec fn type_error_view() -> JsonView {
    JsonView::object().with("code"@, JsonView::Text("unsupported-operation"@)).with(
        "codeDescription"@,
        JsonView::object().with(
            "href"@,
            JsonView::Text("https://pyrefly.org/en/docs/error-kinds/#unsupported-operation"@),
        ),
    ).with(
        "message"@,
        JsonView::Text(
            "`+` is not supported between `Literal[1]` and `Literal['']`\n  Argument `Literal['']` is not assignable to parameter `value` with type `int` in function `int.__add__`"@,
        ),
    ).with("range"@, range_view(5, 0, 5, 6)).with("severity"@, JsonView::Number(1)).with(
        "source"@,
        JsonView::Text("Pyrefly"@),
    )
}

/// The one type error of the sample file `type_errors.py`.
pub fn type_error() -> (diagnostic: Json)
    ensures
        diagnostic@ == type_error_view(),
{
    Json::object().with("code", Json::text("unsupported-operation")).with(
        "codeDescription",
        Json::object().with(
            "href",
            Json::text("https://pyrefly.org/en/docs/error-kinds/#unsupported-operation"),
        ),
    ).with(
        "message",
        Json::text(
            "`+` is not supported between `Literal[1]` and `Literal['']`\n  Argument `Literal['']` is not assignable to parameter `value` with type `int` in function `int.__add__`",
        ),
    ).with("range", range(5, 0, 5, 6)).with("severity", Json::Number(1)).with(
        "source",
        Json::text("Pyrefly"),
    )
}

/// The report on the sample file `type_errors.py` where its type errors are shown.
pub fn get_diagnostics_result() -> (result: Json)
    ensures
        result@ == report_view(seq![type_error_view()]),
{
    let mut items: Vec<Json> = Vec::new();
    items.push(type_error());
    assert(json_views(items@) =~= seq![type_error_view()]);
    report(items)
}

/// The hover on the sample class `Bar`, defined in the file that `uri` names.
pub open spec fn bar_hover_view(uri: Seq<char>) -> JsonView {
    hover_view("```python\n(class) Bar: type[Bar]\n```\n\nGo to [Bar]("@ + uri + "#L7,7)"@)
}

/// The hover on the sample class `Bar`, defined in the file that `uri` names.
pub fn bar_hover(uri: &str) -> (result: Json)
    ensures
        result@ == bar_hover_view(uri@),
{
    let mut value = "```python\n(class) Bar: type[Bar]\n```\n\nGo to [Bar](".to_owned();
    value.append(uri);
    value.append("#L7,7)");
    hover(value.as_str())
}

/// Where the sample class `Bar` is defined, in the file that `uri` names.
pub open spec fn bar_location_view(uri: Seq<char>) -> JsonView {
    location_view(uri, range_view(6, 6, 6, 9))
}

/// Where the sample class `Bar` is defined, in the file that `uri` names.
pub fn bar_location(uri: &str) -> (result: Json)
    ensures
        result@ == bar_location_view(uri@),
{
    location(uri, 6, 6, 6, 9)
}

} // verus!
