//! What holds of every scenario, wherever its sample files lie.

use crate::fixtures::{bar_hover_view, bar_location_view};
use crate::json::JsonView;
use crate::path::{file_url, joined, plain_path};
use crate::payloads::python_path_view;
use crate::scenarios::{
    diagnostics_default_workspace_steps,
    diagnostics_default_workspace_with_config_steps,
    diagnostics_file_in_excludes_steps,
    diagnostics_file_not_in_includes_steps,
    diagnostics_in_workspace_steps,
    did_change_configuration_steps,
    did_change_workspace_folder_steps,
    disable_language_services_default_workspace_steps,
    disable_language_services_steps,
    disable_specific_language_services_via_analysis_config_steps,
    disable_type_errors_config_steps,
    disable_type_errors_default_workspace_steps,
    disable_type_errors_language_services_still_work_steps,
    disable_type_errors_workspace_folder_steps,
    lies_at,
    parse_pylance_configs_steps,
    pythonpath_change_steps,
    workspace_pythonpath_ignored_when_set_in_config_file_steps,
    Sample,
    SampleView,
};
use crate::script::{Script, StepView};
use crate::value_laws::law_bar;
use vstd::prelude::*;

verus! {

/// A step without what it says of the place of the sample files.
pub open spec fn anywhere(step: StepView) -> StepView {
    match step {
        StepView::WriteInterpreter { path, script } => StepView::WriteInterpreter {
            path: Seq::empty(),
            script: Seq::empty(),
        },
        StepView::SetRoot { path } => StepView::SetRoot { path: Seq::empty() },
        StepView::Initialize { workspace_folders, configuration } => StepView::Initialize {
            workspace_folders: match workspace_folders {
                Some(pairs) => Some(
                    Seq::new(pairs.len(), |i: int| (pairs[i].0, Seq::<char>::empty())),
                ),
                None => None,
            },
            configuration,
        },
        StepView::SendNotification { method, params } => StepView::SendNotification {
            method,
            params: JsonView::Null,
        },
        StepView::SendConfigurationResponse { id, result } => StepView::SendConfigurationResponse {
            id,
            result: if result.items()[0].member("pythonPath"@) is Some {
                JsonView::Null
            } else {
                result
            },
        },
        StepView::ExpectConfigurationRequest { id, scopes } =>
            StepView::ExpectConfigurationRequest {
                id,
                scopes: match scopes {
                    Some(scopes) => Some(Seq::new(scopes.len(), |i: int| Seq::<char>::empty())),
                    None => None,
                },
            },
        StepView::ExpectResponse { id, result } => StepView::ExpectResponse {
            id,
            result: if result.member("uri"@) is Some {
                JsonView::Text("uri"@)
            } else if result.section("contents"@) is Object {
                JsonView::Text("contents"@)
            } else {
                result
            },
        },
        StepView::ExpectPublishDiagnosticsErrorCount { path, count } =>
            StepView::ExpectPublishDiagnosticsErrorCount { path: Seq::empty(), count },
        _ => step,
    }
}

/// Whether two clients take the same steps, but for the place of the sample files.
pub open spec fn alike(one: Seq<StepView>, other: Seq<StepView>) -> bool {
    &&& one.len() == other.len()
    &&& forall|i: int| 0 <= i < one.len() ==> anywhere(#[trigger] one[i]) == anywhere(other[i])
}

/// Whether the expected hover and location, and the interpreters named, are told from what does not
/// depend on the place.
spec fn said_of(sample: SampleView) -> bool {
    &&& bar_location_view(sample.bar_uri).member("uri"@) is Some
    &&& bar_hover_view(sample.bar_uri).member("uri"@) is None
    &&& bar_hover_view(sample.bar_uri).section("contents"@) is Object
    &&& forall|path: Seq<char>|
        (#[trigger] python_path_view(path)).items()[0].member("pythonPath"@) is Some
}

proof fn lemma_places(sample: SampleView)
    ensures
        said_of(sample),
{
    reveal_strlit("uri");
    reveal_strlit("contents");
    assert("uri"@.len() != "contents"@.len());
    law_bar(sample.bar_uri);
}

/// Whether a folder at one URI and at the other are named alike.
spec fn same_folder(one: Seq<char>, other: Seq<char>) -> bool {
    &&& forall|configuration: Option<Option<JsonView>>|
        #[trigger] anywhere(started(one, configuration)) == anywhere(started(other, configuration))
    &&& forall|id: int| #[trigger] anywhere(asked(one, id)) == anywhere(asked(other, id))
}

#[verifier::inline]
spec fn started(uri: Seq<char>, configuration: Option<Option<JsonView>>) -> StepView {
    StepView::Initialize { workspace_folders: Some(seq![("test"@, uri)]), configuration }
}

#[verifier::inline]
spec fn asked(uri: Seq<char>, id: int) -> StepView {
    StepView::ExpectConfigurationRequest { id, scopes: Some(seq![uri]) }
}

proof fn lemma_one_folder(one: Seq<char>, other: Seq<char>)
    ensures
        same_folder(one, other),
{
    let a = seq![("test"@, one)];
    let b = seq![("test"@, other)];
    assert(Seq::new(a.len(), |i: int| (a[i].0, Seq::<char>::empty())) =~= Seq::new(
        b.len(),
        |i: int| (b[i].0, Seq::<char>::empty()),
    ));
    assert(Seq::new(seq![one].len(), |i: int| Seq::<char>::empty()) =~= Seq::new(
        seq![other].len(),
        |i: int| Seq::<char>::empty(),
    ));
}

/// Whether the first `n` steps are the same but for the place.
spec fn alike_before(one: Seq<StepView>, other: Seq<StepView>, n: int) -> bool
    decreases n,
{
    n <= 0 || (anywhere(one[n - 1]) == anywhere(other[n - 1]) && alike_before(one, other, n - 1))
}

proof fn lemma_alike_before(one: Seq<StepView>, other: Seq<StepView>, n: int)
    requires
        alike_before(one, other, n),
    ensures
        forall|i: int| 0 <= i < n ==> anywhere(#[trigger] one[i]) == anywhere(other[i]),
    decreases n,
{
    if n > 0 {
        lemma_alike_before(one, other, n - 1);
    }
}

proof fn lemma_sample_places(one: SampleView, other: SampleView)
    ensures
        same_folder(one.root_uri, other.root_uri),
        same_folder(one.basic_uri, other.basic_uri),
        same_folder(one.disabled_uri, other.disabled_uri),
        said_of(one),
        said_of(other),
{
    lemma_one_folder(one.root_uri, other.root_uri);
    lemma_one_folder(one.basic_uri, other.basic_uri);
    lemma_one_folder(one.disabled_uri, other.disabled_uri);
    lemma_places(one);
    lemma_places(other);
}

proof fn lemma_diagnostics_default_workspace_alike(one: SampleView, other: SampleView)
    ensures
        alike(diagnostics_default_workspace_steps(one), diagnostics_default_workspace_steps(other)),
{
    let here = diagnostics_default_workspace_steps(one);
    let there = diagnostics_default_workspace_steps(other);
    lemma_sample_places(one, other);
    reveal_with_fuel(alike_before, 12);
    assert(alike_before(here, there, 11));
    lemma_alike_before(here, there, 11);
}

proof fn lemma_diagnostics_default_workspace_with_config_alike(one: SampleView, other: SampleView)
    ensures
        alike(
            diagnostics_default_workspace_with_config_steps(one),
            diagnostics_default_workspace_with_config_steps(other),
        ),
{
    let here = diagnostics_default_workspace_with_config_steps(one);
    let there = diagnostics_default_workspace_with_config_steps(other);
    lemma_sample_places(one, other);
    reveal_with_fuel(alike_before, 12);
    assert(alike_before(here, there, 11));
    lemma_alike_before(here, there, 11);
}

proof fn lemma_diagnostics_file_in_excludes_alike(one: SampleView, other: SampleView)
    ensures
        alike(diagnostics_file_in_excludes_steps(one), diagnostics_file_in_excludes_steps(other)),
{
    let here = diagnostics_file_in_excludes_steps(one);
    let there = diagnostics_file_in_excludes_steps(other);
    lemma_sample_places(one, other);
    reveal_with_fuel(alike_before, 10);
    assert(alike_before(here, there, 9));
    lemma_alike_before(here, there, 9);
}

proof fn lemma_diagnostics_file_not_in_includes_alike(one: SampleView, other: SampleView)
    ensures
        alike(
            diagnostics_file_not_in_includes_steps(one),
            diagnostics_file_not_in_includes_steps(other),
        ),
{
    let here = diagnostics_file_not_in_includes_steps(one);
    let there = diagnostics_file_not_in_includes_steps(other);
    lemma_sample_places(one, other);
    reveal_with_fuel(alike_before, 10);
    assert(alike_before(here, there, 9));
    lemma_alike_before(here, there, 9);
}

proof fn lemma_diagnostics_in_workspace_alike(one: SampleView, other: SampleView)
    ensures
        alike(diagnostics_in_workspace_steps(one), diagnostics_in_workspace_steps(other)),
{
    let here = diagnostics_in_workspace_steps(one);
    let there = diagnostics_in_workspace_steps(other);
    lemma_sample_places(one, other);
    reveal_with_fuel(alike_before, 12);
    assert(alike_before(here, there, 11));
    lemma_alike_before(here, there, 11);
}

proof fn lemma_did_change_configuration_alike(one: SampleView, other: SampleView)
    ensures
        alike(did_change_configuration_steps(one), did_change_configuration_steps(other)),
{
    let here = did_change_configuration_steps(one);
    let there = did_change_configuration_steps(other);
    lemma_sample_places(one, other);
    reveal_with_fuel(alike_before, 7);
    assert(alike_before(here, there, 6));
    lemma_alike_before(here, there, 6);
}

proof fn lemma_did_change_workspace_folder_alike(one: SampleView, other: SampleView)
    ensures
        alike(did_change_workspace_folder_steps(one), did_change_workspace_folder_steps(other)),
{
    let here = did_change_workspace_folder_steps(one);
    let there = did_change_workspace_folder_steps(other);
    lemma_sample_places(one, other);
    reveal_with_fuel(alike_before, 7);
    assert(alike_before(here, there, 6));
    lemma_alike_before(here, there, 6);
}

proof fn lemma_disable_language_services_default_workspace_alike(one: SampleView, other: SampleView)
    ensures
        alike(
            disable_language_services_default_workspace_steps(one),
            disable_language_services_default_workspace_steps(other),
        ),
{
    let here = disable_language_services_default_workspace_steps(one);
    let there = disable_language_services_default_workspace_steps(other);
    lemma_sample_places(one, other);
    reveal_with_fuel(alike_before, 12);
    assert(alike_before(here, there, 11));
    lemma_alike_before(here, there, 11);
}

proof fn lemma_disable_language_services_alike(one: SampleView, other: SampleView)
    ensures
        alike(disable_language_services_steps(one), disable_language_services_steps(other)),
{
    let here = disable_language_services_steps(one);
    let there = disable_language_services_steps(other);
    lemma_sample_places(one, other);
    reveal_with_fuel(alike_before, 12);
    assert(alike_before(here, there, 11));
    lemma_alike_before(here, there, 11);
}

proof fn lemma_disable_specific_language_services_via_analysis_config_alike(
    one: SampleView,
    other: SampleView,
)
    ensures
        alike(
            disable_specific_language_services_via_analysis_config_steps(one),
            disable_specific_language_services_via_analysis_config_steps(other),
        ),
{
    let here = disable_specific_language_services_via_analysis_config_steps(one);
    let there = disable_specific_language_services_via_analysis_config_steps(other);
    lemma_sample_places(one, other);
    reveal_with_fuel(alike_before, 16);
    assert(alike_before(here, there, 15));
    lemma_alike_before(here, there, 15);
}

proof fn lemma_disable_type_errors_config_alike(one: SampleView, other: SampleView)
    ensures
        alike(disable_type_errors_config_steps(one), disable_type_errors_config_steps(other)),
{
    let here = disable_type_errors_config_steps(one);
    let there = disable_type_errors_config_steps(other);
    lemma_sample_places(one, other);
    reveal_with_fuel(alike_before, 12);
    assert(alike_before(here, there, 11));
    lemma_alike_before(here, there, 11);
}

proof fn lemma_disable_type_errors_default_workspace_alike(one: SampleView, other: SampleView)
    ensures
        alike(
            disable_type_errors_default_workspace_steps(one),
            disable_type_errors_default_workspace_steps(other),
        ),
{
    let here = disable_type_errors_default_workspace_steps(one);
    let there = disable_type_errors_default_workspace_steps(other);
    lemma_sample_places(one, other);
    reveal_with_fuel(alike_before, 17);
    assert(alike_before(here, there, 16));
    lemma_alike_before(here, there, 16);
}

proof fn lemma_disable_type_errors_language_services_still_work_alike(
    one: SampleView,
    other: SampleView,
)
    ensures
        alike(
            disable_type_errors_language_services_still_work_steps(one),
            disable_type_errors_language_services_still_work_steps(other),
        ),
{
    let here = disable_type_errors_language_services_still_work_steps(one);
    let there = disable_type_errors_language_services_still_work_steps(other);
    lemma_sample_places(one, other);
    reveal_with_fuel(alike_before, 7);
    assert(alike_before(here, there, 6));
    lemma_alike_before(here, there, 6);
}

proof fn lemma_disable_type_errors_workspace_folder_alike(one: SampleView, other: SampleView)
    ensures
        alike(
            disable_type_errors_workspace_folder_steps(one),
            disable_type_errors_workspace_folder_steps(other),
        ),
{
    let here = disable_type_errors_workspace_folder_steps(one);
    let there = disable_type_errors_workspace_folder_steps(other);
    lemma_sample_places(one, other);
    reveal_with_fuel(alike_before, 17);
    assert(alike_before(here, there, 16));
    lemma_alike_before(here, there, 16);
}

proof fn lemma_parse_pylance_configs_alike(one: SampleView, other: SampleView)
    ensures
        alike(parse_pylance_configs_steps(one), parse_pylance_configs_steps(other)),
{
    let here = parse_pylance_configs_steps(one);
    let there = parse_pylance_configs_steps(other);
    lemma_sample_places(one, other);
    reveal_with_fuel(alike_before, 10);
    assert(alike_before(here, there, 9));
    lemma_alike_before(here, there, 9);
}

proof fn lemma_pythonpath_change_alike(one: SampleView, other: SampleView)
    ensures
        alike(pythonpath_change_steps(one), pythonpath_change_steps(other)),
{
    let here = pythonpath_change_steps(one);
    let there = pythonpath_change_steps(other);
    lemma_sample_places(one, other);
    reveal_with_fuel(alike_before, 22);
    assert(alike_before(here, there, 21));
    lemma_alike_before(here, there, 21);
}

proof fn lemma_workspace_pythonpath_ignored_when_set_in_config_file_alike(
    one: SampleView,
    other: SampleView,
)
    ensures
        alike(
            workspace_pythonpath_ignored_when_set_in_config_file_steps(one),
            workspace_pythonpath_ignored_when_set_in_config_file_steps(other),
        ),
{
    let here = workspace_pythonpath_ignored_when_set_in_config_file_steps(one);
    let there = workspace_pythonpath_ignored_when_set_in_config_file_steps(other);
    lemma_sample_places(one, other);
    reveal_with_fuel(alike_before, 16);
    assert(alike_before(here, there, 15));
    lemma_alike_before(here, there, 15);
}

/// The steps of a scenario, what it sends and what it expects, are the same wherever its sample
/// files lie, but for the paths and URIs that say where.
pub proof fn law_scenarios_alike(one: SampleView, other: SampleView)
    ensures
        alike(diagnostics_default_workspace_steps(one), diagnostics_default_workspace_steps(other)),
        alike(
            diagnostics_default_workspace_with_config_steps(one),
            diagnostics_default_workspace_with_config_steps(other),
        ),
        alike(diagnostics_file_in_excludes_steps(one), diagnostics_file_in_excludes_steps(other)),
        alike(
            diagnostics_file_not_in_includes_steps(one),
            diagnostics_file_not_in_includes_steps(other),
        ),
        alike(diagnostics_in_workspace_steps(one), diagnostics_in_workspace_steps(other)),
        alike(did_change_configuration_steps(one), did_change_configuration_steps(other)),
        alike(did_change_workspace_folder_steps(one), did_change_workspace_folder_steps(other)),
        alike(
            disable_language_services_default_workspace_steps(one),
            disable_language_services_default_workspace_steps(other),
        ),
        alike(disable_language_services_steps(one), disable_language_services_steps(other)),
        alike(
            disable_specific_language_services_via_analysis_config_steps(one),
            disable_specific_language_services_via_analysis_config_steps(other),
        ),
        alike(disable_type_errors_config_steps(one), disable_type_errors_config_steps(other)),
        alike(
            disable_type_errors_default_workspace_steps(one),
            disable_type_errors_default_workspace_steps(other),
        ),
        alike(
            disable_type_errors_language_services_still_work_steps(one),
            disable_type_errors_language_services_still_work_steps(other),
        ),
        alike(
            disable_type_errors_workspace_folder_steps(one),
            disable_type_errors_workspace_folder_steps(other),
        ),
        alike(parse_pylance_configs_steps(one), parse_pylance_configs_steps(other)),
        alike(pythonpath_change_steps(one), pythonpath_change_steps(other)),
        alike(
            workspace_pythonpath_ignored_when_set_in_config_file_steps(one),
            workspace_pythonpath_ignored_when_set_in_config_file_steps(other),
        ),
{
    lemma_diagnostics_default_workspace_alike(one, other);
    lemma_diagnostics_default_workspace_with_config_alike(one, other);
    lemma_diagnostics_file_in_excludes_alike(one, other);
    lemma_diagnostics_file_not_in_includes_alike(one, other);
    lemma_diagnostics_in_workspace_alike(one, other);
    lemma_did_change_configuration_alike(one, other);
    lemma_did_change_workspace_folder_alike(one, other);
    lemma_disable_language_services_default_workspace_alike(one, other);
    lemma_disable_language_services_alike(one, other);
    lemma_disable_specific_language_services_via_analysis_config_alike(one, other);
    lemma_disable_type_errors_config_alike(one, other);
    lemma_disable_type_errors_default_workspace_alike(one, other);
    lemma_disable_type_errors_language_services_still_work_alike(one, other);
    lemma_disable_type_errors_workspace_folder_alike(one, other);
    lemma_parse_pylance_configs_alike(one, other);
    lemma_pythonpath_change_alike(one, other);
    lemma_workspace_pythonpath_ignored_when_set_in_config_file_alike(one, other);
}

/// Sample files lie where the paths say, and their URIs are those that the paths have.
pub proof fn law_places(sample: SampleView, root: Seq<char>)
    requires
        lies_at(sample, root),
    ensures
        sample.root == root,
        file_url(root) == Some(sample.root_uri),
        file_url(joined(root, "basic"@)) == Some(sample.basic_uri),
        file_url(joined(joined(root, "basic"@), "bar.py"@)) == Some(sample.bar_uri),
        file_url(joined(root, "disable_type_error_in_config"@)) == Some(sample.disabled_uri),
        plain_path(root) ==> sample.root_uri == "file://"@ + root,
        plain_path(joined(root, "basic"@)) ==> sample.basic_uri == "file://"@ + joined(
            root,
            "basic"@,
        ),
{
}

/// A sample is where its paths and URIs say, field by field.
pub proof fn law_sample(sample: Sample)
    ensures
        sample@.root == sample.root@,
        sample@.root_uri == sample.root_uri@,
        sample@.basic_uri == sample.basic_uri@,
        sample@.bar_uri == sample.bar_uri@,
        sample@.disabled_uri == sample.disabled_uri@,
{
}

/// The steps of a script are those that it holds, one by one.
pub proof fn law_script_steps(script: Script)
    ensures
        script@.len() == script.steps@.len(),
        forall|i: int| 0 <= i < script@.len() ==> #[trigger] script@[i] == script.steps@[i]@,
{
}

} // verus!
