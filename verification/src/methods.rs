//! The names of the protocol's methods.

use lsp_types::notification::{DidChangeWorkspaceFolders, Notification};
use lsp_types::request::{Request, WorkspaceConfiguration};
use vstd::prelude::*;

verus! {

/// Reads `lsp_types::request::WorkspaceConfiguration::METHOD`, the constant that holds the method
/// of a request for configuration. Claimed of it: its text.
#[verifier::external_body]
pub(crate) fn workspace_configuration() -> (method: String)
    ensures
        method@ == "workspace/configuration"@,
{
    WorkspaceConfiguration::METHOD.to_owned()
}

/// Reads `lsp_types::notification::DidChangeWorkspaceFolders::METHOD`, the constant that holds the
/// method of the notification that workspace folders have changed. Claimed of it: its text.
#[verifier::external_body]
pub(crate) fn did_change_workspace_folders() -> (method: String)
    ensures
        method@ == "workspace/didChangeWorkspaceFolders"@,
{
    DidChangeWorkspaceFolders::METHOD.to_owned()
}

} // verus!
