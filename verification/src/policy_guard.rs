//! The guard: the one entry point that decides on a tool call.
//!
//! The checks run in a fixed order and the first that fails decides: the
//! scope of the operator, then the user's confirmation, then the parameters
//! of the tool.

use vstd::prelude::*;
use crate::app_allowlist::{app_allowed, is_allowed};
use crate::command_allowlist::{command_params_verdict, validate_command_from_params};
use crate::params::{str_param, text_field, Json};
use crate::safe_path::{
    path_params_verdict,
    validate_safe_path_from_params,
    HostPaths,
    HostPathsView,
};
use crate::state::{AppState, AppStateView};
use crate::text::str_eq;
use crate::tool_policy::{
    cloud_allowed,
    lemma_allowed_tools_in_catalogue,
    lemma_catalogue_distinct,
    local_allowed,
    local_confirmed,
    policy_for,
    policy_table,
    tool_catalogue,
    ToolScope,
};
use crate::types::{
    denied,
    invalid,
    outcome,
    Platform,
    ToolCall,
    ToolCallView,
    ToolError,
    ToolErrorView,
    UserRole,
};

verus! {

/// Whether a tool touches files, so that its path must be safe.
pub open spec fn touches_files(tool: Seq<char>) -> bool {
    ||| tool == "read_file"@
    ||| tool == "write_file"@
    ||| tool == "delete_file"@
    ||| tool == "move_file"@
    ||| tool == "rename_file"@
    ||| tool == "copy_file"@
    ||| tool == "create_directory"@
    ||| tool == "list_directory"@
}

/// Whether `tool` touches files.
pub fn is_file_tool(tool: &str) -> (yes: bool)
    ensures
        yes == touches_files(tool@),
{
    str_eq(tool, "read_file") || str_eq(tool, "write_file") || str_eq(tool, "delete_file")
        || str_eq(tool, "move_file") || str_eq(tool, "rename_file") || str_eq(tool, "copy_file")
        || str_eq(tool, "create_directory") || str_eq(tool, "list_directory")
}

/// The decision on the parameters of a `launch_app` call: `app_id` must be a
/// string, and name an application that the role may launch on the platform.
pub open spec fn launch_verdict(params: Json, role: UserRole, platform: Platform) -> Result<
    (),
    ToolErrorView,
> {
    match text_field(params, "app_id"@) {
        None => invalid("Missing app_id"),
        Some(app_id) => if app_allowed(app_id, role, platform) {
            Ok(())
        } else {
            denied("App not allowlisted")
        },
    }
}

/// The decision on the parameters of a call, by the rules of its tool. A tool
/// without parameter rules passes.
pub open spec fn parameter_verdict(
    call: ToolCallView,
    state: AppStateView,
    host: HostPathsView,
) -> Result<(), ToolErrorView> {
    if touches_files(call.tool_name) {
        path_params_verdict(call.parameters, state.safe_directories, host)
    } else if call.tool_name == "run_command"@ {
        command_params_verdict(call.parameters)
    } else if call.tool_name == "launch_app"@ {
        launch_verdict(call.parameters, state.role, state.platform)
    } else {
        Ok(())
    }
}

/// The decision of the guard on a call.
pub open spec fn decision(call: ToolCallView, state: AppStateView, host: HostPathsView) -> Result<
    (),
    ToolErrorView,
> {
    let policy = policy_table(state.scope);
    if !policy.allowed_tools.contains(call.tool_name) {
        denied("Tool not allowed")
    } else if policy.requires_confirmation.contains(call.tool_name) && !state.confirmed.contains(
        call.id,
    ) {
        Err(ToolErrorView::NeedsConfirmation)
    } else {
        parameter_verdict(call, state, host)
    }
}

/// Decides whether `call` may run.
///
/// A tool that the scope of `state` may not call is denied with "Tool not
/// allowed", whatever its parameters. A tool that needs a confirmation waits
/// with `NeedsConfirmation` until one is registered under the identifier of
/// the call. After that the parameters decide: the path of a file tool, the
/// command of `run_command`, the application of `launch_app`.
pub fn authorize(call: &ToolCall, state: &AppState, host: &HostPaths) -> (result: Result<
    (),
    ToolError,
>)
    ensures
        outcome(result) == decision(call@, state@, host@),
{
    let scope = state.current_tool_scope();
    let policy = policy_for(scope);
    let tool = call.tool_name.as_str();
    if !policy.allows(tool) {
        return Err(ToolError::Denied("Tool not allowed".to_string()));
    }
    if policy.needs_confirmation(tool) && !state.confirmation_registry.is_confirmed(
        call.id.as_str(),
    ) {
        return Err(ToolError::NeedsConfirmation);
    }
    if is_file_tool(tool) {
        validate_safe_path_from_params(
            &call.parameters,
            state.config.safe_directories.as_slice(),
            host,
        )
    } else if str_eq(tool, "run_command") {
        validate_command_from_params(&call.parameters)
    } else if str_eq(tool, "launch_app") {
        let app_id = match str_param(&call.parameters, "app_id") {
            Some(app_id) => app_id,
            None => {
                return Err(ToolError::Invalid("Missing app_id".to_string()));
            },
        };
        let role = state.current_user_role();
        if is_allowed(app_id, role, state.platform) {
            Ok(())
        } else {
            Err(ToolError::Denied("App not allowlisted".to_string()))
        }
    } else {
        Ok(())
    }
}

/// Whether the decision on `call` turns on its paths: the scope allows the
/// tool, no confirmation is wanting, and the tool touches files. Only then
/// does the guard read what the host reported, so only then need the host be
/// asked.
pub fn reads_paths(call: &ToolCall, state: &AppState) -> (yes: bool)
    ensures
        yes == (policy_table(state@.scope).allowed_tools.contains(call@.tool_name) && !(
            policy_table(state@.scope).requires_confirmation.contains(call@.tool_name)
                && !state@.confirmed.contains(call@.id)) && touches_files(call@.tool_name)),
{
    let policy = policy_for(state.current_tool_scope());
    let tool = call.tool_name.as_str();
    policy.allows(tool) && !(policy.needs_confirmation(tool)
        && !state.confirmation_registry.is_confirmed(call.id.as_str())) && is_file_tool(tool)
}

/// Where the decision on a call does not turn on its paths, it is the same
/// whatever the host reported.
pub proof fn lemma_host_read_only_for_paths(
    call: ToolCallView,
    state: AppStateView,
    host: HostPathsView,
    other: HostPathsView,
)
    requires
        !(policy_table(state.scope).allowed_tools.contains(call.tool_name) && !(policy_table(
            state.scope,
        ).requires_confirmation.contains(call.tool_name) && !state.confirmed.contains(call.id))
            && touches_files(call.tool_name)),
    ensures
        decision(call, state, host) == decision(call, state, other),
{
}

/// A call to read a file or to list a directory, from the local model or a
/// remote one, is decided by its paths alone: it needs no confirmation.
pub proof fn lemma_reading_decided_by_paths(
    call: ToolCallView,
    state: AppStateView,
    host: HostPathsView,
)
    requires
        state.scope != ToolScope::UserDirect,
        call.tool_name == "read_file"@ || call.tool_name == "list_directory"@,
    ensures
        decision(call, state, host) == path_params_verdict(
            call.parameters,
            state.safe_directories,
            host,
        ),
{
    lemma_catalogue_distinct();
    let catalogue = tool_catalogue();
    let tool = call.tool_name;
    assert(tool == catalogue[0] || tool == catalogue[7]);
    assert(local_allowed()[0] == catalogue[0] && local_allowed()[2] == catalogue[7]);
    assert(cloud_allowed()[0] == catalogue[0] && cloud_allowed()[1] == catalogue[7]);
    if local_confirmed().contains(tool) {
        let k = choose|k: int| 0 <= k < local_confirmed().len() && local_confirmed()[k] == tool;
        assert(local_confirmed()[k] == catalogue[2] || local_confirmed()[k] == catalogue[3]
            || local_confirmed()[k] == catalogue[4] || local_confirmed()[k] == catalogue[19]
            || local_confirmed()[k] == catalogue[18] || local_confirmed()[k] == catalogue[17]);
    }
}

/// A call of a tool that the catalogue does not hold is denied, in every
/// scope and whatever else the state holds.
pub proof fn lemma_unknown_tool_denied(call: ToolCallView, state: AppStateView, host: HostPathsView)
    requires
        !tool_catalogue().contains(call.tool_name),
    ensures
        decision(call, state, host) == denied("Tool not allowed"),
{
    if policy_table(state.scope).allowed_tools.contains(call.tool_name) {
        lemma_allowed_tools_in_catalogue(state.scope, call.tool_name);
    }
}

/// A call of a tool that its scope allows and that needs a confirmation
/// waits for the confirmation, whether or not its parameters are valid.
pub proof fn lemma_unconfirmed_call_waits(
    call: ToolCallView,
    state: AppStateView,
    host: HostPathsView,
)
    requires
        policy_table(state.scope).allowed_tools.contains(call.tool_name),
        policy_table(state.scope).requires_confirmation.contains(call.tool_name),
        !state.confirmed.contains(call.id),
    ensures
        decision(call, state, host) == Err::<(), ToolErrorView>(ToolErrorView::NeedsConfirmation),
{
}

/// The guard denies every call that comes in the user's own scope.
pub proof fn lemma_user_direct_denied(call: ToolCallView, state: AppStateView, host: HostPathsView)
    requires
        state.scope == ToolScope::UserDirect,
    ensures
        decision(call, state, host) == denied("Tool not allowed"),
{
}

/// While no safe directory is configured, no call of a file tool passes.
pub proof fn lemma_no_safe_dirs_no_file_access(
    call: ToolCallView,
    state: AppStateView,
    host: HostPathsView,
)
    requires
        touches_files(call.tool_name),
        state.safe_directories.len() == 0,
    ensures
        decision(call, state, host) is Err,
{
}

/// Whether a tool starts, lists or steers downloads.
pub open spec fn controls_downloads(tool: Seq<char>) -> bool {
    ||| tool == "download_archive_org"@
    ||| tool == "download_youtube"@
    ||| tool == "list_downloads"@
    ||| tool == "pause_download"@
    ||| tool == "resume_download"@
    ||| tool == "cancel_download"@
}

/// A remote model may not run commands, write or delete files, launch
/// applications or touch downloads: such a call is denied for its tool alone.
pub proof fn lemma_cloud_denials(call: ToolCallView, state: AppStateView, host: HostPathsView)
    requires
        state.scope == ToolScope::CloudAI,
        call.tool_name == "run_command"@ || call.tool_name == "write_file"@ || call.tool_name
            == "delete_file"@ || call.tool_name == "launch_app"@ || controls_downloads(
            call.tool_name,
        ),
    ensures
        decision(call, state, host) == denied("Tool not allowed"),
{
    lemma_catalogue_distinct();
    let catalogue = tool_catalogue();
    let tool = call.tool_name;
    assert(tool == catalogue[18] || tool == catalogue[1] || tool == catalogue[2] || tool
        == catalogue[17] || tool == catalogue[11] || tool == catalogue[12] || tool == catalogue[13]
        || tool == catalogue[14] || tool == catalogue[15] || tool == catalogue[16]);
    if cloud_allowed().contains(tool) {
        let m = choose|m: int| 0 <= m < cloud_allowed().len() && cloud_allowed()[m] == tool;
        assert(cloud_allowed()[m] == catalogue[0] || cloud_allowed()[m] == catalogue[7]
            || cloud_allowed()[m] == catalogue[8] || cloud_allowed()[m] == catalogue[9]
            || cloud_allowed()[m] == catalogue[10]);
    }
}

/// No rule on parameters denies a call with the words of the scope check.
pub proof fn lemma_parameter_denials_name_their_rule(
    call: ToolCallView,
    state: AppStateView,
    host: HostPathsView,
)
    ensures
        parameter_verdict(call, state, host) != denied("Tool not allowed"),
        parameter_verdict(call, state, host) != Err::<(), ToolErrorView>(
            ToolErrorView::NeedsConfirmation,
        ),
{
    // Every reason that a rule on parameters gives is longer than the
    // sixteen characters of the scope check's.
    reveal_strlit("Tool not allowed");
    assert("Tool not allowed"@.len() == 16);
    reveal_strlit("Path cannot be resolved");
    assert("Path cannot be resolved"@.len() == 23);
    reveal_strlit("System paths are not allowed");
    assert("System paths are not allowed"@.len() == 28);
    reveal_strlit("Path not within safe directories");
    assert("Path not within safe directories"@.len() == 32);
    reveal_strlit("Command not allowlisted");
    assert("Command not allowlisted"@.len() == 23);
    reveal_strlit("Invalid args for open");
    assert("Invalid args for open"@.len() == 21);
    reveal_strlit("Invalid args for uname");
    assert("Invalid args for uname"@.len() == 22);
    reveal_strlit("Invalid args for df");
    assert("Invalid args for df"@.len() == 19);
    reveal_strlit("Invalid args for free");
    assert("Invalid args for free"@.len() == 21);
    reveal_strlit("Invalid args for ps");
    assert("Invalid args for ps"@.len() == 19);
    reveal_strlit("Invalid args for kill");
    assert("Invalid args for kill"@.len() == 21);
    reveal_strlit("Invalid args for git clone");
    assert("Invalid args for git clone"@.len() == 26);
    reveal_strlit("Invalid args for curl");
    assert("Invalid args for curl"@.len() == 21);
    reveal_strlit("Invalid args for tar");
    assert("Invalid args for tar"@.len() == 20);
    reveal_strlit("Invalid args for apt remove");
    assert("Invalid args for apt remove"@.len() == 27);
    reveal_strlit("Invalid args for dnf remove");
    assert("Invalid args for dnf remove"@.len() == 27);
    reveal_strlit("Invalid args for pacman -R");
    assert("Invalid args for pacman -R"@.len() == 26);
    reveal_strlit("Invalid args for flatpak uninstall");
    assert("Invalid args for flatpak uninstall"@.len() == 34);
    reveal_strlit("Invalid args for snap remove");
    assert("Invalid args for snap remove"@.len() == 28);
    reveal_strlit("Invalid args for brew uninstall");
    assert("Invalid args for brew uninstall"@.len() == 31);
    reveal_strlit("Invalid args for winget uninstall");
    assert("Invalid args for winget uninstall"@.len() == 33);
    reveal_strlit("App not allowlisted");
    assert("App not allowlisted"@.len() == 19);
}

/// Registering the confirmation of a call that waits for one lets the
/// parameters decide: the call then passes or fails by a rule on its
/// parameters, and is never denied for its tool.
pub proof fn lemma_confirmation_unblocks(
    call: ToolCallView,
    state: AppStateView,
    host: HostPathsView,
)
    requires
        decision(call, state, host) == Err::<(), ToolErrorView>(ToolErrorView::NeedsConfirmation),
    ensures
        ({
            let confirmed = AppStateView { confirmed: state.confirmed.insert(call.id), ..state };
            &&& decision(call, confirmed, host) == parameter_verdict(call, state, host)
            &&& decision(call, confirmed, host) != denied("Tool not allowed")
            &&& decision(call, confirmed, host) != Err::<(), ToolErrorView>(
                ToolErrorView::NeedsConfirmation,
            )
        }),
{
    lemma_parameter_denials_name_their_rule(call, state, host);
}

/// Narrowing the scope from the local model to a remote one never widens
/// what is allowed: a call that passes for the remote model passes for the
/// local one, so a call denied for the local model does not pass for the
/// remote one.
pub proof fn lemma_cloud_within_local(call: ToolCallView, state: AppStateView, host: HostPathsView)
    ensures
        ({
            let local = AppStateView { scope: ToolScope::LocalAI, ..state };
            let cloud = AppStateView { scope: ToolScope::CloudAI, ..state };
            &&& decision(call, cloud, host) is Ok ==> decision(call, local, host) is Ok
            &&& decision(call, local, host) matches Err(ToolErrorView::Denied(_)) ==> !(decision(
                call,
                cloud,
                host,
            ) is Ok)
        }),
{
    let local = AppStateView { scope: ToolScope::LocalAI, ..state };
    let cloud = AppStateView { scope: ToolScope::CloudAI, ..state };
    let tool = call.tool_name;
    if decision(call, cloud, host) is Ok {
        lemma_catalogue_distinct();
        let catalogue = tool_catalogue();
        let m = choose|m: int| 0 <= m < cloud_allowed().len() && cloud_allowed()[m] == tool;
        assert(tool == catalogue[0] || tool == catalogue[7] || tool == catalogue[8] || tool
            == catalogue[9] || tool == catalogue[10]);
        assert(local_allowed()[0] == catalogue[0] && local_allowed()[2] == catalogue[7]
            && local_allowed()[4] == catalogue[8] && local_allowed()[5] == catalogue[9]
            && local_allowed()[6] == catalogue[10]);
        if local_confirmed().contains(tool) {
            let k = choose|k: int| 0 <= k < local_confirmed().len() && local_confirmed()[k] == tool;
            assert(local_confirmed()[k] == catalogue[2] || local_confirmed()[k] == catalogue[3]
                || local_confirmed()[k] == catalogue[4] || local_confirmed()[k] == catalogue[19]
                || local_confirmed()[k] == catalogue[18] || local_confirmed()[k] == catalogue[17]);
        }
        assert(parameter_verdict(call, cloud, host) == parameter_verdict(call, local, host));
    }
}

} // verus!
