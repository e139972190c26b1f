//! The scope table: which operator may call which tool, and which tools
//! wait for the user's confirmation.

use vstd::prelude::*;
use crate::text::{contains_text, views};

verus! {

/// Who originated a tool call.
#[derive(Debug, Clone, Copy, PartialEq, Eq, Structural)]
pub enum ToolScope {
    /// The model that runs on the device.
    LocalAI,
    /// A remote model, whose prompts may be under an attacker's control.
    CloudAI,
    /// The user, whose actions do not pass through the guard.
    UserDirect,
}

/// The tools a scope may call, and those that need a confirmation first.
pub struct ToolPolicy {
    /// A call is denied unless its tool is in this list.
    pub allowed_tools: Vec<String>,
    /// A call of a tool in this list needs a registered confirmation.
    pub requires_confirmation: Vec<String>,
}

/// What a [`ToolPolicy`] holds, as sequences of tool names.
pub struct PolicyTable {
    pub allowed_tools: Seq<Seq<char>>,
    pub requires_confirmation: Seq<Seq<char>>,
}

impl View for ToolPolicy {
    type V = PolicyTable;

    open spec fn view(&self) -> PolicyTable {
        PolicyTable {
            allowed_tools: views(self.allowed_tools@),
            requires_confirmation: views(self.requires_confirmation@),
        }
    }
}

/// The tools the local model may call.
pub open spec fn local_allowed() -> Seq<Seq<char>> {
    seq![
        "read_file"@,
        "write_file"@,
        "list_directory"@,
        "create_directory"@,
        "open_tile"@,
        "close_tile"@,
        "reorganize_layout"@,
        "download_archive_org"@,
        "download_youtube"@,
        "list_downloads"@,
        "pause_download"@,
        "resume_download"@,
        "cancel_download"@,
        "launch_app"@,
    ]
}

/// The tools the local model may call only with the user's confirmation.
pub open spec fn local_confirmed() -> Seq<Seq<char>> {
    seq![
        "delete_file"@,
        "move_file"@,
        "rename_file"@,
        "kill_process"@,
        "run_command"@,
        "launch_app"@,
    ]
}

/// The tools a remote model may call: reading, listing and the window layout.
pub open spec fn cloud_allowed() -> Seq<Seq<char>> {
    seq![
        "read_file"@,
        "list_directory"@,
        "open_tile"@,
        "close_tile"@,
        "reorganize_layout"@,
    ]
}

/// Every tool that the workstation offers.
pub open spec fn tool_catalogue() -> Seq<Seq<char>> {
    seq![
        "read_file"@,
        "write_file"@,
        "delete_file"@,
        "move_file"@,
        "rename_file"@,
        "copy_file"@,
        "create_directory"@,
        "list_directory"@,
        "open_tile"@,
        "close_tile"@,
        "reorganize_layout"@,
        "download_archive_org"@,
        "download_youtube"@,
        "list_downloads"@,
        "pause_download"@,
        "resume_download"@,
        "cancel_download"@,
        "launch_app"@,
        "run_command"@,
        "kill_process"@,
    ]
}

/// The scope table.
pub open spec fn policy_table(scope: ToolScope) -> PolicyTable {
    match scope {
        ToolScope::LocalAI => PolicyTable {
            allowed_tools: local_allowed(),
            requires_confirmation: local_confirmed(),
        },
        ToolScope::CloudAI => PolicyTable {
            allowed_tools: cloud_allowed(),
            requires_confirmation: Seq::empty(),
        },
        ToolScope::UserDirect => PolicyTable {
            allowed_tools: Seq::empty(),
            requires_confirmation: Seq::empty(),
        },
    }
}

/// The policy of `scope`: exactly its row of the scope table.
pub fn policy_for(scope: ToolScope) -> (policy: ToolPolicy)
    ensures
        policy@ == policy_table(scope),
{
    let policy = match scope {
        ToolScope::LocalAI => ToolPolicy {
            allowed_tools: vec![
                "read_file".to_string(),
                "write_file".to_string(),
                "list_directory".to_string(),
                "create_directory".to_string(),
                "open_tile".to_string(),
                "close_tile".to_string(),
                "reorganize_layout".to_string(),
                "download_archive_org".to_string(),
                "download_youtube".to_string(),
                "list_downloads".to_string(),
                "pause_download".to_string(),
                "resume_download".to_string(),
                "cancel_download".to_string(),
                "launch_app".to_string(),
            ],
            requires_confirmation: vec![
                "delete_file".to_string(),
                "move_file".to_string(),
                "rename_file".to_string(),
                "kill_process".to_string(),
                "run_command".to_string(),
                "launch_app".to_string(),
            ],
        },
        ToolScope::CloudAI => ToolPolicy {
            allowed_tools: vec![
                "read_file".to_string(),
                "list_directory".to_string(),
                "open_tile".to_string(),
                "close_tile".to_string(),
                "reorganize_layout".to_string(),
            ],
            requires_confirmation: Vec::new(),
        },
        ToolScope::UserDirect => ToolPolicy {
            allowed_tools: Vec::new(),
            requires_confirmation: Vec::new(),
        },
    };
    proof {
        assert(policy@.allowed_tools =~= policy_table(scope).allowed_tools);
        assert(policy@.requires_confirmation =~= policy_table(scope).requires_confirmation);
    }
    policy
}

/// No tool stands twice in the catalogue: any two of its names differ in
/// their length, their first character or their seventh.
pub proof fn lemma_catalogue_distinct()
    ensures
        tool_catalogue().no_duplicates(),
{
    reveal_strlit("read_file");
    reveal_strlit("write_file");
    reveal_strlit("delete_file");
    reveal_strlit("move_file");
    reveal_strlit("rename_file");
    reveal_strlit("copy_file");
    reveal_strlit("create_directory");
    reveal_strlit("list_directory");
    reveal_strlit("open_tile");
    reveal_strlit("close_tile");
    reveal_strlit("reorganize_layout");
    reveal_strlit("download_archive_org");
    reveal_strlit("download_youtube");
    reveal_strlit("list_downloads");
    reveal_strlit("pause_download");
    reveal_strlit("resume_download");
    reveal_strlit("cancel_download");
    reveal_strlit("launch_app");
    reveal_strlit("run_command");
    reveal_strlit("kill_process");
    let catalogue = tool_catalogue();
    assert forall|i: int, j: int|
        0 <= i < catalogue.len() && 0 <= j < catalogue.len() && i != j implies catalogue[i]
        != catalogue[j] by {
        assert(catalogue[i].len() != catalogue[j].len() || catalogue[i][0] != catalogue[j][0]
            || catalogue[i][6] != catalogue[j][6]);
    }
}

/// No scope may call a tool that the catalogue does not hold.
pub proof fn lemma_allowed_tools_in_catalogue(scope: ToolScope, tool: Seq<char>)
    requires
        policy_table(scope).allowed_tools.contains(tool),
    ensures
        tool_catalogue().contains(tool),
{
    let catalogue = tool_catalogue();
    match scope {
        ToolScope::LocalAI => {
            assert(catalogue[0] == local_allowed()[0]);
            assert(catalogue[1] == local_allowed()[1]);
            assert(catalogue[7] == local_allowed()[2]);
            assert(catalogue[6] == local_allowed()[3]);
            assert(catalogue[8] == local_allowed()[4]);
            assert(catalogue[9] == local_allowed()[5]);
            assert(catalogue[10] == local_allowed()[6]);
            assert(catalogue[11] == local_allowed()[7]);
            assert(catalogue[12] == local_allowed()[8]);
            assert(catalogue[13] == local_allowed()[9]);
            assert(catalogue[14] == local_allowed()[10]);
            assert(catalogue[15] == local_allowed()[11]);
            assert(catalogue[16] == local_allowed()[12]);
            assert(catalogue[17] == local_allowed()[13]);
        },
        ToolScope::CloudAI => {
            assert(catalogue[0] == cloud_allowed()[0]);
            assert(catalogue[7] == cloud_allowed()[1]);
            assert(catalogue[8] == cloud_allowed()[2]);
            assert(catalogue[9] == cloud_allowed()[3]);
            assert(catalogue[10] == cloud_allowed()[4]);
        },
        ToolScope::UserDirect => {},
    }
}

impl ToolPolicy {
    /// Whether the policy lets its scope call `tool` at all.
    pub fn allows(&self, tool: &str) -> (yes: bool)
        ensures
            yes == self@.allowed_tools.contains(tool@),
    {
        contains_text(&self.allowed_tools, tool)
    }

    /// Whether a call of `tool` needs a registered confirmation.
    pub fn needs_confirmation(&self, tool: &str) -> (yes: bool)
        ensures
            yes == self@.requires_confirmation.contains(tool@),
    {
        contains_text(&self.requires_confirmation, tool)
    }
}

} // verus!
