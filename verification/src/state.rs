//! The state that the guard reads: who is calling, on which platform, within
//! which directories, and which calls the user has confirmed.

use vstd::prelude::*;
use crate::text::{contains_text, views};
use crate::tool_policy::ToolScope;
use crate::types::{Platform, UserRole};

verus! {

/// The calls that the user has confirmed, by the identifier of the call.
#[derive(Debug)]
pub struct ConfirmationRegistry {
    confirmed: Vec<String>,
}

impl View for ConfirmationRegistry {
    type V = Set<Seq<char>>;

    /// The identifiers that are confirmed.
    closed spec fn view(&self) -> Set<Seq<char>> {
        views(self.confirmed@).to_set()
    }
}

impl ConfirmationRegistry {
    /// A registry in which nothing is confirmed.
    pub fn new() -> (registry: ConfirmationRegistry)
        ensures
            registry@ == Set::<Seq<char>>::empty(),
    {
        let registry = ConfirmationRegistry { confirmed: Vec::new() };
        assert(registry@ =~= Set::<Seq<char>>::empty());
        registry
    }

    /// Registers the user's confirmation of the call `id`; every other call stays as it was.
    pub fn confirm(&mut self, id: &str)
        ensures
            final(self)@ == old(self)@.insert(id@),
    {
        let ghost before = views(self.confirmed@);
        self.confirmed.push(id.to_string());
        proof {
            let after = views(self.confirmed@);
            assert(after =~= before.push(id@));
            assert forall|text: Seq<char>| after.contains(text) <==> before.contains(text) || text
                == id@ by {
                if before.contains(text) {
                    let i = choose|i: int| 0 <= i < before.len() && before[i] == text;
                    assert(after[i] == text);
                }
                if text == id@ {
                    assert(after[before.len() as int] == text);
                }
            }
            assert(after.to_set() =~= before.to_set().insert(id@));
        }
    }

    /// Whether the user has confirmed the call `id`.
    pub fn is_confirmed(&self, id: &str) -> (yes: bool)
        ensures
            yes == self@.contains(id@),
    {
        contains_text(&self.confirmed, id)
    }
}

/// The part of the configuration that the guard reads.
#[derive(Debug)]
pub struct Config {
    /// The directories within which tools may touch files.
    pub safe_directories: Vec<String>,
}

/// What the guard reads of the running application.
#[derive(Debug)]
pub struct AppState {
    /// Who originates the calls of this session.
    pub scope: ToolScope,
    /// The privilege level of the session.
    pub role: UserRole,
    /// The host platform.
    pub platform: Platform,
    /// The configuration.
    pub config: Config,
    /// The confirmations registered so far.
    pub confirmation_registry: ConfirmationRegistry,
}

/// What an [`AppState`] holds.
pub struct AppStateView {
    pub scope: ToolScope,
    pub role: UserRole,
    pub platform: Platform,
    pub safe_directories: Seq<Seq<char>>,
    pub confirmed: Set<Seq<char>>,
}

impl View for AppState {
    type V = AppStateView;

    open spec fn view(&self) -> AppStateView {
        AppStateView {
            scope: self.scope,
            role: self.role,
            platform: self.platform,
            safe_directories: views(self.config.safe_directories@),
            confirmed: self.confirmation_registry@,
        }
    }
}

impl AppState {
    /// The scope of the operator whose calls are being checked.
    pub fn current_tool_scope(&self) -> (scope: ToolScope)
        ensures
            scope == self@.scope,
    {
        self.scope
    }

    /// The role of the authenticated session.
    pub fn current_user_role(&self) -> (role: UserRole)
        ensures
            role == self@.role,
    {
        self.role
    }
}

} // verus!
