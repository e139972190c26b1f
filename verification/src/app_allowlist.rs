//! The application allowlist: which applications a session may launch, by
//! platform and role.

use vstd::prelude::*;
use crate::text::str_eq;
pub use crate::types::{Platform, UserRole};

verus! {

/// One launchable application.
pub struct AllowlistedApp {
    /// The platform's own identifier of the application.
    pub app_id: &'static str,
    /// The name shown to the user.
    pub display_name: &'static str,
    /// The platform on which the identifier is valid.
    pub platform: Platform,
}

/// What an [`AllowlistedApp`] holds, as sequences of characters.
pub struct AppEntry {
    pub app_id: Seq<char>,
    pub display_name: Seq<char>,
    pub platform: Platform,
}

impl View for AllowlistedApp {
    type V = AppEntry;

    open spec fn view(&self) -> AppEntry {
        AppEntry {
            app_id: self.app_id@,
            display_name: self.display_name@,
            platform: self.platform,
        }
    }
}

/// The views of a list of applications, in order.
pub open spec fn app_views(items: Seq<AllowlistedApp>) -> Seq<AppEntry> {
    Seq::new(items.len(), |i: int| items[i]@)
}

/// An application of `platform` with its identifier and display name.
pub open spec fn app(platform: Platform, app_id: &str, display_name: &str) -> AppEntry {
    AppEntry { app_id: app_id@, display_name: display_name@, platform }
}

/// The applications every session may launch: the platform's own file
/// manager, plain text editor and terminal.
pub open spec fn baseline_apps(platform: Platform) -> Seq<AppEntry> {
    match platform {
        Platform::Linux => seq![
            app(platform, "org.gnome.Nautilus", "Files"),
            app(platform, "org.gnome.TextEditor", "Text Editor"),
            app(platform, "org.gnome.Terminal", "Terminal"),
        ],
        Platform::MacOS => seq![
            app(platform, "com.apple.Finder", "Finder"),
            app(platform, "com.apple.TextEdit", "TextEdit"),
            app(platform, "com.apple.Terminal", "Terminal"),
        ],
        Platform::Windows => seq![
            app(platform, "Microsoft.Windows.Explorer", "File Explorer"),
            app(platform, "Microsoft.Notepad", "Notepad"),
            app(platform, "Microsoft.WindowsTerminal", "Windows Terminal"),
        ],
    }
}

/// The applications that only an administrator may launch.
pub open spec fn admin_apps(platform: Platform) -> Seq<AppEntry> {
    match platform {
        Platform::Linux => seq![app(platform, "org.mozilla.firefox", "Firefox")],
        Platform::MacOS => seq![app(platform, "org.mozilla.firefox", "Firefox")],
        Platform::Windows => seq![app(platform, "Mozilla.Firefox", "Firefox")],
    }
}

/// The launchable applications of a platform and role: the baseline, followed
/// for an administrator by the administrator's additions.
pub open spec fn app_table(platform: Platform, role: UserRole) -> Seq<AppEntry> {
    match role {
        UserRole::Standard => baseline_apps(platform),
        UserRole::Admin => baseline_apps(platform) + admin_apps(platform),
    }
}

/// Whether `app_id` is the identifier of a launchable application of the platform and role.
pub open spec fn app_allowed(app_id: Seq<char>, role: UserRole, platform: Platform) -> bool {
    exists|i: int|
        0 <= i < app_table(platform, role).len() && #[trigger] app_table(platform, role)[i].app_id
            == app_id
}

/// The applications that a session of `role` may launch on `platform`.
pub fn allowlisted_apps(platform: Platform, role: UserRole) -> (apps: Vec<AllowlistedApp>)
    ensures
        app_views(apps@) == app_table(platform, role),
{
    let mut apps: Vec<AllowlistedApp> = Vec::new();
    match platform {
        Platform::Linux => {
            apps.push(
                AllowlistedApp { app_id: "org.gnome.Nautilus", display_name: "Files", platform },
            );
            apps.push(
                AllowlistedApp {
                    app_id: "org.gnome.TextEditor",
                    display_name: "Text Editor",
                    platform,
                },
            );
            apps.push(
                AllowlistedApp { app_id: "org.gnome.Terminal", display_name: "Terminal", platform },
            );
        },
        Platform::MacOS => {
            apps.push(
                AllowlistedApp { app_id: "com.apple.Finder", display_name: "Finder", platform },
            );
            apps.push(
                AllowlistedApp { app_id: "com.apple.TextEdit", display_name: "TextEdit", platform },
            );
            apps.push(
                AllowlistedApp { app_id: "com.apple.Terminal", display_name: "Terminal", platform },
            );
        },
        Platform::Windows => {
            apps.push(
                AllowlistedApp {
                    app_id: "Microsoft.Windows.Explorer",
                    display_name: "File Explorer",
                    platform,
                },
            );
            apps.push(
                AllowlistedApp { app_id: "Microsoft.Notepad", display_name: "Notepad", platform },
            );
            apps.push(
                AllowlistedApp {
                    app_id: "Microsoft.WindowsTerminal",
                    display_name: "Windows Terminal",
                    platform,
                },
            );
        },
    }
    assert(app_views(apps@) =~= baseline_apps(platform));
    if let UserRole::Admin = role {
        match platform {
            Platform::Linux => {
                apps.push(
                    AllowlistedApp {
                        app_id: "org.mozilla.firefox",
                        display_name: "Firefox",
                        platform,
                    },
                );
            },
            Platform::MacOS => {
                apps.push(
                    AllowlistedApp {
                        app_id: "org.mozilla.firefox",
                        display_name: "Firefox",
                        platform,
                    },
                );
            },
            Platform::Windows => {
                apps.push(
                    AllowlistedApp { app_id: "Mozilla.Firefox", display_name: "Firefox", platform },
                );
            },
        }
        assert(app_views(apps@) =~= baseline_apps(platform) + admin_apps(platform));
    }
    apps
}

/// Whether a session of `role` may launch the application `app_id` on `platform`.
pub fn is_allowed(app_id: &str, role: UserRole, platform: Platform) -> (yes: bool)
    ensures
        yes == app_allowed(app_id@, role, platform),
{
    let apps = allowlisted_apps(platform, role);
    let ghost table = app_table(platform, role);
    let mut i: usize = 0;
    while i < apps.len()
        invariant
            i <= apps.len(),
            app_views(apps@) == table,
            table == app_table(platform, role),
            forall|j: int| 0 <= j < i ==> table[j].app_id != app_id@,
        decreases apps.len() - i,
    {
        assert(table[i as int] == apps@[i as int]@);
        if str_eq(apps[i].app_id, app_id) {
            assert(app_table(platform, role)[i as int].app_id == app_id@);
            return true;
        }
        i += 1;
    }
    false
}

/// Whatever a standard session may launch, an administrator may launch too,
/// on every platform.
pub proof fn lemma_standard_within_admin(app_id: Seq<char>, platform: Platform)
    requires
        app_allowed(app_id, UserRole::Standard, platform),
    ensures
        app_allowed(app_id, UserRole::Admin, platform),
{
    let i = choose|i: int|
        0 <= i < app_table(platform, UserRole::Standard).len() && #[trigger] app_table(
            platform,
            UserRole::Standard,
        )[i].app_id == app_id;
    assert(app_table(platform, UserRole::Admin)[i] == baseline_apps(platform)[i]);
}

} // verus!
