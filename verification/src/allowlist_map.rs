//! The catalogue of runnable commands per platform, with the binaries that
//! stand for each and a readable form of its accepted arguments.

use vstd::prelude::*;
pub use crate::types::Platform;

verus! {

/// One runnable command of a platform.
pub struct AllowlistedCommand {
    /// The name by which a tool call asks for the command.
    pub name: &'static str,
    /// The absolute locations of its binary that count as canonical.
    pub full_paths: &'static [&'static str],
    /// The accepted argument lists, written for a human reader.
    pub arg_patterns: &'static [&'static str],
}

/// What an [`AllowlistedCommand`] holds, as sequences of characters.
pub struct CommandEntry {
    pub name: Seq<char>,
    pub full_paths: Seq<Seq<char>>,
    pub arg_patterns: Seq<Seq<char>>,
}

/// The character sequences of a list of string slices, in order.
pub open spec fn slice_views(items: Seq<&'static str>) -> Seq<Seq<char>> {
    Seq::new(items.len(), |i: int| items[i]@)
}

impl View for AllowlistedCommand {
    type V = CommandEntry;

    open spec fn view(&self) -> CommandEntry {
        CommandEntry {
            name: self.name@,
            full_paths: slice_views(self.full_paths@),
            arg_patterns: slice_views(self.arg_patterns@),
        }
    }
}

/// The views of a list of commands, in order.
pub open spec fn command_views(items: Seq<AllowlistedCommand>) -> Seq<CommandEntry> {
    Seq::new(items.len(), |i: int| items[i]@)
}

/// A command with its canonical binaries and the one readable form of its arguments.
pub open spec fn entry(name: &str, full_paths: Seq<Seq<char>>, arg_pattern: &str) -> CommandEntry {
    CommandEntry { name: name@, full_paths, arg_patterns: seq![arg_pattern@] }
}

/// The catalogue: the commands of each platform, in the order they are listed.
pub open spec fn allowlist_table(platform: Platform) -> Seq<CommandEntry> {
    match platform {
        Platform::Linux => seq![
            entry("xdg-open", seq!["/usr/bin/xdg-open"@], "<path-or-url>"),
            entry("uname", seq!["/usr/bin/uname"@], "-a"),
            entry("df", seq!["/bin/df"@], "-h"),
            entry("free", seq!["/usr/bin/free"@], "-h"),
            entry("ps", seq!["/bin/ps"@], "aux"),
            entry("kill", seq!["/bin/kill"@], "-TERM <pid>"),
            entry("git", seq!["/usr/bin/git"@], "clone <repo-url> <dest-path>"),
            entry("curl", seq!["/usr/bin/curl"@], "-L <url> -o <dest-path>"),
            entry("tar", seq!["/bin/tar"@], "-xzf <tarball> -C <dest-path>"),
            entry("apt", seq!["/usr/bin/apt"@], "remove <package>"),
            entry("dnf", seq!["/usr/bin/dnf"@], "remove <package>"),
            entry("pacman", seq!["/usr/bin/pacman"@], "-R <package>"),
            entry("flatpak", seq!["/usr/bin/flatpak"@], "uninstall <app-id>"),
            entry("snap", seq!["/usr/bin/snap"@], "remove <package>"),
        ],
        Platform::MacOS => seq![
            entry("open", seq!["/usr/bin/open"@], "<path-or-url>"),
            entry(
                "brew",
                seq!["/opt/homebrew/bin/brew"@, "/usr/local/bin/brew"@],
                "uninstall <formula-or-cask>",
            ),
        ],
        Platform::Windows => seq![
            entry("start", seq!["C:\\Windows\\System32\\cmd.exe"@], "/C start <path-or-url>"),
            entry("winget", seq!["C:\\Windows\\System32\\winget.exe"@], "uninstall --id <id>"),
        ],
    }
}

/// A command whose three fields agree with a row, element by element, is that row.
proof fn lemma_row(command: AllowlistedCommand, row: CommandEntry)
    requires
        command@.name == row.name,
        command@.full_paths =~= row.full_paths,
        command@.arg_patterns =~= row.arg_patterns,
    ensures
        command@ == row,
{
}

/// The catalogue rows of Linux.
fn linux_commands() -> (listing: Vec<AllowlistedCommand>)
    ensures
        command_views(listing@) == allowlist_table(Platform::Linux),
{
    let listing = vec![
        AllowlistedCommand {
            name: "xdg-open",
            full_paths: &["/usr/bin/xdg-open"],
            arg_patterns: &["<path-or-url>"],
        },
        AllowlistedCommand {
            name: "uname",
            full_paths: &["/usr/bin/uname"],
            arg_patterns: &["-a"],
        },
        AllowlistedCommand {
            name: "df",
            full_paths: &["/bin/df"],
            arg_patterns: &["-h"],
        },
        AllowlistedCommand {
            name: "free",
            full_paths: &["/usr/bin/free"],
            arg_patterns: &["-h"],
        },
        AllowlistedCommand {
            name: "ps",
            full_paths: &["/bin/ps"],
            arg_patterns: &["aux"],
        },
        AllowlistedCommand {
            name: "kill",
            full_paths: &["/bin/kill"],
            arg_patterns: &["-TERM <pid>"],
        },
        AllowlistedCommand {
            name: "git",
            full_paths: &["/usr/bin/git"],
            arg_patterns: &["clone <repo-url> <dest-path>"],
        },
        AllowlistedCommand {
            name: "curl",
            full_paths: &["/usr/bin/curl"],
            arg_patterns: &["-L <url> -o <dest-path>"],
        },
        AllowlistedCommand {
            name: "tar",
            full_paths: &["/bin/tar"],
            arg_patterns: &["-xzf <tarball> -C <dest-path>"],
        },
        AllowlistedCommand {
            name: "apt",
            full_paths: &["/usr/bin/apt"],
            arg_patterns: &["remove <package>"],
        },
        AllowlistedCommand {
            name: "dnf",
            full_paths: &["/usr/bin/dnf"],
            arg_patterns: &["remove <package>"],
        },
        AllowlistedCommand {
            name: "pacman",
            full_paths: &["/usr/bin/pacman"],
            arg_patterns: &["-R <package>"],
        },
        AllowlistedCommand {
            name: "flatpak",
            full_paths: &["/usr/bin/flatpak"],
            arg_patterns: &["uninstall <app-id>"],
        },
        AllowlistedCommand {
            name: "snap",
            full_paths: &["/usr/bin/snap"],
            arg_patterns: &["remove <package>"],
        },
    ];
    proof {
        let table = allowlist_table(Platform::Linux);
        lemma_row(listing@[0], table[0]);
        lemma_row(listing@[1], table[1]);
        lemma_row(listing@[2], table[2]);
        lemma_row(listing@[3], table[3]);
        lemma_row(listing@[4], table[4]);
        lemma_row(listing@[5], table[5]);
        lemma_row(listing@[6], table[6]);
        lemma_row(listing@[7], table[7]);
        lemma_row(listing@[8], table[8]);
        lemma_row(listing@[9], table[9]);
        lemma_row(listing@[10], table[10]);
        lemma_row(listing@[11], table[11]);
        lemma_row(listing@[12], table[12]);
        lemma_row(listing@[13], table[13]);
        assert(command_views(listing@) =~= table);
    }
    listing
}

/// The catalogue rows of macOS.
fn macos_commands() -> (listing: Vec<AllowlistedCommand>)
    ensures
        command_views(listing@) == allowlist_table(Platform::MacOS),
{
    let listing = vec![
        AllowlistedCommand {
            name: "open",
            full_paths: &["/usr/bin/open"],
            arg_patterns: &["<path-or-url>"],
        },
        AllowlistedCommand {
            name: "brew",
            full_paths: &["/opt/homebrew/bin/brew", "/usr/local/bin/brew"],
            arg_patterns: &["uninstall <formula-or-cask>"],
        },
    ];
    proof {
        let table = allowlist_table(Platform::MacOS);
        lemma_row(listing@[0], table[0]);
        lemma_row(listing@[1], table[1]);
        assert(command_views(listing@) =~= table);
    }
    listing
}

/// The catalogue rows of Windows.
fn windows_commands() -> (listing: Vec<AllowlistedCommand>)
    ensures
        command_views(listing@) == allowlist_table(Platform::Windows),
{
    let listing = vec![
        AllowlistedCommand {
            name: "start",
            full_paths: &["C:\\Windows\\System32\\cmd.exe"],
            arg_patterns: &["/C start <path-or-url>"],
        },
        AllowlistedCommand {
            name: "winget",
            full_paths: &["C:\\Windows\\System32\\winget.exe"],
            arg_patterns: &["uninstall --id <id>"],
        },
    ];
    proof {
        let table = allowlist_table(Platform::Windows);
        lemma_row(listing@[0], table[0]);
        lemma_row(listing@[1], table[1]);
        assert(command_views(listing@) =~= table);
    }
    listing
}

/// The runnable commands of `platform`: exactly the rows of the catalogue, in order.
pub fn allowlist_for(platform: Platform) -> (listing: Vec<AllowlistedCommand>)
    ensures
        command_views(listing@) == allowlist_table(platform),
{
    match platform {
        Platform::Linux => linux_commands(),
        Platform::MacOS => macos_commands(),
        Platform::Windows => windows_commands(),
    }
}

} // verus!
