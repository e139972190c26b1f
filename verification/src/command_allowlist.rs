//! The command allowlist: which argument lists each runnable command accepts.
//!
//! A command is accepted by the shape of its argument list alone: the number
//! of arguments and the literal flags at fixed positions. Placeholder
//! positions are not inspected here.

use vstd::prelude::*;
use serde_json::Value;
use crate::allowlist_map::{allowlist_table, Platform};
use crate::params::{
    all_strings,
    json_of,
    list_field,
    list_param,
    str_param,
    string_texts,
    strings_of_list,
    text_field,
    Json,
};
use crate::text::{str_eq, views};
use crate::types::{denied, invalid, outcome, ToolError, ToolErrorView};

verus! {

/// One accepted argument list: a literal at each fixed position, `None` at each placeholder.
pub type ArgShape = Seq<Option<Seq<char>>>;

/// What the allowlist holds for one command: the accepted shape and the reason
/// given when an argument list does not have it.
pub struct CommandRule {
    pub shape: ArgShape,
    pub refusal: Seq<char>,
}

/// A position that must hold exactly this text.
pub open spec fn lit(text: &str) -> Option<Seq<char>> {
    Some(text@)
}

/// A position that may hold anything.
pub open spec fn any() -> Option<Seq<char>> {
    None
}

/// The rule of a command, or `None` for a command that is not on the list.
pub open spec fn rule_for(command: Seq<char>) -> Option<CommandRule> {
    if command == "xdg-open"@ || command == "open"@ || command == "start"@ {
        Some(CommandRule { shape: seq![any()], refusal: "Invalid args for open"@ })
    } else if command == "uname"@ {
        Some(CommandRule { shape: seq![lit("-a")], refusal: "Invalid args for uname"@ })
    } else if command == "df"@ {
        Some(CommandRule { shape: seq![lit("-h")], refusal: "Invalid args for df"@ })
    } else if command == "free"@ {
        Some(CommandRule { shape: seq![lit("-h")], refusal: "Invalid args for free"@ })
    } else if command == "ps"@ {
        Some(CommandRule { shape: seq![lit("aux")], refusal: "Invalid args for ps"@ })
    } else if command == "kill"@ {
        Some(CommandRule { shape: seq![lit("-TERM"), any()], refusal: "Invalid args for kill"@ })
    } else if command == "git"@ {
        Some(
            CommandRule {
                shape: seq![lit("clone"), any(), any()],
                refusal: "Invalid args for git clone"@,
            },
        )
    } else if command == "curl"@ {
        Some(
            CommandRule {
                shape: seq![lit("-L"), any(), lit("-o"), any()],
                refusal: "Invalid args for curl"@,
            },
        )
    } else if command == "tar"@ {
        Some(
            CommandRule {
                shape: seq![lit("-xzf"), any(), lit("-C"), any()],
                refusal: "Invalid args for tar"@,
            },
        )
    } else if command == "apt"@ {
        Some(
            CommandRule {
                shape: seq![lit("remove"), any()],
                refusal: "Invalid args for apt remove"@,
            },
        )
    } else if command == "dnf"@ {
        Some(
            CommandRule {
                shape: seq![lit("remove"), any()],
                refusal: "Invalid args for dnf remove"@,
            },
        )
    } else if command == "pacman"@ {
        Some(CommandRule { shape: seq![lit("-R"), any()], refusal: "Invalid args for pacman -R"@ })
    } else if command == "flatpak"@ {
        Some(
            CommandRule {
                shape: seq![lit("uninstall"), any()],
                refusal: "Invalid args for flatpak uninstall"@,
            },
        )
    } else if command == "snap"@ {
        Some(
            CommandRule {
                shape: seq![lit("remove"), any()],
                refusal: "Invalid args for snap remove"@,
            },
        )
    } else if command == "brew"@ {
        Some(
            CommandRule {
                shape: seq![lit("uninstall"), any()],
                refusal: "Invalid args for brew uninstall"@,
            },
        )
    } else if command == "winget"@ {
        Some(
            CommandRule {
                shape: seq![lit("uninstall"), lit("--id"), any()],
                refusal: "Invalid args for winget uninstall"@,
            },
        )
    } else {
        None
    }
}

/// Whether an argument list has a shape: the same length, and the literal at
/// every fixed position, character for character.
pub open spec fn has_shape(args: Seq<Seq<char>>, shape: ArgShape) -> bool {
    &&& args.len() == shape.len()
    &&& forall|i: int| 0 <= i < shape.len() && shape[i] is Some ==> args[i] == shape[i]->Some_0
}

/// The decision of the allowlist on a command and its arguments.
pub open spec fn command_verdict(command: Seq<char>, args: Seq<Seq<char>>) -> Result<
    (),
    ToolErrorView,
> {
    match rule_for(command) {
        None => denied("Command not allowlisted"),
        Some(rule) => if has_shape(args, rule.shape) {
            Ok(())
        } else {
            Err(ToolErrorView::Denied(rule.refusal))
        },
    }
}

/// The allowlist decides on every command and every argument list, and its
/// only refusal is a denial.
pub proof fn lemma_command_verdict_total(command: Seq<char>, args: Seq<Seq<char>>)
    ensures
        command_verdict(command, args) is Ok || command_verdict(command, args) matches Err(
            ToolErrorView::Denied(_),
        ),
{
}

/// Every command that the catalogue lists for a platform has a rule here.
pub proof fn lemma_listed_commands_have_rules(platform: Platform, i: int)
    requires
        0 <= i < allowlist_table(platform).len(),
    ensures
        rule_for(allowlist_table(platform)[i].name) is Some,
{
}

/// Every command that has a rule here is listed in the catalogue of some platform.
pub proof fn lemma_ruled_commands_are_listed(command: Seq<char>)
    requires
        rule_for(command) is Some,
    ensures
        exists|platform: Platform, i: int|
            0 <= i < allowlist_table(platform).len() && #[trigger] allowlist_table(
                platform,
            )[i].name == command,
{
    let linux = allowlist_table(Platform::Linux);
    let macos = allowlist_table(Platform::MacOS);
    let windows = allowlist_table(Platform::Windows);
    if command == "open"@ {
        assert(macos[0].name == command);
    } else if command == "brew"@ {
        assert(macos[1].name == command);
    } else if command == "start"@ {
        assert(windows[0].name == command);
    } else if command == "winget"@ {
        assert(windows[1].name == command);
    } else {
        assert(linux[0].name == "xdg-open"@ && linux[1].name == "uname"@ && linux[2].name == "df"@
            && linux[3].name == "free"@ && linux[4].name == "ps"@ && linux[5].name == "kill"@
            && linux[6].name == "git"@ && linux[7].name == "curl"@ && linux[8].name == "tar"@
            && linux[9].name == "apt"@ && linux[10].name == "dnf"@ && linux[11].name == "pacman"@
            && linux[12].name == "flatpak"@ && linux[13].name == "snap"@);
    }
}

/// The text that a position of a shape requires, if any.
spec fn required(position: Option<&str>) -> Option<Seq<char>> {
    match position {
        Some(text) => lit(text),
        None => any(),
    }
}

/// Whether `args` has an argument at `index` that meets `position`.
fn meets(args: &[String], index: usize, position: Option<&str>) -> (yes: bool)
    ensures
        yes == (index < args@.len() && (position matches Some(text) ==> args@[index as int]@
            == text@)),
{
    if index < args.len() {
        match position {
            Some(text) => str_eq(args[index].as_str(), text),
            None => true,
        }
    } else {
        false
    }
}

/// Whether `args` has the shape of one position.
fn accepts1(args: &[String], a: Option<&str>) -> (yes: bool)
    ensures
        yes == has_shape(views(args@), seq![required(a)]),
{
    let ghost shape = seq![required(a)];
    proof {
        if args@.len() == 1 {
            assert(shape[0] == required(a));
            assert(views(args@)[0] == args@[0]@);
        }
    }
    args.len() == 1 && meets(args, 0, a)
}

/// Whether `args` has the shape of two positions.
fn accepts2(args: &[String], a: Option<&str>, b: Option<&str>) -> (yes: bool)
    ensures
        yes == has_shape(views(args@), seq![required(a), required(b)]),
{
    let ghost shape = seq![required(a), required(b)];
    proof {
        if args@.len() == 2 {
            assert(shape[0] == required(a) && shape[1] == required(b));
            assert(views(args@)[0] == args@[0]@ && views(args@)[1] == args@[1]@);
        }
    }
    args.len() == 2 && meets(args, 0, a) && meets(args, 1, b)
}

/// Whether `args` has the shape of three positions.
fn accepts3(args: &[String], a: Option<&str>, b: Option<&str>, c: Option<&str>) -> (yes: bool)
    ensures
        yes == has_shape(views(args@), seq![required(a), required(b), required(c)]),
{
    let ghost shape = seq![required(a), required(b), required(c)];
    proof {
        if args@.len() == 3 {
            assert(shape[0] == required(a) && shape[1] == required(b) && shape[2] == required(c));
            assert(views(args@)[0] == args@[0]@ && views(args@)[1] == args@[1]@ && views(
                args@,
            )[2] == args@[2]@);
        }
    }
    args.len() == 3 && meets(args, 0, a) && meets(args, 1, b) && meets(args, 2, c)
}

/// Whether `args` has the shape of four positions.
fn accepts4(
    args: &[String],
    a: Option<&str>,
    b: Option<&str>,
    c: Option<&str>,
    d: Option<&str>,
) -> (yes: bool)
    ensures
        yes == has_shape(views(args@), seq![required(a), required(b), required(c), required(d)]),
{
    let ghost shape = seq![required(a), required(b), required(c), required(d)];
    proof {
        if args@.len() == 4 {
            assert(shape[0] == required(a) && shape[1] == required(b) && shape[2] == required(c)
                && shape[3] == required(d));
            assert(views(args@)[0] == args@[0]@ && views(args@)[1] == args@[1]@ && views(
                args@,
            )[2] == args@[2]@ && views(args@)[3] == args@[3]@);
        }
    }
    args.len() == 4 && meets(args, 0, a) && meets(args, 1, b) && meets(args, 2, c) && meets(
        args,
        3,
        d,
    )
}

/// The verdict for an argument list checked against one rule.
fn verdict(accepted: bool, refusal: &str) -> (result: Result<(), ToolError>)
    ensures
        outcome(result) == if accepted {
            Ok(())
        } else {
            denied(refusal)
        },
{
    if accepted {
        Ok(())
    } else {
        Err(ToolError::Denied(refusal.to_string()))
    }
}

/// Decides whether `command` may run with `args`.
///
/// A command on the list is accepted exactly when its argument list has the
/// shape the list holds for it. Everything else is denied, with a reason that
/// names the command's rule, or "Command not allowlisted" for an unknown
/// command. The result is never `Invalid` and never `NeedsConfirmation`.
pub fn validate_command(command: &str, args: &[String]) -> (result: Result<(), ToolError>)
    ensures
        outcome(result) == command_verdict(command@, views(args@)),
        result matches Err(error) ==> error is Denied,
{
    if str_eq(command, "xdg-open") || str_eq(command, "open") || str_eq(command, "start") {
        verdict(accepts1(args, None), "Invalid args for open")
    } else if str_eq(command, "uname") {
        verdict(accepts1(args, Some("-a")), "Invalid args for uname")
    } else if str_eq(command, "df") {
        verdict(accepts1(args, Some("-h")), "Invalid args for df")
    } else if str_eq(command, "free") {
        verdict(accepts1(args, Some("-h")), "Invalid args for free")
    } else if str_eq(command, "ps") {
        verdict(accepts1(args, Some("aux")), "Invalid args for ps")
    } else if str_eq(command, "kill") {
        verdict(accepts2(args, Some("-TERM"), None), "Invalid args for kill")
    } else if str_eq(command, "git") {
        verdict(accepts3(args, Some("clone"), None, None), "Invalid args for git clone")
    } else if str_eq(command, "curl") {
        verdict(accepts4(args, Some("-L"), None, Some("-o"), None), "Invalid args for curl")
    } else if str_eq(command, "tar") {
        verdict(accepts4(args, Some("-xzf"), None, Some("-C"), None), "Invalid args for tar")
    } else if str_eq(command, "apt") {
        verdict(accepts2(args, Some("remove"), None), "Invalid args for apt remove")
    } else if str_eq(command, "dnf") {
        verdict(accepts2(args, Some("remove"), None), "Invalid args for dnf remove")
    } else if str_eq(command, "pacman") {
        verdict(accepts2(args, Some("-R"), None), "Invalid args for pacman -R")
    } else if str_eq(command, "flatpak") {
        verdict(accepts2(args, Some("uninstall"), None), "Invalid args for flatpak uninstall")
    } else if str_eq(command, "snap") {
        verdict(accepts2(args, Some("remove"), None), "Invalid args for snap remove")
    } else if str_eq(command, "brew") {
        verdict(accepts2(args, Some("uninstall"), None), "Invalid args for brew uninstall")
    } else if str_eq(command, "winget") {
        verdict(
            accepts3(args, Some("uninstall"), Some("--id"), None),
            "Invalid args for winget uninstall",
        )
    } else {
        Err(ToolError::Denied("Command not allowlisted".to_string()))
    }
}

/// The decision on the parameters of a `run_command` call.
///
/// The parameters must be an object with a string `command` and an array
/// `args` of strings; the command is then judged with the texts of `args`.
pub open spec fn command_params_verdict(params: Json) -> Result<(), ToolErrorView> {
    match text_field(params, "command"@) {
        None => invalid("Missing command"),
        Some(command) => match list_field(params, "args"@) {
            None => invalid("Missing args"),
            Some(items) => if all_strings(items) {
                command_verdict(command, string_texts(items))
            } else {
                invalid("Args must be strings")
            },
        },
    }
}

/// Whether the parameters of a `run_command` call have the right form: an
/// object with a string `command` and an array `args` that holds strings only.
pub open spec fn command_params_well_formed(params: Json) -> bool {
    &&& text_field(params, "command"@) is Some
    &&& list_field(params, "args"@) matches Some(items) && all_strings(items)
}

/// The parameters of a `run_command` call are invalid exactly when they do
/// not have the right form. Parameters of the right form get the decision of
/// the allowlist on the command and the texts of its arguments, which is a
/// pass or a denial.
pub proof fn lemma_command_params_invalid_iff_malformed(params: Json)
    ensures
        command_params_verdict(params) matches Err(ToolErrorView::Invalid(_))
            <==> !command_params_well_formed(params),
        command_params_well_formed(params) ==> command_params_verdict(params) == command_verdict(
            text_field(params, "command"@)->Some_0,
            string_texts(list_field(params, "args"@)->Some_0),
        ),
{
    if command_params_well_formed(params) {
        lemma_command_verdict_total(
            text_field(params, "command"@)->Some_0,
            string_texts(list_field(params, "args"@)->Some_0),
        );
    }
}

/// Decides whether the command that `params` asks for may run.
///
/// `Invalid` comes exactly when `command` is missing or no string
/// ("Missing command"), or else when `args` is missing or no array
/// ("Missing args"), or else when an element of `args` is no string
/// ("Args must be strings"). Otherwise the result is that of
/// [`validate_command`] on the command and the strings of `args`.
pub fn validate_command_from_params(params: &Value) -> (result: Result<(), ToolError>)
    ensures
        outcome(result) == command_params_verdict(json_of(*params)),
{
    let command = match str_param(params, "command") {
        Some(command) => command,
        None => {
            return Err(ToolError::Invalid("Missing command".to_string()));
        },
    };
    let items = match list_param(params, "args") {
        Some(items) => items,
        None => {
            return Err(ToolError::Invalid("Missing args".to_string()));
        },
    };
    let args = match strings_of_list(items) {
        Some(args) => args,
        None => {
            return Err(ToolError::Invalid("Args must be strings".to_string()));
        },
    };
    validate_command(command, args.as_slice())
}

} // verus!
