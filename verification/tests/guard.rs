use serde_json::{Number, Value};
use tool_guard::policy_guard::{authorize, is_file_tool, reads_paths};
use tool_guard::safe_path::{CanonicalPath, HostPaths, PathReport};
use tool_guard::state::{AppState, Config, ConfirmationRegistry};
use tool_guard::tool_policy::ToolScope;
use tool_guard::types::{Platform, ToolCall, ToolError, UserRole};

const SCOPES: [ToolScope; 3] = [ToolScope::LocalAI, ToolScope::CloudAI, ToolScope::UserDirect];

fn object(members: &[(&str, Value)]) -> Value {
    let mut map = serde_json::Map::new();
    for (key, value) in members {
        map.insert(key.to_string(), value.clone());
    }
    Value::Object(map)
}

fn text(s: &str) -> Value {
    Value::String(s.to_string())
}

fn list(items: &[&str]) -> Value {
    Value::Array(items.iter().map(|s| text(s)).collect())
}

fn call(id: &str, tool: &str, parameters: Value) -> ToolCall {
    ToolCall { id: id.to_string(), tool_name: tool.to_string(), parameters }
}

fn state(scope: ToolScope, safe: &[&str], confirmed: &[&str]) -> AppState {
    let mut registry = ConfirmationRegistry::new();
    for id in confirmed {
        registry.confirm(id);
    }
    AppState {
        scope,
        role: UserRole::Standard,
        platform: Platform::Linux,
        config: Config { safe_directories: safe.iter().map(|s| s.to_string()).collect() },
        confirmation_registry: registry,
    }
}

fn canonical(text: &str) -> CanonicalPath {
    let mut components = vec![b"/".to_vec()];
    components.extend(text.split('/').filter(|part| !part.is_empty()).map(|part| part.as_bytes().to_vec()));
    CanonicalPath { components }
}

fn reports(paths: &[&str]) -> Vec<PathReport> {
    paths
        .iter()
        .map(|p| PathReport { path: p.to_string(), absolute: true, canonical: Some(canonical(p)) })
        .collect()
}

fn host(paths: &[&str]) -> HostPaths {
    HostPaths { separator: b'/', working_dir_known: true, reports: reports(paths), roots: reports(paths) }
}

fn nothing() -> HostPaths {
    HostPaths { separator: b'/', working_dir_known: false, reports: Vec::new(), roots: Vec::new() }
}

fn denial(result: Result<(), ToolError>) -> String {
    match result {
        Err(ToolError::Denied(reason)) => reason,
        other => panic!("expected a denial, got {:?}", other),
    }
}

fn invalid(result: Result<(), ToolError>) -> String {
    match result {
        Err(ToolError::Invalid(reason)) => reason,
        other => panic!("expected an invalid request, got {:?}", other),
    }
}

fn read_doc() -> ToolCall {
    call("a", "read_file", object(&[("path", text("/home/u/doc.txt"))]))
}

#[test]
fn local_read_inside_safe_directory_is_allowed() {
    let s = state(ToolScope::LocalAI, &["/home/u"], &[]);
    assert!(authorize(&read_doc(), &s, &host(&["/home/u/doc.txt", "/home/u"])).is_ok());
}

#[test]
fn local_read_outside_safe_directory_is_denied() {
    let s = state(ToolScope::LocalAI, &["/home/other"], &[]);
    assert_eq!(
        denial(authorize(&read_doc(), &s, &host(&["/home/u/doc.txt", "/home/other"]))),
        "Path not within safe directories"
    );
}

#[test]
fn read_of_system_file_is_denied_despite_misconfigured_safe_directory() {
    let s = state(ToolScope::LocalAI, &["/etc"], &[]);
    let c = call("a", "read_file", object(&[("path", text("/etc/passwd"))]));
    assert_eq!(denial(authorize(&c, &s, &host(&["/etc/passwd", "/etc"]))), "System paths are not allowed");
}

#[test]
fn run_command_is_in_no_scope() {
    let c = call("a", "run_command", object(&[("command", text("curl")), ("args", list(&["-L", "https://x", "-o", "/home/u/f"]))]));
    for scope in SCOPES {
        let s = state(scope, &["/home/u"], &["a"]);
        assert_eq!(denial(authorize(&c, &s, &nothing())), "Tool not allowed");
    }
}

#[test]
fn launch_of_firefox_needs_an_administrator() {
    let c = call("a", "launch_app", object(&[("app_id", text("org.mozilla.firefox"))]));
    let mut s = state(ToolScope::LocalAI, &[], &["a"]);
    s.platform = Platform::MacOS;
    assert_eq!(denial(authorize(&c, &s, &nothing())), "App not allowlisted");
    s.role = UserRole::Admin;
    assert!(authorize(&c, &s, &nothing()).is_ok());
}

#[test]
fn remote_write_is_denied_before_any_path_check() {
    let s = state(ToolScope::CloudAI, &["/home/u"], &["a"]);
    let good = call("a", "write_file", object(&[("path", text("/home/u/doc.txt"))]));
    assert_eq!(denial(authorize(&good, &s, &host(&["/home/u/doc.txt", "/home/u"]))), "Tool not allowed");
    let malformed = call("a", "write_file", Value::Null);
    assert_eq!(denial(authorize(&malformed, &s, &nothing())), "Tool not allowed");
}

#[test]
fn tools_outside_the_catalogue_are_denied_in_every_scope() {
    for tool in ["format_disk", "", "READ_FILE", "read_file ", "readfile", "launch_app2"] {
        for scope in SCOPES {
            let s = state(scope, &["/home/u"], &["a"]);
            let c = call("a", tool, object(&[("path", text("/home/u/doc.txt"))]));
            assert_eq!(denial(authorize(&c, &s, &host(&["/home/u/doc.txt", "/home/u"]))), "Tool not allowed");
        }
    }
}

#[test]
fn unconfirmed_launch_waits_whatever_its_parameters() {
    let s = state(ToolScope::LocalAI, &[], &["other"]);
    let parameters = [
        object(&[("app_id", text("org.gnome.Terminal"))]),
        object(&[("app_id", text("not.an.app"))]),
        object(&[("app_id", Value::Number(Number::from(1)))]),
        object(&[]),
        Value::Null,
    ];
    for p in parameters {
        let c = call("a", "launch_app", p);
        assert!(matches!(authorize(&c, &s, &nothing()), Err(ToolError::NeedsConfirmation)));
    }
}

#[test]
fn user_scope_denies_every_tool() {
    let tools = [
        "read_file", "write_file", "delete_file", "move_file", "rename_file", "copy_file",
        "create_directory", "list_directory", "open_tile", "close_tile", "reorganize_layout",
        "download_archive_org", "download_youtube", "list_downloads", "pause_download",
        "resume_download", "cancel_download", "launch_app", "run_command", "kill_process",
    ];
    let s = state(ToolScope::UserDirect, &["/home/u"], &["a"]);
    for tool in tools {
        let c = call("a", tool, object(&[("path", text("/home/u/doc.txt"))]));
        assert_eq!(denial(authorize(&c, &s, &host(&["/home/u/doc.txt", "/home/u"]))), "Tool not allowed");
    }
}

#[test]
fn remote_scope_denies_writes_commands_launches_and_downloads() {
    let tools = [
        "run_command", "write_file", "delete_file", "launch_app", "download_archive_org",
        "download_youtube", "list_downloads", "pause_download", "resume_download", "cancel_download",
    ];
    let s = state(ToolScope::CloudAI, &["/home/u"], &["a"]);
    for tool in tools {
        let c = call("a", tool, object(&[("path", text("/home/u/doc.txt"))]));
        assert_eq!(denial(authorize(&c, &s, &host(&["/home/u/doc.txt", "/home/u"]))), "Tool not allowed");
    }
}

#[test]
fn remote_scope_reads_lists_and_arranges_windows() {
    let s = state(ToolScope::CloudAI, &["/home/u"], &[]);
    let h = host(&["/home/u/doc.txt", "/home/u"]);
    assert!(authorize(&read_doc(), &s, &h).is_ok());
    assert!(authorize(&call("b", "list_directory", object(&[("path", text("/home/u"))])), &s, &h).is_ok());
    for tool in ["open_tile", "close_tile", "reorganize_layout"] {
        assert!(authorize(&call("c", tool, Value::Null), &s, &nothing()).is_ok());
    }
}

#[test]
fn confirmation_turns_waiting_into_a_decision_on_parameters() {
    let cases = [
        (object(&[("app_id", text("org.gnome.Terminal"))]), None),
        (object(&[("app_id", text("not.an.app"))]), Some(ToolError::Denied("App not allowlisted".to_string()))),
        (object(&[]), Some(ToolError::Invalid("Missing app_id".to_string()))),
    ];
    for (parameters, expected) in cases {
        let c = call("a", "launch_app", parameters);
        let mut s = state(ToolScope::LocalAI, &[], &[]);
        assert!(matches!(authorize(&c, &s, &nothing()), Err(ToolError::NeedsConfirmation)));
        s.confirmation_registry.confirm("a");
        let after = authorize(&c, &s, &nothing());
        match (after, expected) {
            (Ok(()), None) => {}
            (Err(got), Some(want)) => assert_eq!(got.message(), want.message()),
            (got, want) => panic!("got {:?}, expected {:?}", got, want),
        }
    }
}

#[test]
fn confirmation_of_another_call_does_not_count() {
    let c = call("a", "launch_app", object(&[("app_id", text("org.gnome.Terminal"))]));
    let s = state(ToolScope::LocalAI, &[], &["b", "A", ""]);
    assert!(matches!(authorize(&c, &s, &nothing()), Err(ToolError::NeedsConfirmation)));
}

#[test]
fn whatever_passes_for_the_remote_model_passes_for_the_local_one() {
    let h = host(&["/home/u/doc.txt", "/etc/passwd", "/srv/f", "/home/u"]);
    let calls = [
        read_doc(),
        call("a", "read_file", object(&[("path", text("/etc/passwd"))])),
        call("a", "read_file", object(&[("path", text("/srv/f"))])),
        call("a", "read_file", object(&[])),
        call("a", "list_directory", object(&[("path", text("/home/u"))])),
        call("a", "write_file", object(&[("path", text("/home/u/doc.txt"))])),
        call("a", "open_tile", Value::Null),
        call("a", "launch_app", object(&[("app_id", text("org.gnome.Terminal"))])),
        call("a", "run_command", object(&[("command", text("uname")), ("args", list(&["-a"]))])),
        call("a", "unknown", Value::Null),
    ];
    for c in &calls {
        for confirmed in [&[][..], &["a"][..]] {
            let local = authorize(c, &state(ToolScope::LocalAI, &["/home/u"], confirmed), &h);
            let cloud = authorize(c, &state(ToolScope::CloudAI, &["/home/u"], confirmed), &h);
            if cloud.is_ok() {
                assert!(local.is_ok());
            }
            if matches!(local, Err(ToolError::Denied(_))) {
                assert!(cloud.is_err());
            }
        }
    }
}

#[test]
fn file_tools_are_the_eight_that_touch_paths() {
    for tool in [
        "read_file", "write_file", "delete_file", "move_file", "rename_file", "copy_file",
        "create_directory", "list_directory",
    ] {
        assert!(is_file_tool(tool));
    }
    for tool in ["open_tile", "launch_app", "run_command", "kill_process", "list_downloads", "", "read_files"] {
        assert!(!is_file_tool(tool));
    }
}

#[test]
fn local_file_tools_need_a_safe_path() {
    let h = host(&["/home/u/doc.txt", "/home/u/new", "/home/u"]);
    let s = state(ToolScope::LocalAI, &["/home/u"], &[]);
    for tool in ["read_file", "write_file", "list_directory", "create_directory"] {
        assert!(authorize(&call("a", tool, object(&[("path", text("/home/u/new"))])), &s, &h).is_ok());
        assert_eq!(
            denial(authorize(&call("a", tool, object(&[("path", text("/home/x"))])), &s, &h)),
            "Path cannot be resolved"
        );
        assert_eq!(invalid(authorize(&call("a", tool, Value::Null), &s, &h)), "Missing path parameter");
    }
}

#[test]
fn without_safe_directories_no_file_tool_passes() {
    let h = host(&["/home/u/doc.txt", "/home/u"]);
    let s = state(ToolScope::LocalAI, &[], &[]);
    for tool in ["read_file", "write_file", "list_directory", "create_directory"] {
        assert_eq!(
            denial(authorize(&call("a", tool, object(&[("path", text("/home/u/doc.txt"))])), &s, &h)),
            "Path not within safe directories"
        );
    }
}

#[test]
fn tools_without_parameter_rules_pass_once_allowed() {
    let s = state(ToolScope::LocalAI, &[], &[]);
    for tool in [
        "open_tile", "close_tile", "reorganize_layout", "download_archive_org", "download_youtube",
        "list_downloads", "pause_download", "resume_download", "cancel_download",
    ] {
        assert!(authorize(&call("a", tool, Value::Null), &s, &nothing()).is_ok());
    }
}

#[test]
fn confirmation_tools_outside_the_allowed_list_stay_denied() {
    for tool in ["delete_file", "move_file", "rename_file", "kill_process", "run_command", "copy_file"] {
        for confirmed in [&[][..], &["a"][..]] {
            let s = state(ToolScope::LocalAI, &["/home/u"], confirmed);
            let c = call("a", tool, object(&[("path", text("/home/u/doc.txt"))]));
            assert_eq!(denial(authorize(&c, &s, &host(&["/home/u/doc.txt", "/home/u"]))), "Tool not allowed");
        }
    }
}

#[test]
fn launch_reads_role_and_platform_from_the_state() {
    let c = call("a", "launch_app", object(&[("app_id", text("Microsoft.Notepad"))]));
    let mut s = state(ToolScope::LocalAI, &[], &["a"]);
    assert_eq!(denial(authorize(&c, &s, &nothing())), "App not allowlisted");
    s.platform = Platform::Windows;
    assert!(authorize(&c, &s, &nothing()).is_ok());
    assert_eq!(s.current_tool_scope(), ToolScope::LocalAI);
    assert_eq!(s.current_user_role(), UserRole::Standard);
}

#[test]
fn authorizing_a_copy_of_a_call_gives_the_same_decision() {
    let s = state(ToolScope::LocalAI, &["/home/u"], &[]);
    let h = host(&["/home/u/doc.txt", "/home/u"]);
    let first = read_doc();
    let copy = first.clone();
    assert!(authorize(&first, &s, &h).is_ok());
    assert!(authorize(&copy, &s, &h).is_ok());
}

#[test]
fn paths_are_read_only_where_the_decision_turns_on_them() {
    let local = state(ToolScope::LocalAI, &["/home/u"], &[]);
    let cloud = state(ToolScope::CloudAI, &["/home/u"], &[]);
    let user = state(ToolScope::UserDirect, &["/home/u"], &[]);
    let path = object(&[("path", text("/home/u/doc.txt"))]);
    assert!(reads_paths(&read_doc(), &local));
    assert!(reads_paths(&read_doc(), &cloud));
    assert!(!reads_paths(&read_doc(), &user));
    assert!(reads_paths(&call("a", "write_file", path.clone()), &local));
    assert!(!reads_paths(&call("a", "write_file", path.clone()), &cloud));
    assert!(!reads_paths(&call("a", "delete_file", path.clone()), &local));
    assert!(!reads_paths(&call("a", "move_file", path.clone()), &local));
    assert!(!reads_paths(&call("a", "open_tile", path.clone()), &local));
    assert!(!reads_paths(&call("a", "launch_app", path.clone()), &local));
    assert!(!reads_paths(&call("a", "unknown", path), &local));
}

#[test]
fn decision_without_paths_is_the_same_whatever_the_host_reported() {
    let h = host(&["/home/u/doc.txt", "/home/u"]);
    let path = object(&[("path", text("/home/u/doc.txt"))]);
    let calls = [
        call("a", "write_file", path.clone()),
        call("a", "launch_app", object(&[("app_id", text("org.gnome.Terminal"))])),
        call("a", "open_tile", path.clone()),
        call("a", "run_command", path),
    ];
    for scope in SCOPES {
        let s = state(scope, &["/home/u"], &[]);
        for c in &calls {
            if !reads_paths(c, &s) {
                let with = authorize(c, &s, &h).map_err(|e| e.message());
                let without = authorize(c, &s, &nothing()).map_err(|e| e.message());
                assert_eq!(with, without);
            }
        }
    }
}

#[test]
fn local_file_call_with_two_paths_needs_both_safe() {
    let h = host(&["/home/u/a", "/srv/b", "/home/u"]);
    let s = state(ToolScope::LocalAI, &["/home/u"], &[]);
    let both = object(&[("path", text("/home/u/a")), ("destination", text("/srv/b"))]);
    assert_eq!(denial(authorize(&call("a", "write_file", both), &s, &h)), "Path not within safe directories");
    let safe = object(&[("path", text("/home/u/a")), ("destination", text("/home/u"))]);
    assert!(authorize(&call("a", "write_file", safe), &s, &h).is_ok());
}
