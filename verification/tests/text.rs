use serde_json::{Number, Value};
use tool_guard::params::{list_param, str_param, strings_of_list};
use tool_guard::state::ConfirmationRegistry;
use tool_guard::text::{chars_of, contains, contains_text, str_eq};
use tool_guard::types::{ToolCall, ToolError};

fn object(members: &[(&str, Value)]) -> Value {
    let mut map = serde_json::Map::new();
    for (key, value) in members {
        map.insert(key.to_string(), value.clone());
    }
    Value::Object(map)
}

fn text(s: &str) -> Value {
    Value::String(s.to_string())
}

#[test]
fn string_equality_is_by_characters() {
    assert!(str_eq("", ""));
    assert!(str_eq("read_file", "read_file"));
    assert!(!str_eq("read_file", "read_filE"));
    assert!(!str_eq("read_file", "read_fil"));
    assert!(!str_eq("read_file", "read_file "));
    assert!(str_eq("naïve ☃", "naïve ☃"));
    assert!(!str_eq("naïve", "naive"));
}

#[test]
fn characters_come_out_in_order() {
    assert_eq!(chars_of(""), Vec::<char>::new());
    assert_eq!(chars_of("a/ü☃"), vec!['a', '/', 'ü', '☃']);
}

#[test]
fn substring_search_finds_every_position() {
    assert!(contains("/etc/passwd", "/etc/"));
    assert!(contains("/home/u/etc/", "/etc/"));
    assert!(contains("x/bin/", "/bin/"));
    assert!(contains("/bin/", "/bin/"));
    assert!(!contains("/bin", "/bin/"));
    assert!(!contains("/etc", "/etc/"));
    assert!(!contains("", "/etc/"));
    assert!(contains("", ""));
    assert!(contains("abc", ""));
    assert!(contains("aab", "ab"));
    assert!(!contains("aba", "bb"));
    assert!(contains("päth/ü/x", "/ü/"));
    assert!(!contains("päth/u/x", "/ü/"));
}

#[test]
fn list_membership_is_by_characters() {
    let list = vec!["read_file".to_string(), "launch_app".to_string()];
    assert!(contains_text(&list, "launch_app"));
    assert!(contains_text(&list, "read_file"));
    assert!(!contains_text(&list, "launch"));
    assert!(!contains_text(&list, ""));
    assert!(!contains_text(&Vec::new(), "read_file"));
}

#[test]
fn string_parameter_is_read_from_objects_only() {
    let params = object(&[("app_id", text("org.gnome.Terminal")), ("pid", Value::Number(Number::from(4)))]);
    assert_eq!(str_param(&params, "app_id"), Some("org.gnome.Terminal"));
    assert_eq!(str_param(&params, "pid"), None);
    assert_eq!(str_param(&params, "missing"), None);
    assert_eq!(str_param(&params, "APP_ID"), None);
    assert_eq!(str_param(&text("app_id"), "app_id"), None);
    assert_eq!(str_param(&Value::Array(vec![text("app_id")]), "app_id"), None);
    assert_eq!(str_param(&Value::Null, "app_id"), None);
}

#[test]
fn array_parameter_is_read_from_objects_only() {
    let items = vec![text("-a"), Value::Bool(false)];
    let params = object(&[("args", Value::Array(items.clone())), ("command", text("uname"))]);
    assert_eq!(list_param(&params, "args"), Some(&items));
    assert_eq!(list_param(&params, "command"), None);
    assert_eq!(list_param(&params, "missing"), None);
    assert_eq!(list_param(&Value::Array(items), "args"), None);
}

#[test]
fn list_of_strings_reads_as_its_texts() {
    let items = vec![text("-L"), text(""), text("ü"), text("-o")];
    assert_eq!(strings_of_list(&items), Some(vec!["-L".to_string(), String::new(), "ü".to_string(), "-o".to_string()]));
    assert_eq!(strings_of_list(&Vec::new()), Some(Vec::new()));
}

#[test]
fn list_with_an_element_that_is_no_string_does_not_read() {
    let others = [
        Value::Null,
        Value::Bool(true),
        Value::Number(Number::from(42)),
        Value::Array(vec![text("x")]),
        object(&[("x", text("y"))]),
    ];
    for other in others {
        assert_eq!(strings_of_list(&vec![other.clone()]), None);
        assert_eq!(strings_of_list(&vec![text("a"), other.clone()]), None);
        assert_eq!(strings_of_list(&vec![other, text("a")]), None);
    }
}

#[test]
fn errors_render_with_their_kind() {
    assert_eq!(ToolError::Invalid("Missing args".to_string()).message(), "invalid: Missing args");
    assert_eq!(ToolError::Denied("Tool not allowed".to_string()).message(), "denied: Tool not allowed");
    assert_eq!(ToolError::NeedsConfirmation.message(), "needs confirmation");
    assert_eq!(ToolError::Denied(String::new()).message(), "denied: ");
}

#[test]
fn error_clone_keeps_kind_and_reason() {
    assert!(matches!(ToolError::Invalid("a".to_string()).clone(), ToolError::Invalid(reason) if reason == "a"));
    assert!(matches!(ToolError::Denied("b".to_string()).clone(), ToolError::Denied(reason) if reason == "b"));
    assert!(matches!(ToolError::NeedsConfirmation.clone(), ToolError::NeedsConfirmation));
}

#[test]
fn call_clone_keeps_every_field() {
    let call = ToolCall {
        id: "a".to_string(),
        tool_name: "read_file".to_string(),
        parameters: object(&[("path", text("/home/u/doc.txt"))]),
    };
    let copy = call.clone();
    assert_eq!(copy.id, "a");
    assert_eq!(copy.tool_name, "read_file");
    assert_eq!(copy.parameters, call.parameters);
}

#[test]
fn registry_confirms_by_identifier() {
    let mut registry = ConfirmationRegistry::new();
    assert!(!registry.is_confirmed("a"));
    registry.confirm("a");
    assert!(registry.is_confirmed("a"));
    assert!(!registry.is_confirmed("b"));
    assert!(!registry.is_confirmed("A"));
    assert!(!registry.is_confirmed(""));
    registry.confirm("b");
    registry.confirm("a");
    assert!(registry.is_confirmed("a"));
    assert!(registry.is_confirmed("b"));
}
