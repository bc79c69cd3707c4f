use repo_mcp::args::{arg_bool, arg_str, arg_str_array, arg_str_opt, arg_u32, get, ArgValue};
use repo_mcp::rpc::{
    method_not_found_message, plan_sessions, request_method, route_method, tool_request, RpcRoute,
    METHOD_NOT_FOUND,
};
use repo_mcp::tools::{dispatch, tool_list, ParamKind, ToolCall};

fn s(v: &str) -> ArgValue {
    ArgValue::Str(v.to_string())
}

fn obj(members: Vec<(&str, ArgValue)>) -> ArgValue {
    ArgValue::Object(members.into_iter().map(|(k, v)| (k.to_string(), v)).collect())
}

#[test]
fn string_arguments() {
    let args = obj(vec![("path", s("a.txt")), ("n", ArgValue::UInt(3))]);
    assert_eq!(arg_str(&args, "path"), Ok("a.txt"));
    assert_eq!(
        arg_str(&args, "n"),
        Err("missing required string argument: n".to_string())
    );
    assert_eq!(
        arg_str(&args, "content"),
        Err("missing required string argument: content".to_string())
    );
    assert_eq!(arg_str_opt(&args, "path"), Some("a.txt"));
    assert_eq!(arg_str_opt(&args, "n"), None);
    assert_eq!(
        arg_str(&ArgValue::Null, "path"),
        Err("missing required string argument: path".to_string())
    );
}

#[test]
fn first_member_of_a_name_counts() {
    let args = obj(vec![("path", s("first")), ("path", s("second"))]);
    assert_eq!(arg_str(&args, "path"), Ok("first"));
    assert!(get(&args, "other").is_none());
}

#[test]
fn boolean_and_integer_arguments() {
    let args = obj(vec![
        ("create", ArgValue::Bool(true)),
        ("staged", s("true")),
        ("limit", ArgValue::UInt(5)),
        ("big", ArgValue::UInt((1u64 << 32) + 7)),
        ("neg", ArgValue::OtherNumber),
    ]);
    assert!(arg_bool(&args, "create", false));
    assert!(!arg_bool(&args, "staged", false));
    assert!(arg_bool(&args, "missing", true));
    assert_eq!(arg_u32(&args, "limit", 20), 5);
    assert_eq!(arg_u32(&args, "big", 20), 7);
    assert_eq!(arg_u32(&args, "neg", 20), 20);
    assert_eq!(arg_u32(&args, "missing", 20), 20);
}

#[test]
fn string_array_arguments() {
    let args = obj(vec![
        (
            "files",
            ArgValue::Array(vec![s("a"), ArgValue::UInt(1), s("b"), ArgValue::Null]),
        ),
        ("one", s("a")),
    ]);
    assert_eq!(arg_str_array(&args, "files"), vec!["a".to_string(), "b".to_string()]);
    assert!(arg_str_array(&args, "one").is_empty());
    assert!(arg_str_array(&args, "none").is_empty());
}

#[test]
fn dispatch_reads_each_tool() {
    match dispatch("fs_write_file", &obj(vec![("path", s("p")), ("content", s("c"))]), false) {
        Ok(ToolCall::FsWriteFile { path, content }) => {
            assert_eq!(path, "p");
            assert_eq!(content, "c");
        }
        _ => panic!("wrong call"),
    }
    match dispatch(
        "git_clone",
        &obj(vec![("url", s("https://h/r.git")), ("destination", s("r"))]),
        false,
    ) {
        Ok(ToolCall::GitClone { url, destination, branch }) => {
            assert_eq!(url, "https://h/r.git");
            assert_eq!(destination, "r");
            assert_eq!(branch, None);
        }
        _ => panic!("wrong call"),
    }
    match dispatch("git_log", &obj(vec![("repo_path", s("r"))]), false) {
        Ok(ToolCall::GitLog { repo_path, limit }) => {
            assert_eq!(repo_path, "r");
            assert_eq!(limit, 20);
        }
        _ => panic!("wrong call"),
    }
    match dispatch(
        "git_checkout",
        &obj(vec![("repo_path", s("r")), ("branch", s("b")), ("create", ArgValue::Bool(true))]),
        false,
    ) {
        Ok(ToolCall::GitCheckout { repo_path, branch, create }) => {
            assert_eq!(repo_path, "r");
            assert_eq!(branch, "b");
            assert!(create);
        }
        _ => panic!("wrong call"),
    }
    match dispatch("git_add", &obj(vec![("repo_path", s("r"))]), false) {
        Ok(ToolCall::GitAdd { files, .. }) => assert!(files.is_empty()),
        _ => panic!("wrong call"),
    }
}

#[test]
fn dispatch_reports_the_first_missing_argument() {
    match dispatch("fs_move_path", &obj(vec![]), false) {
        Err(e) => assert_eq!(e, "missing required string argument: source"),
        _ => panic!("expected an error"),
    }
    match dispatch("fs_move_path", &obj(vec![("source", s("a"))]), false) {
        Err(e) => assert_eq!(e, "missing required string argument: destination"),
        _ => panic!("expected an error"),
    }
}

#[test]
fn dispatch_refuses_unknown_tools() {
    for name in ["fs_edit", "exec_command", "", "GIT_LOG"] {
        match dispatch(name, &obj(vec![("repo_path", s("r"))]), false) {
            Err(e) => assert_eq!(e, format!("unknown tool: {name}")),
            Ok(_) => panic!("{name} should be unknown"),
        }
    }
}

#[test]
fn listed_tools_are_the_dispatched_ones() {
    assert_eq!(tool_list(false).len(), 19);
    let list = tool_list(true);
    assert_eq!(list.len(), 20);
    assert_eq!(list[19].name, "exec_command");
    for tool in &list {
        let members: Vec<(&str, ArgValue)> =
            tool.required.iter().map(|k| (k.as_str(), s("x"))).collect();
        assert!(dispatch(&tool.name, &obj(members), true).is_ok(), "{}", tool.name);
        if !tool.required.is_empty() {
            match dispatch(&tool.name, &obj(vec![]), true) {
                Err(e) => assert_eq!(
                    e,
                    format!("missing required string argument: {}", tool.required[0])
                ),
                Ok(_) => panic!("{} needs arguments", tool.name),
            }
        }
        for r in &tool.required {
            assert!(tool.params.iter().any(|p| &p.name == r && p.kind == ParamKind::Text));
        }
    }
    let git_log = list.iter().find(|t| t.name == "git_log").unwrap();
    assert_eq!(git_log.description, "Show recent commit history.");
    assert_eq!(git_log.params[1].kind, ParamKind::Integer);
    assert_eq!(
        git_log.params[1].description.as_deref(),
        Some("Number of commits to show. Defaults to 20.")
    );
}

#[test]
fn routes_of_methods() {
    assert_eq!(route_method("initialize"), RpcRoute::Initialize);
    assert_eq!(route_method("notifications/initialized"), RpcRoute::Initialized);
    assert_eq!(route_method("ping"), RpcRoute::Ping);
    assert_eq!(route_method("tools/list"), RpcRoute::ToolsList);
    assert_eq!(route_method("tools/call"), RpcRoute::ToolsCall);
    assert_eq!(route_method("tools/other"), RpcRoute::NotFound);
    assert_eq!(route_method(""), RpcRoute::NotFound);
    assert_eq!(method_not_found_message("x/y"), "method not found: x/y");
    assert_eq!(METHOD_NOT_FOUND, -32601);
}

#[test]
fn method_of_a_request() {
    assert_eq!(request_method(&obj(vec![("method", s("ping"))])), "ping");
    assert_eq!(request_method(&obj(vec![("method", ArgValue::UInt(1))])), "");
    assert_eq!(request_method(&ArgValue::Null), "");
}

#[test]
fn tool_call_of_a_request() {
    let body = obj(vec![(
        "params",
        obj(vec![("name", s("git_status")), ("arguments", obj(vec![("repo_path", s("r"))]))]),
    )]);
    match tool_request(&body, false) {
        Ok(ToolCall::GitStatus { repo_path }) => assert_eq!(repo_path, "r"),
        _ => panic!("wrong call"),
    }
    let no_args = obj(vec![("params", obj(vec![("name", s("git_status"))]))]);
    match tool_request(&no_args, false) {
        Err(e) => assert_eq!(e, "missing required string argument: repo_path"),
        _ => panic!("expected an error"),
    }
    match tool_request(&obj(vec![]), false) {
        Err(e) => assert_eq!(e, "unknown tool: "),
        _ => panic!("expected an error"),
    }
}

#[test]
fn initialize_opens_a_fresh_session() {
    let plan = plan_sessions(RpcRoute::Initialize, Some("old"), "new-id");
    assert_eq!(plan.register.as_deref(), Some("new-id"));
    assert_eq!(plan.reply.as_deref(), Some("new-id"));
    let plan = plan_sessions(RpcRoute::Initialize, None, "other");
    assert_eq!(plan.register.as_deref(), Some("other"));
    assert_eq!(plan.reply.as_deref(), Some("other"));
}

#[test]
fn other_requests_keep_the_incoming_session() {
    let plan = plan_sessions(RpcRoute::Ping, Some("abc"), "");
    assert_eq!(plan.register.as_deref(), Some("abc"));
    assert_eq!(plan.reply.as_deref(), Some("abc"));
    let plan = plan_sessions(RpcRoute::Initialized, Some("abc"), "");
    assert_eq!(plan.register.as_deref(), Some("abc"));
    assert_eq!(plan.reply, None);
    let plan = plan_sessions(RpcRoute::ToolsCall, None, "");
    assert_eq!(plan.register, None);
    assert_eq!(plan.reply, None);
}

#[test]
fn shell_tool_only_when_enabled() {
    let args = obj(vec![
        ("repo_path", s("r")),
        ("command", s("make test")),
        ("timeout_secs", ArgValue::UInt(30)),
    ]);
    match dispatch("exec_command", &args, false) {
        Err(e) => assert_eq!(e, "unknown tool: exec_command"),
        Ok(_) => panic!("the shell tool is off"),
    }
    match dispatch("exec_command", &args, true) {
        Ok(ToolCall::ExecCommand { repo_path, command, timeout_secs }) => {
            assert_eq!(repo_path, "r");
            assert_eq!(command, "make test");
            assert_eq!(timeout_secs, Some(30));
        }
        _ => panic!("wrong call"),
    }
    match dispatch("exec_command", &obj(vec![("repo_path", s("r")), ("command", s("ls"))]), true) {
        Ok(ToolCall::ExecCommand { timeout_secs, .. }) => assert_eq!(timeout_secs, None),
        _ => panic!("wrong call"),
    }
    match dispatch("exec_command", &obj(vec![("repo_path", s("r"))]), true) {
        Err(e) => assert_eq!(e, "missing required string argument: command"),
        Ok(_) => panic!("expected an error"),
    }
    assert!(!tool_list(false).iter().any(|t| t.name == "exec_command"));
}

#[test]
fn edit_and_content_search_tools() {
    match dispatch(
        "fs_edit_file",
        &obj(vec![("path", s("f")), ("old_str", s("a")), ("new_str", s("b"))]),
        false,
    ) {
        Ok(ToolCall::FsEditFile { path, old_str, new_str }) => {
            assert_eq!((path.as_str(), old_str.as_str(), new_str.as_str()), ("f", "a", "b"));
        }
        _ => panic!("wrong call"),
    }
    match dispatch("fs_grep_content", &obj(vec![("path", s("d")), ("pattern", s("x"))]), false) {
        Ok(ToolCall::FsGrepContent { path, pattern }) => {
            assert_eq!((path.as_str(), pattern.as_str()), ("d", "x"));
        }
        _ => panic!("wrong call"),
    }
}
