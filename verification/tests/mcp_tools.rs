use mcp_docker_sentinel::mcp::handlers::{plan_tool_call, response_text, ToolAction, ToolArgs, ToolError};
use mcp_docker_sentinel::mcp::tools::{
    get_tools_definition, input_schema_type, tool_definition, tool_kind, tool_name, ParamDefault, ParamKind, ToolKind,
};

fn s(x: &str) -> String {
    x.to_string()
}

fn with_id(id: &str) -> ToolArgs {
    ToolArgs { container_id: Some(s(id)), ..ToolArgs::default() }
}

const NAMES: [&str; 14] = [
    "list_containers",
    "get_logs",
    "inspect_container",
    "stop_container",
    "start_container",
    "restart_container",
    "remove_container",
    "list_images",
    "get_stats",
    "exec_command",
    "remove_image",
    "pull_image",
    "list_networks",
    "list_volumes",
];

#[test]
fn catalogue_lists_fourteen_tools_in_order() {
    let defs = get_tools_definition();
    assert_eq!(defs.len(), 14);
    for (d, n) in defs.iter().zip(NAMES.iter()) {
        assert_eq!(d.name, *n);
    }
}

#[test]
fn catalogue_entries_match_their_schemas() {
    let defs = get_tools_definition();
    let logs = &defs[1];
    assert_eq!(
        logs.description,
        "Retrieves the last lines of a container's logs. Useful for diagnosing errors or crashes."
    );
    assert_eq!(logs.required, vec![s("container_id")]);
    assert_eq!(logs.params.len(), 2);
    assert_eq!(logs.params[1].name, "tail");
    assert_eq!(logs.params[1].kind, ParamKind::Integer);
    assert_eq!(logs.params[1].default, Some(ParamDefault::Integer(50)));

    let exec = &defs[9];
    assert_eq!(exec.required, vec![s("container_id"), s("command")]);
    assert_eq!(exec.params[1].kind, ParamKind::StrArray);
    assert_eq!(
        exec.params[1].description.as_deref(),
        Some("The command to execute as an array (e.g. [\"ls\", \"-la\"])")
    );

    let stop = &defs[3];
    assert_eq!(stop.description, "Stops a container.");
    assert_eq!(stop.params.len(), 1);
    assert_eq!(stop.params[0].name, "container_id");
    assert_eq!(stop.params[0].description, None);
    assert_eq!(stop.params[0].default, None);

    let remove_image = &defs[10];
    assert_eq!(remove_image.params[1].default, Some(ParamDefault::Boolean(false)));
    assert!(defs[0].params.is_empty());
    assert!(defs[0].required.is_empty());
    assert_eq!(defs[13].description, "Lists Docker volumes with their name, driver and mountpoint.");
}

#[test]
fn tool_names_round_trip() {
    for n in NAMES.iter() {
        let k = tool_kind(n).unwrap();
        assert_eq!(tool_name(k), *n);
        assert_eq!(tool_definition(k).name, *n);
    }
    assert_eq!(tool_kind("list_container"), None);
    assert_eq!(tool_kind(""), None);
    assert_eq!(tool_kind("LIST_CONTAINERS"), None);
    assert_eq!(tool_kind("pull_image"), Some(ToolKind::PullImage));
}

#[test]
fn advertised_tools_are_all_handled() {
    let full = ToolArgs {
        container_id: Some(s("web")),
        tail: None,
        force: None,
        image_id: Some(s("nginx")),
        image: Some(s("nginx:latest")),
        command: Some(vec![Some(s("ls"))]),
    };
    for d in get_tools_definition() {
        assert!(plan_tool_call(&d.name, &full).is_ok(), "{}", d.name);
        assert_ne!(plan_tool_call(&d.name, &ToolArgs::default()), Err(ToolError::ToolNotFound));
    }
}

#[test]
fn required_arguments_decide_acceptance() {
    for d in get_tools_definition() {
        let r = plan_tool_call(&d.name, &ToolArgs::default());
        assert_eq!(r.is_ok(), d.required.is_empty(), "{}", d.name);
    }
}

#[test]
fn unknown_tool_is_refused() {
    assert_eq!(plan_tool_call("delete_everything", &with_id("x")), Err(ToolError::ToolNotFound));
    assert_eq!(ToolError::ToolNotFound.message(), "Tool not found");
}

#[test]
fn get_logs_defaults_tail_to_fifty() {
    assert_eq!(
        plan_tool_call("get_logs", &with_id("my-db")),
        Ok(ToolAction::GetLogs { container_id: s("my-db"), tail: 50 })
    );
    let args = ToolArgs { tail: Some(5), ..with_id("my-db") };
    assert_eq!(
        plan_tool_call("get_logs", &args),
        Ok(ToolAction::GetLogs { container_id: s("my-db"), tail: 5 })
    );
    assert_eq!(plan_tool_call("get_logs", &ToolArgs::default()), Err(ToolError::MissingId));
}

#[test]
fn container_tools_need_an_id() {
    for n in ["get_logs", "inspect_container", "stop_container", "start_container", "restart_container", "remove_container", "get_stats", "exec_command"] {
        assert_eq!(plan_tool_call(n, &ToolArgs::default()), Err(ToolError::MissingId), "{}", n);
    }
    assert_eq!(ToolError::MissingId.message(), "Missing ID");
}

#[test]
fn stop_and_restart_wait_ten_seconds() {
    assert_eq!(
        plan_tool_call("stop_container", &with_id("web")),
        Ok(ToolAction::StopContainer { container_id: s("web"), timeout_seconds: 10 })
    );
    assert_eq!(
        plan_tool_call("restart_container", &with_id("web")),
        Ok(ToolAction::RestartContainer { container_id: s("web"), timeout_seconds: 10 })
    );
    assert_eq!(
        plan_tool_call("start_container", &with_id("web")),
        Ok(ToolAction::StartContainer { container_id: s("web") })
    );
    assert_eq!(
        plan_tool_call("inspect_container", &with_id("web")),
        Ok(ToolAction::InspectContainer { container_id: s("web") })
    );
    assert_eq!(
        plan_tool_call("get_stats", &with_id("web")),
        Ok(ToolAction::GetStats { container_id: s("web") })
    );
}

#[test]
fn remove_tools_default_force_to_false() {
    assert_eq!(
        plan_tool_call("remove_container", &with_id("web")),
        Ok(ToolAction::RemoveContainer { container_id: s("web"), force: false })
    );
    let forced = ToolArgs { force: Some(true), ..with_id("web") };
    assert_eq!(
        plan_tool_call("remove_container", &forced),
        Ok(ToolAction::RemoveContainer { container_id: s("web"), force: true })
    );
    let img = ToolArgs { image_id: Some(s("alpine")), ..ToolArgs::default() };
    assert_eq!(
        plan_tool_call("remove_image", &img),
        Ok(ToolAction::RemoveImage { image_id: s("alpine"), force: false })
    );
    let img = ToolArgs { image_id: Some(s("alpine")), force: Some(true), ..ToolArgs::default() };
    assert_eq!(
        plan_tool_call("remove_image", &img),
        Ok(ToolAction::RemoveImage { image_id: s("alpine"), force: true })
    );
    assert_eq!(plan_tool_call("remove_image", &with_id("alpine")), Err(ToolError::MissingImageId));
    assert_eq!(ToolError::MissingImageId.message(), "Missing image ID");
}

#[test]
fn pull_image_needs_an_image_name() {
    let args = ToolArgs { image: Some(s("postgres:16")), ..ToolArgs::default() };
    assert_eq!(
        plan_tool_call("pull_image", &args),
        Ok(ToolAction::PullImage { image: s("postgres:16") })
    );
    assert_eq!(plan_tool_call("pull_image", &ToolArgs::default()), Err(ToolError::MissingImageName));
    assert_eq!(ToolError::MissingImageName.message(), "Missing image name");
}

#[test]
fn exec_command_keeps_string_elements() {
    let args = ToolArgs {
        command: Some(vec![Some(s("ls")), None, Some(s("-la")), None]),
        ..with_id("web")
    };
    assert_eq!(
        plan_tool_call("exec_command", &args),
        Ok(ToolAction::ExecCommand { container_id: s("web"), command: vec![s("ls"), s("-la")] })
    );
    let empty = ToolArgs { command: Some(vec![]), ..with_id("web") };
    assert_eq!(
        plan_tool_call("exec_command", &empty),
        Ok(ToolAction::ExecCommand { container_id: s("web"), command: vec![] })
    );
    assert_eq!(plan_tool_call("exec_command", &with_id("web")), Err(ToolError::MissingCommand));
    let no_id = ToolArgs { command: Some(vec![Some(s("ls"))]), ..ToolArgs::default() };
    assert_eq!(plan_tool_call("exec_command", &no_id), Err(ToolError::MissingId));
    assert_eq!(
        ToolError::MissingCommand.message(),
        "Missing command (expected array of strings)"
    );
}

#[test]
fn listing_tools_take_no_arguments() {
    assert_eq!(plan_tool_call("list_containers", &ToolArgs::default()), Ok(ToolAction::ListContainers { all: true }));
    assert_eq!(plan_tool_call("list_images", &ToolArgs::default()), Ok(ToolAction::ListImages { all: false }));
    assert_eq!(plan_tool_call("list_networks", &ToolArgs::default()), Ok(ToolAction::ListNetworks));
    assert_eq!(plan_tool_call("list_volumes", &ToolArgs::default()), Ok(ToolAction::ListVolumes));
}

#[test]
fn confirmations_name_the_target() {
    let stop = ToolAction::StopContainer { container_id: s("web"), timeout_seconds: 10 };
    assert_eq!(response_text(&stop, s("")), "Container web has been stopped successfully.");
    let start = ToolAction::StartContainer { container_id: s("web") };
    assert_eq!(response_text(&start, s("ignored")), "Container web has been started successfully.");
    let restart = ToolAction::RestartContainer { container_id: s("db"), timeout_seconds: 10 };
    assert_eq!(response_text(&restart, s("")), "Container db has been restarted successfully.");
    let remove = ToolAction::RemoveContainer { container_id: s("db"), force: true };
    assert_eq!(response_text(&remove, s("")), "Container db has been removed.");
    let remove_image = ToolAction::RemoveImage { image_id: s("alpine"), force: false };
    assert_eq!(response_text(&remove_image, s("")), "Image alpine has been removed.");
}

#[test]
fn data_tools_reply_with_the_output() {
    let logs = ToolAction::GetLogs { container_id: s("web"), tail: 50 };
    assert_eq!(response_text(&logs, s("line\n")), "line\n");
    assert_eq!(response_text(&ToolAction::ListContainers { all: true }, s("[]")), "[]");
    let pull = ToolAction::PullImage { image: s("nginx") };
    assert_eq!(response_text(&pull, s("Done\n")), "Done\n");
}

#[test]
fn parameter_kinds_name_their_json_types() {
    assert_eq!(ParamKind::Str.json_type(), "string");
    assert_eq!(ParamKind::Integer.json_type(), "integer");
    assert_eq!(ParamKind::Boolean.json_type(), "boolean");
    assert_eq!(ParamKind::StrArray.json_type(), "array");
    assert_eq!(ParamKind::StrArray.item_type(), Some("string"));
    assert_eq!(ParamKind::Str.item_type(), None);
    assert_eq!(ParamKind::Integer.item_type(), None);
}

#[test]
fn input_schemas_are_objects() {
    assert_eq!(input_schema_type(), "object");
}
