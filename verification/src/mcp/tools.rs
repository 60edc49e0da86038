//! The catalogue of tools that the server advertises.

use vstd::prelude::*;
use vstd::string::*;

use crate::text::str_eq;

verus! {

/// The tools that the server offers.
#[derive(PartialEq, Eq, Structural, Clone, Copy, Debug)]
pub enum ToolKind {
    ListContainers,
    GetLogs,
    InspectContainer,
    StopContainer,
    StartContainer,
    RestartContainer,
    RemoveContainer,
    ListImages,
    GetStats,
    ExecCommand,
    RemoveImage,
    PullImage,
    ListNetworks,
    ListVolumes,
}

/// How many tools the server offers.
pub open spec fn tool_count() -> nat {
    14
}

/// The tools in the order in which the catalogue lists them.
pub open spec fn tool_order() -> Seq<ToolKind> {
    seq![
        ToolKind::ListContainers,
        ToolKind::GetLogs,
        ToolKind::InspectContainer,
        ToolKind::StopContainer,
        ToolKind::StartContainer,
        ToolKind::RestartContainer,
        ToolKind::RemoveContainer,
        ToolKind::ListImages,
        ToolKind::GetStats,
        ToolKind::ExecCommand,
        ToolKind::RemoveImage,
        ToolKind::PullImage,
        ToolKind::ListNetworks,
        ToolKind::ListVolumes,
    ]
}

/// The name under which a tool is advertised and called.
pub open spec fn kind_name(k: ToolKind) -> Seq<char> {
    match k {
        ToolKind::ListContainers => "list_containers"@,
        ToolKind::GetLogs => "get_logs"@,
        ToolKind::InspectContainer => "inspect_container"@,
        ToolKind::StopContainer => "stop_container"@,
        ToolKind::StartContainer => "start_container"@,
        ToolKind::RestartContainer => "restart_container"@,
        ToolKind::RemoveContainer => "remove_container"@,
        ToolKind::ListImages => "list_images"@,
        ToolKind::GetStats => "get_stats"@,
        ToolKind::ExecCommand => "exec_command"@,
        ToolKind::RemoveImage => "remove_image"@,
        ToolKind::PullImage => "pull_image"@,
        ToolKind::ListNetworks => "list_networks"@,
        ToolKind::ListVolumes => "list_volumes"@,
    }
}

/// The tool called by a name, if any.
pub open spec fn tool_kind_of(name: Seq<char>) -> Option<ToolKind> {
    if name == "list_containers"@ {
        Some(ToolKind::ListContainers)
    } else if name == "get_logs"@ {
        Some(ToolKind::GetLogs)
    } else if name == "inspect_container"@ {
        Some(ToolKind::InspectContainer)
    } else if name == "stop_container"@ {
        Some(ToolKind::StopContainer)
    } else if name == "start_container"@ {
        Some(ToolKind::StartContainer)
    } else if name == "restart_container"@ {
        Some(ToolKind::RestartContainer)
    } else if name == "remove_container"@ {
        Some(ToolKind::RemoveContainer)
    } else if name == "list_images"@ {
        Some(ToolKind::ListImages)
    } else if name == "get_stats"@ {
        Some(ToolKind::GetStats)
    } else if name == "exec_command"@ {
        Some(ToolKind::ExecCommand)
    } else if name == "remove_image"@ {
        Some(ToolKind::RemoveImage)
    } else if name == "pull_image"@ {
        Some(ToolKind::PullImage)
    } else if name == "list_networks"@ {
        Some(ToolKind::ListNetworks)
    } else if name == "list_volumes"@ {
        Some(ToolKind::ListVolumes)
    } else {
        None
    }
}

/// Finds the tool called by a name.
pub fn tool_kind(name: &str) -> (res: Option<ToolKind>)
    ensures
        res == tool_kind_of(name@),
{
    if str_eq(name, "list_containers") {
        Some(ToolKind::ListContainers)
    } else if str_eq(name, "get_logs") {
        Some(ToolKind::GetLogs)
    } else if str_eq(name, "inspect_container") {
        Some(ToolKind::InspectContainer)
    } else if str_eq(name, "stop_container") {
        Some(ToolKind::StopContainer)
    } else if str_eq(name, "start_container") {
        Some(ToolKind::StartContainer)
    } else if str_eq(name, "restart_container") {
        Some(ToolKind::RestartContainer)
    } else if str_eq(name, "remove_container") {
        Some(ToolKind::RemoveContainer)
    } else if str_eq(name, "list_images") {
        Some(ToolKind::ListImages)
    } else if str_eq(name, "get_stats") {
        Some(ToolKind::GetStats)
    } else if str_eq(name, "exec_command") {
        Some(ToolKind::ExecCommand)
    } else if str_eq(name, "remove_image") {
        Some(ToolKind::RemoveImage)
    } else if str_eq(name, "pull_image") {
        Some(ToolKind::PullImage)
    } else if str_eq(name, "list_networks") {
        Some(ToolKind::ListNetworks)
    } else if str_eq(name, "list_volumes") {
        Some(ToolKind::ListVolumes)
    } else {
        None
    }
}

/// Each tool is found again under its own name.
pub proof fn lemma_kind_name_roundtrip(k: ToolKind)
    ensures
        tool_kind_of(kind_name(k)) == Some(k),
{
    reveal_strlit("list_containers");
    assert("list_containers"@.len() == 15 && "list_containers"@[0] == 'l');
    reveal_strlit("get_logs");
    assert("get_logs"@.len() == 8 && "get_logs"@[0] == 'g');
    reveal_strlit("inspect_container");
    assert("inspect_container"@.len() == 17 && "inspect_container"@[0] == 'i');
    reveal_strlit("stop_container");
    assert("stop_container"@.len() == 14 && "stop_container"@[0] == 's');
    reveal_strlit("start_container");
    assert("start_container"@.len() == 15 && "start_container"@[0] == 's');
    reveal_strlit("restart_container");
    assert("restart_container"@.len() == 17 && "restart_container"@[0] == 'r');
    reveal_strlit("remove_container");
    assert("remove_container"@.len() == 16 && "remove_container"@[0] == 'r');
    reveal_strlit("list_images");
    assert("list_images"@.len() == 11 && "list_images"@[0] == 'l');
    reveal_strlit("get_stats");
    assert("get_stats"@.len() == 9 && "get_stats"@[0] == 'g');
    reveal_strlit("exec_command");
    assert("exec_command"@.len() == 12 && "exec_command"@[0] == 'e');
    reveal_strlit("remove_image");
    assert("remove_image"@.len() == 12 && "remove_image"@[0] == 'r');
    reveal_strlit("pull_image");
    assert("pull_image"@.len() == 10 && "pull_image"@[0] == 'p');
    reveal_strlit("list_networks");
    assert("list_networks"@.len() == 13 && "list_networks"@[0] == 'l');
    reveal_strlit("list_volumes");
    assert("list_volumes"@.len() == 12 && "list_volumes"@[0] == 'l');
}

/// The JSON type of a tool parameter.
#[derive(PartialEq, Eq, Structural, Clone, Copy, Debug)]
pub enum ParamKind {
    Str,
    Integer,
    Boolean,
    StrArray,
}

/// The name of a parameter's JSON type in an input schema.
pub open spec fn json_type_name(k: ParamKind) -> Seq<char> {
    match k {
        ParamKind::Str => "string"@,
        ParamKind::Integer => "integer"@,
        ParamKind::Boolean => "boolean"@,
        ParamKind::StrArray => "array"@,
    }
}

impl ParamKind {
    /// The name of the parameter's JSON type in an input schema.
    pub fn json_type(&self) -> (res: &'static str)
        ensures
            res@ == json_type_name(*self),
    {
        match self {
            ParamKind::Str => "string",
            ParamKind::Integer => "integer",
            ParamKind::Boolean => "boolean",
            ParamKind::StrArray => "array",
        }
    }

    /// The JSON type of the items, for an array parameter: strings.
    pub fn item_type(&self) -> (res: Option<&'static str>)
        ensures
            match res {
                Some(t) => *self == ParamKind::StrArray && t@ == "string"@,
                None => *self != ParamKind::StrArray,
            },
    {
        match self {
            ParamKind::StrArray => Some("string"),
            _ => None,
        }
    }
}

/// The default that a tool uses where a parameter is left out.
#[derive(PartialEq, Eq, Structural, Clone, Copy, Debug)]
pub enum ParamDefault {
    Integer(u64),
    Boolean(bool),
}

/// One parameter in a tool's input schema.
#[derive(Debug, Clone, PartialEq, Eq)]
pub struct ToolParam {
    pub name: String,
    pub kind: ParamKind,
    pub description: Option<String>,
    pub default: Option<ParamDefault>,
}

/// One entry of the tool catalogue: the tool's name, what it does, and its
/// input schema, an object with `params` as properties and `required` listing
/// those that a call must give.
#[derive(Debug, Clone, PartialEq, Eq)]
pub struct ToolDefinition {
    pub name: String,
    pub description: String,
    pub params: Vec<ToolParam>,
    pub required: Vec<String>,
}

/// The mathematical value of a [`ToolParam`].
pub struct ToolParamView {
    pub name: Seq<char>,
    pub kind: ParamKind,
    pub description: Option<Seq<char>>,
    pub default: Option<ParamDefault>,
}

/// The mathematical value of a [`ToolDefinition`].
pub struct ToolDefinitionView {
    pub name: Seq<char>,
    pub description: Seq<char>,
    pub params: Seq<ToolParamView>,
    pub required: Seq<Seq<char>>,
}

impl View for ToolParam {
    type V = ToolParamView;

    open spec fn view(&self) -> ToolParamView {
        ToolParamView {
            name: self.name@,
            kind: self.kind,
            description: self.description.deep_view(),
            default: self.default,
        }
    }
}

impl View for ToolDefinition {
    type V = ToolDefinitionView;

    open spec fn view(&self) -> ToolDefinitionView {
        ToolDefinitionView {
            name: self.name@,
            description: self.description@,
            params: self.params@.map_values(|p: ToolParam| p@),
            required: self.required.deep_view(),
        }
    }
}

/// A parameter without description or default.
pub open spec fn plain_param(name: Seq<char>, kind: ParamKind) -> ToolParamView {
    ToolParamView { name, kind, description: None, default: None }
}

/// A described parameter without default.
pub open spec fn described_param(name: Seq<char>, kind: ParamKind, description: Seq<char>) -> ToolParamView {
    ToolParamView { name, kind, description: Some(description), default: None }
}

/// A described parameter with a default.
pub open spec fn defaulted_param(
    name: Seq<char>,
    kind: ParamKind,
    description: Seq<char>,
    default: ParamDefault,
) -> ToolParamView {
    ToolParamView { name, kind, description: Some(description), default: Some(default) }
}

/// The lone parameter of the tools that act on one container named by its id.
pub open spec fn container_id_param() -> ToolParamView {
    plain_param("container_id"@, ParamKind::Str)
}

/// A tool without parameters.
pub open spec fn no_param_tool(k: ToolKind, description: Seq<char>) -> ToolDefinitionView {
    ToolDefinitionView { name: kind_name(k), description, params: seq![], required: seq![] }
}

/// A tool whose one, required, parameter is `container_id`.
pub open spec fn container_tool(k: ToolKind, description: Seq<char>) -> ToolDefinitionView {
    ToolDefinitionView {
        name: kind_name(k),
        description,
        params: seq![container_id_param()],
        required: seq!["container_id"@],
    }
}

/// The catalogue entry of each tool.
pub open spec fn spec_tool_def(k: ToolKind) -> ToolDefinitionView {
    match k {
        ToolKind::ListContainers => no_param_tool(
            k,
            "Lists all local Docker containers. Returns their name, image, ID and status (running, exited, etc.)."@,
        ),
        ToolKind::GetLogs => ToolDefinitionView {
            name: kind_name(k),
            description: "Retrieves the last lines of a container's logs. Useful for diagnosing errors or crashes."@,
            params: seq![
                described_param(
                    "container_id"@,
                    ParamKind::Str,
                    "The name or short ID of the container (e.g. 'my-db')"@,
                ),
                defaulted_param(
                    "tail"@,
                    ParamKind::Integer,
                    "Number of lines to retrieve from the end."@,
                    ParamDefault::Integer(50),
                ),
            ],
            required: seq!["container_id"@],
        },
        ToolKind::InspectContainer => container_tool(
            k,
            "Returns full technical details of a container (Network, Volumes, Environment variables)."@,
        ),
        ToolKind::StopContainer => container_tool(k, "Stops a container."@),
        ToolKind::StartContainer => container_tool(k, "Starts a container."@),
        ToolKind::RestartContainer => container_tool(k, "Restarts a container (running or stopped)."@),
        ToolKind::RemoveContainer => ToolDefinitionView {
            name: kind_name(k),
            description: "Removes a container. Use force=true to force removal even if the container is running."@,
            params: seq![
                container_id_param(),
                defaulted_param(
                    "force"@,
                    ParamKind::Boolean,
                    "Force removal even if the container is running (default: false)."@,
                    ParamDefault::Boolean(false),
                ),
            ],
            required: seq!["container_id"@],
        },
        ToolKind::ListImages => no_param_tool(
            k,
            "Lists all local Docker images with their ID, tags and size."@,
        ),
        ToolKind::GetStats => ToolDefinitionView {
            name: kind_name(k),
            description: "Shows real-time statistics for a container: CPU, memory, network."@,
            params: seq![
                described_param("container_id"@, ParamKind::Str, "The name or ID of the container"@),
            ],
            required: seq!["container_id"@],
        },
        ToolKind::ExecCommand => ToolDefinitionView {
            name: kind_name(k),
            description: "Executes a command inside a running container (equivalent to docker exec)."@,
            params: seq![
                described_param("container_id"@, ParamKind::Str, "The name or ID of the container"@),
                described_param(
                    "command"@,
                    ParamKind::StrArray,
                    "The command to execute as an array (e.g. [\"ls\", \"-la\"])"@,
                ),
            ],
            required: seq!["container_id"@, "command"@],
        },
        ToolKind::RemoveImage => ToolDefinitionView {
            name: kind_name(k),
            description: "Removes a local Docker image."@,
            params: seq![
                described_param("image_id"@, ParamKind::Str, "The name or ID of the image to remove"@),
                defaulted_param(
                    "force"@,
                    ParamKind::Boolean,
                    "Force removal even if the image is in use (default: false)."@,
                    ParamDefault::Boolean(false),
                ),
            ],
            required: seq!["image_id"@],
        },
        ToolKind::PullImage => ToolDefinitionView {
            name: kind_name(k),
            description: "Downloads an image from a Docker registry (e.g. docker pull)."@,
            params: seq![
                described_param(
                    "image"@,
                    ParamKind::Str,
                    "The name of the image to download (e.g. 'nginx:latest', 'postgres:16')"@,
                ),
            ],
            required: seq!["image"@],
        },
        ToolKind::ListNetworks => no_param_tool(
            k,
            "Lists Docker networks and the containers connected to them."@,
        ),
        ToolKind::ListVolumes => no_param_tool(
            k,
            "Lists Docker volumes with their name, driver and mountpoint."@,
        ),
    }
}

/// The name of a tool, as a string slice.
pub fn tool_name(k: ToolKind) -> (res: &'static str)
    ensures
        res@ == kind_name(k),
{
    match k {
        ToolKind::ListContainers => "list_containers",
        ToolKind::GetLogs => "get_logs",
        ToolKind::InspectContainer => "inspect_container",
        ToolKind::StopContainer => "stop_container",
        ToolKind::StartContainer => "start_container",
        ToolKind::RestartContainer => "restart_container",
        ToolKind::RemoveContainer => "remove_container",
        ToolKind::ListImages => "list_images",
        ToolKind::GetStats => "get_stats",
        ToolKind::ExecCommand => "exec_command",
        ToolKind::RemoveImage => "remove_image",
        ToolKind::PullImage => "pull_image",
        ToolKind::ListNetworks => "list_networks",
        ToolKind::ListVolumes => "list_volumes",
    }
}

/// The tool at a position of the catalogue.
pub fn tool_at(i: usize) -> (res: ToolKind)
    requires
        i < tool_count(),
    ensures
        res == tool_order()[i as int],
{
    if i == 0 {
        ToolKind::ListContainers
    } else if i == 1 {
        ToolKind::GetLogs
    } else if i == 2 {
        ToolKind::InspectContainer
    } else if i == 3 {
        ToolKind::StopContainer
    } else if i == 4 {
        ToolKind::StartContainer
    } else if i == 5 {
        ToolKind::RestartContainer
    } else if i == 6 {
        ToolKind::RemoveContainer
    } else if i == 7 {
        ToolKind::ListImages
    } else if i == 8 {
        ToolKind::GetStats
    } else if i == 9 {
        ToolKind::ExecCommand
    } else if i == 10 {
        ToolKind::RemoveImage
    } else if i == 11 {
        ToolKind::PullImage
    } else if i == 12 {
        ToolKind::ListNetworks
    } else {
        ToolKind::ListVolumes
    }
}

fn param(name: &str, kind: ParamKind, description: Option<&str>, default: Option<ParamDefault>) -> (res:
    ToolParam)
    ensures
        res@ == (ToolParamView {
            name: name@,
            kind,
            description: match description {
                Some(d) => Some(d@),
                None => None,
            },
            default,
        }),
{
    let description = match description {
        Some(d) => Some(String::from_str(d)),
        None => None,
    };
    ToolParam { name: String::from_str(name), kind, description, default }
}

fn strings1(a: &str) -> (res: Vec<String>)
    ensures
        res.deep_view() == seq![a@],
{
    let mut v = Vec::new();
    v.push(String::from_str(a));
    assert(v.deep_view() =~= seq![a@]);
    v
}

fn definition(name: &str, description: &str, params: Vec<ToolParam>, required: Vec<String>) -> (res:
    ToolDefinition)
    ensures
        res.name@ == name@,
        res.description@ == description@,
        res.params == params,
        res.required == required,
{
    ToolDefinition {
        name: String::from_str(name),
        description: String::from_str(description),
        params,
        required,
    }
}

fn no_param_definition(k: ToolKind, description: &str) -> (res: ToolDefinition)
    ensures
        res@ == no_param_tool(k, description@),
{
    let d = definition(tool_name(k), description, Vec::new(), Vec::new());
    assert(d@.params =~= seq![]);
    assert(d.required.deep_view() =~= seq![]);
    d
}

fn container_definition(k: ToolKind, description: &str) -> (res: ToolDefinition)
    ensures
        res@ == container_tool(k, description@),
{
    let mut params = Vec::new();
    params.push(param("container_id", ParamKind::Str, None, None));
    let d = definition(tool_name(k), description, params, strings1("container_id"));
    assert(d@.params =~= seq![container_id_param()]);
    d
}

/// The catalogue entry of one tool.
pub fn tool_definition(k: ToolKind) -> (res: ToolDefinition)
    ensures
        res@ == spec_tool_def(k),
{
    match k {
        ToolKind::ListContainers => no_param_definition(
            k,
            "Lists all local Docker containers. Returns their name, image, ID and status (running, exited, etc.).",
        ),
        ToolKind::GetLogs => {
            let mut params = Vec::new();
            params.push(
                param(
                    "container_id",
                    ParamKind::Str,
                    Some("The name or short ID of the container (e.g. 'my-db')"),
                    None,
                ),
            );
            params.push(
                param(
                    "tail",
                    ParamKind::Integer,
                    Some("Number of lines to retrieve from the end."),
                    Some(ParamDefault::Integer(50)),
                ),
            );
            let d = definition(
                tool_name(k),
                "Retrieves the last lines of a container's logs. Useful for diagnosing errors or crashes.",
                params,
                strings1("container_id"),
            );
            assert(d@.params =~= spec_tool_def(k).params);
            d
        },
        ToolKind::InspectContainer => container_definition(
            k,
            "Returns full technical details of a container (Network, Volumes, Environment variables).",
        ),
        ToolKind::StopContainer => container_definition(k, "Stops a container."),
        ToolKind::StartContainer => container_definition(k, "Starts a container."),
        ToolKind::RestartContainer => container_definition(
            k,
            "Restarts a container (running or stopped).",
        ),
        ToolKind::RemoveContainer => {
            let mut params = Vec::new();
            params.push(param("container_id", ParamKind::Str, None, None));
            params.push(
                param(
                    "force",
                    ParamKind::Boolean,
                    Some("Force removal even if the container is running (default: false)."),
                    Some(ParamDefault::Boolean(false)),
                ),
            );
            let d = definition(
                tool_name(k),
                "Removes a container. Use force=true to force removal even if the container is running.",
                params,
                strings1("container_id"),
            );
            assert(d@.params =~= spec_tool_def(k).params);
            d
        },
        ToolKind::ListImages => no_param_definition(
            k,
            "Lists all local Docker images with their ID, tags and size.",
        ),
        ToolKind::GetStats => {
            let mut params = Vec::new();
            params.push(
                param("container_id", ParamKind::Str, Some("The name or ID of the container"), None),
            );
            let d = definition(
                tool_name(k),
                "Shows real-time statistics for a container: CPU, memory, network.",
                params,
                strings1("container_id"),
            );
            assert(d@.params =~= spec_tool_def(k).params);
            d
        },
        ToolKind::ExecCommand => {
            let mut params = Vec::new();
            params.push(
                param("container_id", ParamKind::Str, Some("The name or ID of the container"), None),
            );
            params.push(
                param(
                    "command",
                    ParamKind::StrArray,
                    Some("The command to execute as an array (e.g. [\"ls\", \"-la\"])"),
                    None,
                ),
            );
            let mut required = Vec::new();
            required.push(String::from_str("container_id"));
            required.push(String::from_str("command"));
            let d = definition(
                tool_name(k),
                "Executes a command inside a running container (equivalent to docker exec).",
                params,
                required,
            );
            assert(d@.params =~= spec_tool_def(k).params);
            assert(d@.required =~= spec_tool_def(k).required);
            d
        },
        ToolKind::RemoveImage => {
            let mut params = Vec::new();
            params.push(
                param(
                    "image_id",
                    ParamKind::Str,
                    Some("The name or ID of the image to remove"),
                    None,
                ),
            );
            params.push(
                param(
                    "force",
                    ParamKind::Boolean,
                    Some("Force removal even if the image is in use (default: false)."),
                    Some(ParamDefault::Boolean(false)),
                ),
            );
            let d = definition(
                tool_name(k),
                "Removes a local Docker image.",
                params,
                strings1("image_id"),
            );
            assert(d@.params =~= spec_tool_def(k).params);
            d
        },
        ToolKind::PullImage => {
            let mut params = Vec::new();
            params.push(
                param(
                    "image",
                    ParamKind::Str,
                    Some("The name of the image to download (e.g. 'nginx:latest', 'postgres:16')"),
                    None,
                ),
            );
            let d = definition(
                tool_name(k),
                "Downloads an image from a Docker registry (e.g. docker pull).",
                params,
                strings1("image"),
            );
            assert(d@.params =~= spec_tool_def(k).params);
            d
        },
        ToolKind::ListNetworks => no_param_definition(
            k,
            "Lists Docker networks and the containers connected to them.",
        ),
        ToolKind::ListVolumes => no_param_definition(
            k,
            "Lists Docker volumes with their name, driver and mountpoint.",
        ),
    }
}

/// The JSON type of every tool's input schema: an object whose properties are
/// the tool's parameters.
pub fn input_schema_type() -> (res: &'static str)
    ensures
        res@ == "object"@,
{
    "object"
}

/// The catalogue that `tools/list` answers with: every tool, in catalogue order.
pub fn get_tools_definition() -> (res: Vec<ToolDefinition>)
    ensures
        res.len() == tool_count(),
        forall|i: int| 0 <= i < tool_count() ==> (#[trigger] res[i])@ == spec_tool_def(tool_order()[i]),
{
    let mut res: Vec<ToolDefinition> = Vec::new();
    let mut i: usize = 0;
    while i < 14
        invariant
            i <= tool_count(),
            res.len() == i,
            forall|j: int| 0 <= j < i ==> (#[trigger] res[j])@ == spec_tool_def(tool_order()[j]),
        decreases 14 - i,
    {
        res.push(tool_definition(tool_at(i)));
        i += 1;
    }
    res
}

} // verus!
