//! Tool calls: from a tool's name and arguments to one Docker operation, and
//! from the operation's outcome to the text of the reply.

use vstd::prelude::*;
use vstd::string::*;

use crate::mcp::tools::{tool_kind, tool_kind_of, ToolKind};

verus! {

/// The arguments of a tool call, as far as the tools read them. Each field is
/// the argument of that name when it is present with the JSON type the tool
/// expects, and `None` otherwise. `command` holds, for a JSON array, each
/// element that is a string, and `None` for each that is not.
#[derive(Debug, Clone, PartialEq, Eq, Default)]
pub struct ToolArgs {
    pub container_id: Option<String>,
    pub tail: Option<u64>,
    pub force: Option<bool>,
    pub image_id: Option<String>,
    pub image: Option<String>,
    pub command: Option<Vec<Option<String>>>,
}

/// The mathematical value of [`ToolArgs`].
pub struct ToolArgsView {
    pub container_id: Option<Seq<char>>,
    pub tail: Option<u64>,
    pub force: Option<bool>,
    pub image_id: Option<Seq<char>>,
    pub image: Option<Seq<char>>,
    pub command: Option<Seq<Option<Seq<char>>>>,
}

impl View for ToolArgs {
    type V = ToolArgsView;

    open spec fn view(&self) -> ToolArgsView {
        ToolArgsView {
            container_id: self.container_id.deep_view(),
            tail: self.tail,
            force: self.force,
            image_id: self.image_id.deep_view(),
            image: self.image.deep_view(),
            command: self.command.deep_view(),
        }
    }
}

/// The Docker operation that a tool call asks for.
#[derive(Debug, Clone, PartialEq, Eq)]
pub enum ToolAction {
    ListContainers { all: bool },
    GetLogs { container_id: String, tail: usize },
    StopContainer { container_id: String, timeout_seconds: i64 },
    StartContainer { container_id: String },
    InspectContainer { container_id: String },
    RestartContainer { container_id: String, timeout_seconds: i64 },
    RemoveContainer { container_id: String, force: bool },
    ListImages { all: bool },
    GetStats { container_id: String },
    ExecCommand { container_id: String, command: Vec<String> },
    RemoveImage { image_id: String, force: bool },
    PullImage { image: String },
    ListNetworks,
    ListVolumes,
}

/// The mathematical value of a [`ToolAction`].
pub enum ActionView {
    ListContainers { all: bool },
    GetLogs { container_id: Seq<char>, tail: usize },
    StopContainer { container_id: Seq<char>, timeout_seconds: i64 },
    StartContainer { container_id: Seq<char> },
    InspectContainer { container_id: Seq<char> },
    RestartContainer { container_id: Seq<char>, timeout_seconds: i64 },
    RemoveContainer { container_id: Seq<char>, force: bool },
    ListImages { all: bool },
    GetStats { container_id: Seq<char> },
    ExecCommand { container_id: Seq<char>, command: Seq<Seq<char>> },
    RemoveImage { image_id: Seq<char>, force: bool },
    PullImage { image: Seq<char> },
    ListNetworks,
    ListVolumes,
}

impl View for ToolAction {
    type V = ActionView;

    open spec fn view(&self) -> ActionView {
        match self {
            ToolAction::ListContainers { all } => ActionView::ListContainers { all: *all },
            ToolAction::GetLogs { container_id, tail } => ActionView::GetLogs {
                container_id: container_id@,
                tail: *tail,
            },
            ToolAction::StopContainer { container_id, timeout_seconds } => ActionView::StopContainer {
                container_id: container_id@,
                timeout_seconds: *timeout_seconds,
            },
            ToolAction::StartContainer { container_id } => ActionView::StartContainer {
                container_id: container_id@,
            },
            ToolAction::InspectContainer { container_id } => ActionView::InspectContainer {
                container_id: container_id@,
            },
            ToolAction::RestartContainer { container_id, timeout_seconds } => ActionView::RestartContainer {
                container_id: container_id@,
                timeout_seconds: *timeout_seconds,
            },
            ToolAction::RemoveContainer { container_id, force } => ActionView::RemoveContainer {
                container_id: container_id@,
                force: *force,
            },
            ToolAction::ListImages { all } => ActionView::ListImages { all: *all },
            ToolAction::GetStats { container_id } => ActionView::GetStats {
                container_id: container_id@,
            },
            ToolAction::ExecCommand { container_id, command } => ActionView::ExecCommand {
                container_id: container_id@,
                command: command.deep_view(),
            },
            ToolAction::RemoveImage { image_id, force } => ActionView::RemoveImage {
                image_id: image_id@,
                force: *force,
            },
            ToolAction::PullImage { image } => ActionView::PullImage { image: image@ },
            ToolAction::ListNetworks => ActionView::ListNetworks,
            ToolAction::ListVolumes => ActionView::ListVolumes,
        }
    }
}

/// Why a tool call is refused before any Docker operation.
#[derive(PartialEq, Eq, Structural, Clone, Copy, Debug)]
pub enum ToolError {
    /// A container tool was called without a string `container_id`.
    MissingId,
    /// `remove_image` was called without a string `image_id`.
    MissingImageId,
    /// `pull_image` was called without a string `image`.
    MissingImageName,
    /// `exec_command` was called without an array `command`.
    MissingCommand,
    /// No tool has the name called.
    ToolNotFound,
}

/// The message that a refused call is answered with.
pub open spec fn error_message(e: ToolError) -> Seq<char> {
    match e {
        ToolError::MissingId => "Missing ID"@,
        ToolError::MissingImageId => "Missing image ID"@,
        ToolError::MissingImageName => "Missing image name"@,
        ToolError::MissingCommand => "Missing command (expected array of strings)"@,
        ToolError::ToolNotFound => "Tool not found"@,
    }
}

impl ToolError {
    /// The message that a refused call is answered with.
    pub fn message(&self) -> (res: String)
        ensures
            res@ == error_message(*self),
    {
        match self {
            ToolError::MissingId => String::from_str("Missing ID"),
            ToolError::MissingImageId => String::from_str("Missing image ID"),
            ToolError::MissingImageName => String::from_str("Missing image name"),
            ToolError::MissingCommand => String::from_str(
                "Missing command (expected array of strings)",
            ),
            ToolError::ToolNotFound => String::from_str("Tool not found"),
        }
    }
}

/// How many log lines `get_logs` asks for when the call gives no `tail`.
pub open spec fn default_tail() -> u64 {
    50
}

/// The grace period, in seconds, that `stop_container` and `restart_container` give.
pub open spec fn stop_timeout() -> i64 {
    10
}

/// The strings among the elements of a JSON array, in order.
pub open spec fn string_items(items: Seq<Option<Seq<char>>>) -> Seq<Seq<char>>
    decreases items.len(),
{
    if items.len() == 0 {
        Seq::empty()
    } else {
        string_items(items.drop_last()) + match items.last() {
            Some(s) => seq![s],
            None => Seq::empty(),
        }
    }
}

/// The operation that a call of a known tool asks for, or why it is refused.
pub open spec fn plan_for(k: ToolKind, args: ToolArgsView) -> Result<ActionView, ToolError> {
    let id = args.container_id;
    let force = match args.force {
        Some(f) => f,
        None => false,
    };
    match k {
        ToolKind::ListContainers => Ok(ActionView::ListContainers { all: true }),
        ToolKind::ListImages => Ok(ActionView::ListImages { all: false }),
        ToolKind::ListNetworks => Ok(ActionView::ListNetworks),
        ToolKind::ListVolumes => Ok(ActionView::ListVolumes),
        ToolKind::RemoveImage => match args.image_id {
            Some(image_id) => Ok(ActionView::RemoveImage { image_id, force }),
            None => Err(ToolError::MissingImageId),
        },
        ToolKind::PullImage => match args.image {
            Some(image) => Ok(ActionView::PullImage { image }),
            None => Err(ToolError::MissingImageName),
        },
        _ => match id {
            None => Err(ToolError::MissingId),
            Some(container_id) => match k {
                ToolKind::GetLogs => Ok(
                    ActionView::GetLogs {
                        container_id,
                        tail: match args.tail {
                            Some(t) => t as usize,
                            None => default_tail() as usize,
                        },
                    },
                ),
                ToolKind::StopContainer => Ok(
                    ActionView::StopContainer { container_id, timeout_seconds: stop_timeout() },
                ),
                ToolKind::StartContainer => Ok(ActionView::StartContainer { container_id }),
                ToolKind::InspectContainer => Ok(ActionView::InspectContainer { container_id }),
                ToolKind::RestartContainer => Ok(
                    ActionView::RestartContainer { container_id, timeout_seconds: stop_timeout() },
                ),
                ToolKind::RemoveContainer => Ok(ActionView::RemoveContainer { container_id, force }),
                ToolKind::GetStats => Ok(ActionView::GetStats { container_id }),
                _ => match args.command {
                    Some(items) => Ok(
                        ActionView::ExecCommand { container_id, command: string_items(items) },
                    ),
                    None => Err(ToolError::MissingCommand),
                },
            },
        },
    }
}

/// The operation that a tool call asks for, or why it is refused.
pub open spec fn spec_plan(name: Seq<char>, args: ToolArgsView) -> Result<ActionView, ToolError> {
    match tool_kind_of(name) {
        Some(k) => plan_for(k, args),
        None => Err(ToolError::ToolNotFound),
    }
}

/// The mathematical value of a planned call.
pub open spec fn plan_view(r: Result<ToolAction, ToolError>) -> Result<ActionView, ToolError> {
    match r {
        Ok(a) => Ok(a@),
        Err(e) => Err(e),
    }
}

fn string_elements(items: &Vec<Option<String>>) -> (res: Vec<String>)
    ensures
        res.deep_view() == string_items(items.deep_view()),
{
    let mut res: Vec<String> = Vec::new();
    let ghost views = items.deep_view();
    let n = items.len();
    let mut i: usize = 0;
    while i < n
        invariant
            n == items.len(),
            views == items.deep_view(),
            views.len() == n,
            i <= n,
            res.deep_view() == string_items(views.take(i as int)),
        decreases n - i,
    {
        let ghost before = res.deep_view();
        match &items[i] {
            Some(s) => {
                res.push(s.clone());
                assert(res.deep_view() =~= before + seq![s@]);
            },
            None => {},
        }
        assert(views.take(i + 1).drop_last() =~= views.take(i as int));
        i += 1;
    }
    assert(views.take(n as int) =~= views);
    res
}

fn required_container_id(args: &ToolArgs) -> (res: Result<String, ToolError>)
    ensures
        match res {
            Ok(id) => args.container_id.deep_view() == Some(id@),
            Err(e) => args.container_id is None && e == ToolError::MissingId,
        },
{
    match &args.container_id {
        Some(id) => Ok(id.clone()),
        None => Err(ToolError::MissingId),
    }
}

/// Decides what a tool call asks for: the tool is looked up by name, its
/// required arguments are checked in the order the tool reads them, and the
/// defaults are filled in (`tail` 50, `force` false, a 10 second grace period
/// for stop and restart). Containers are listed whether running or not, images
/// without the intermediate layers. A `command` keeps its string elements only.
pub fn plan_tool_call(tool_name: &str, args: &ToolArgs) -> (res: Result<ToolAction, ToolError>)
    ensures
        plan_view(res) == spec_plan(tool_name@, args@),
{
    let kind = match tool_kind(tool_name) {
        Some(k) => k,
        None => {
            return Err(ToolError::ToolNotFound);
        },
    };
    let force = match args.force {
        Some(f) => f,
        None => false,
    };
    match kind {
        ToolKind::ListContainers => Ok(ToolAction::ListContainers { all: true }),
        ToolKind::ListImages => Ok(ToolAction::ListImages { all: false }),
        ToolKind::ListNetworks => Ok(ToolAction::ListNetworks),
        ToolKind::ListVolumes => Ok(ToolAction::ListVolumes),
        ToolKind::RemoveImage => match &args.image_id {
            Some(image_id) => Ok(ToolAction::RemoveImage { image_id: image_id.clone(), force }),
            None => Err(ToolError::MissingImageId),
        },
        ToolKind::PullImage => match &args.image {
            Some(image) => Ok(ToolAction::PullImage { image: image.clone() }),
            None => Err(ToolError::MissingImageName),
        },
        ToolKind::GetLogs => {
            let container_id = required_container_id(args)?;
            let tail: usize = match args.tail {
                Some(t) => t as usize,
                None => 50,
            };
            Ok(ToolAction::GetLogs { container_id, tail })
        },
        ToolKind::StopContainer => {
            let container_id = required_container_id(args)?;
            Ok(ToolAction::StopContainer { container_id, timeout_seconds: 10 })
        },
        ToolKind::StartContainer => {
            let container_id = required_container_id(args)?;
            Ok(ToolAction::StartContainer { container_id })
        },
        ToolKind::InspectContainer => {
            let container_id = required_container_id(args)?;
            Ok(ToolAction::InspectContainer { container_id })
        },
        ToolKind::RestartContainer => {
            let container_id = required_container_id(args)?;
            Ok(ToolAction::RestartContainer { container_id, timeout_seconds: 10 })
        },
        ToolKind::RemoveContainer => {
            let container_id = required_container_id(args)?;
            Ok(ToolAction::RemoveContainer { container_id, force })
        },
        ToolKind::GetStats => {
            let container_id = required_container_id(args)?;
            Ok(ToolAction::GetStats { container_id })
        },
        ToolKind::ExecCommand => {
            let container_id = required_container_id(args)?;
            match &args.command {
                Some(items) => {
                    let command = string_elements(items);
                    Ok(ToolAction::ExecCommand { container_id, command })
                },
                None => Err(ToolError::MissingCommand),
            }
        },
    }
}

/// The text of the reply to a call that the daemon carried out: a sentence
/// naming the container or image for the operations that return nothing, and
/// the daemon's `output`, as the caller rendered it, for the others.
pub open spec fn spec_response_text(action: ActionView, output: Seq<char>) -> Seq<char> {
    match action {
        ActionView::StopContainer { container_id, .. } => "Container "@ + container_id
            + " has been stopped successfully."@,
        ActionView::StartContainer { container_id } => "Container "@ + container_id
            + " has been started successfully."@,
        ActionView::RestartContainer { container_id, .. } => "Container "@ + container_id
            + " has been restarted successfully."@,
        ActionView::RemoveContainer { container_id, .. } => "Container "@ + container_id
            + " has been removed."@,
        ActionView::RemoveImage { image_id, .. } => "Image "@ + image_id + " has been removed."@,
        _ => output,
    }
}

fn sentence(prefix: &str, subject: &String, suffix: &str) -> (res: String)
    ensures
        res@ == prefix@ + subject@ + suffix@,
{
    let mut s = String::from_str(prefix);
    s.append(subject.as_str());
    s.append(suffix);
    s
}

/// The text of the reply to a call that the daemon carried out; `output` is
/// what the daemon handed back, rendered as text.
pub fn response_text(action: &ToolAction, output: String) -> (res: String)
    ensures
        res@ == spec_response_text(action@, output@),
{
    match action {
        ToolAction::StopContainer { container_id, .. } => sentence(
            "Container ",
            container_id,
            " has been stopped successfully.",
        ),
        ToolAction::StartContainer { container_id } => sentence(
            "Container ",
            container_id,
            " has been started successfully.",
        ),
        ToolAction::RestartContainer { container_id, .. } => sentence(
            "Container ",
            container_id,
            " has been restarted successfully.",
        ),
        ToolAction::RemoveContainer { container_id, .. } => sentence(
            "Container ",
            container_id,
            " has been removed.",
        ),
        ToolAction::RemoveImage { image_id, .. } => sentence("Image ", image_id, " has been removed."),
        _ => output,
    }
}

} // verus!
