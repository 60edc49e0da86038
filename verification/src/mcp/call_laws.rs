//! Laws on what each tool call asks of the daemon, on the text of its reply,
//! and on the JSON types the catalogue declares.

use vstd::prelude::*;

use crate::mcp::handlers::{error_message, spec_plan, spec_response_text, string_items, ActionView, ToolArgsView, ToolError};
use crate::mcp::rpc::{
    spec_classify, spec_request_outcome, spec_route, Request, RequestLineView, RpcMethod,
};
use crate::mcp::handlers::plan_view;
use crate::mcp::tools::{
    lemma_kind_name_roundtrip, spec_tool_def, tool_count, tool_order, ParamDefault, ParamKind,
    ToolKind,
};

verus! {

/// `get_logs` asks for exactly the number of lines the call gives, of exactly
/// the container it names, whatever that number is.
pub proof fn logs_tail_is_passed_through(args: ToolArgsView, c: Seq<char>, t: u64)
    requires
        args.container_id == Some(c),
        args.tail == Some(t),
    ensures
        spec_plan("get_logs"@, args) == Ok::<ActionView, ToolError>(
            ActionView::GetLogs { container_id: c, tail: t as usize },
        ),
{
    lemma_kind_name_roundtrip(ToolKind::GetLogs);
}

/// Each tool that acts on one container acts on exactly the container the call
/// names; stop and restart give it ten seconds, and removal is forced exactly
/// when the call says `force: true`.
pub proof fn container_tools_act_on_the_named_container(args: ToolArgsView, c: Seq<char>)
    requires
        args.container_id == Some(c),
    ensures
        spec_plan("stop_container"@, args) == Ok::<ActionView, ToolError>(
            ActionView::StopContainer { container_id: c, timeout_seconds: 10 },
        ),
        spec_plan("start_container"@, args) == Ok::<ActionView, ToolError>(
            ActionView::StartContainer { container_id: c },
        ),
        spec_plan("restart_container"@, args) == Ok::<ActionView, ToolError>(
            ActionView::RestartContainer { container_id: c, timeout_seconds: 10 },
        ),
        spec_plan("inspect_container"@, args) == Ok::<ActionView, ToolError>(
            ActionView::InspectContainer { container_id: c },
        ),
        spec_plan("get_stats"@, args) == Ok::<ActionView, ToolError>(
            ActionView::GetStats { container_id: c },
        ),
        spec_plan("remove_container"@, args) == Ok::<ActionView, ToolError>(
            ActionView::RemoveContainer { container_id: c, force: args.force == Some(true) },
        ),
{
    lemma_kind_name_roundtrip(ToolKind::StopContainer);
    lemma_kind_name_roundtrip(ToolKind::StartContainer);
    lemma_kind_name_roundtrip(ToolKind::RestartContainer);
    lemma_kind_name_roundtrip(ToolKind::InspectContainer);
    lemma_kind_name_roundtrip(ToolKind::GetStats);
    lemma_kind_name_roundtrip(ToolKind::RemoveContainer);
}

/// The image tools act on exactly the image the call names; removal is forced
/// exactly when the call says `force: true`.
pub proof fn image_tools_act_on_the_named_image(args: ToolArgsView)
    ensures
        args.image_id matches Some(im) ==> spec_plan("remove_image"@, args) == Ok::<
            ActionView,
            ToolError,
        >(ActionView::RemoveImage { image_id: im, force: args.force == Some(true) }),
        args.image matches Some(im) ==> spec_plan("pull_image"@, args) == Ok::<
            ActionView,
            ToolError,
        >(ActionView::PullImage { image: im }),
{
    lemma_kind_name_roundtrip(ToolKind::RemoveImage);
    lemma_kind_name_roundtrip(ToolKind::PullImage);
}

/// The listing tools need no argument: containers are listed whether running
/// or not, images without intermediate layers.
pub proof fn listings_take_no_arguments(args: ToolArgsView)
    ensures
        spec_plan("list_containers"@, args) == Ok::<ActionView, ToolError>(
            ActionView::ListContainers { all: true },
        ),
        spec_plan("list_images"@, args) == Ok::<ActionView, ToolError>(
            ActionView::ListImages { all: false },
        ),
        spec_plan("list_networks"@, args) == Ok::<ActionView, ToolError>(ActionView::ListNetworks),
        spec_plan("list_volumes"@, args) == Ok::<ActionView, ToolError>(ActionView::ListVolumes),
{
    lemma_kind_name_roundtrip(ToolKind::ListContainers);
    lemma_kind_name_roundtrip(ToolKind::ListImages);
    lemma_kind_name_roundtrip(ToolKind::ListNetworks);
    lemma_kind_name_roundtrip(ToolKind::ListVolumes);
}

/// The command that `exec_command` runs, for a call whose `command` array holds
/// the given items.
pub open spec fn exec_plan(args: ToolArgsView, items: Seq<Option<Seq<char>>>) -> Result<
    ActionView,
    ToolError,
> {
    spec_plan("exec_command"@, ToolArgsView { command: Some(items), ..args })
}

proof fn lemma_strings_are_kept(words: Seq<Seq<char>>)
    ensures
        string_items(words.map_values(|w: Seq<char>| Some(w))) == words,
    decreases words.len(),
{
    let items = words.map_values(|w: Seq<char>| Some(w));
    if words.len() > 0 {
        lemma_strings_are_kept(words.drop_last());
        assert(items.drop_last() =~= words.drop_last().map_values(|w: Seq<char>| Some(w)));
        assert(words.drop_last().push(words.last()) =~= words);
    } else {
        assert(items =~= Seq::<Option<Seq<char>>>::empty());
    }
}

/// `exec_command` runs the command on exactly the container the call names:
/// an array of strings is run as given, element by element.
pub proof fn exec_runs_the_given_strings(args: ToolArgsView, c: Seq<char>, words: Seq<Seq<char>>)
    requires
        args.container_id == Some(c),
    ensures
        exec_plan(args, words.map_values(|w: Seq<char>| Some(w))) == Ok::<ActionView, ToolError>(
            ActionView::ExecCommand { container_id: c, command: words },
        ),
{
    lemma_kind_name_roundtrip(ToolKind::ExecCommand);
    lemma_strings_are_kept(words);
}

/// An element of the `command` array that is not a string is skipped: it
/// changes nothing in what is run. A string element is appended to the command.
pub proof fn exec_skips_non_string_elements(
    args: ToolArgsView,
    c: Seq<char>,
    items: Seq<Option<Seq<char>>>,
    w: Seq<char>,
)
    requires
        args.container_id == Some(c),
    ensures
        exec_plan(args, items.push(None)) == exec_plan(args, items),
        exec_plan(args, items) matches Ok(ActionView::ExecCommand { container_id, command })
            ==> exec_plan(args, items.push(Some(w))) == Ok::<ActionView, ToolError>(
            ActionView::ExecCommand { container_id, command: command.push(w) },
        ),
{
    lemma_kind_name_roundtrip(ToolKind::ExecCommand);
    assert(items.push(None).drop_last() =~= items);
    assert(items.push(Some(w)).drop_last() =~= items);
}

/// Whether an operation returns nothing but success, so that its reply is a
/// confirmation sentence.
pub open spec fn is_confirmed_operation(a: ActionView) -> bool {
    ||| a is StopContainer
    ||| a is StartContainer
    ||| a is RestartContainer
    ||| a is RemoveContainer
    ||| a is RemoveImage
}

/// The reply to every operation that returns data (logs, command output,
/// inspection, statistics, listings, pull status) is exactly that data.
pub proof fn data_replies_carry_the_output(a: ActionView, output: Seq<char>)
    requires
        !is_confirmed_operation(a),
    ensures
        spec_response_text(a, output) == output,
{
}

/// The reply to an operation that returns nothing is a sentence naming its
/// target, the same whatever the daemon handed back.
pub proof fn confirmations_name_their_target(a: ActionView, o1: Seq<char>, o2: Seq<char>)
    requires
        is_confirmed_operation(a),
    ensures
        spec_response_text(a, o1) == spec_response_text(a, o2),
        a matches ActionView::StopContainer { container_id, .. } ==> spec_response_text(a, o1)
            == "Container "@ + container_id + " has been stopped successfully."@,
        a matches ActionView::StartContainer { container_id } ==> spec_response_text(a, o1)
            == "Container "@ + container_id + " has been started successfully."@,
        a matches ActionView::RestartContainer { container_id, .. } ==> spec_response_text(a, o1)
            == "Container "@ + container_id + " has been restarted successfully."@,
        a matches ActionView::RemoveContainer { container_id, .. } ==> spec_response_text(a, o1)
            == "Container "@ + container_id + " has been removed."@,
        a matches ActionView::RemoveImage { image_id, .. } ==> spec_response_text(a, o1)
            == "Image "@ + image_id + " has been removed."@,
{
}

/// The JSON type in which a tool call reads the argument of a given name.
pub open spec fn read_kind(param: Seq<char>) -> ParamKind {
    if param == "tail"@ {
        ParamKind::Integer
    } else if param == "force"@ {
        ParamKind::Boolean
    } else if param == "command"@ {
        ParamKind::StrArray
    } else {
        ParamKind::Str
    }
}

/// The arguments that tool calls read.
pub open spec fn is_read_argument(param: Seq<char>) -> bool {
    ||| param == "container_id"@
    ||| param == "tail"@
    ||| param == "force"@
    ||| param == "image_id"@
    ||| param == "image"@
    ||| param == "command"@
}

/// Every parameter the catalogue declares is one that calls read, with the
/// JSON type in which they read it, and a default of that type; every
/// required argument is a declared parameter.
pub proof fn declared_types_are_the_types_read(i: int)
    requires
        0 <= i < tool_count(),
    ensures
        forall|j: int|
            0 <= j < spec_tool_def(tool_order()[i]).params.len() ==> {
                let p = #[trigger] spec_tool_def(tool_order()[i]).params[j];
                &&& is_read_argument(p.name)
                &&& p.kind == read_kind(p.name)
                &&& (p.default matches Some(ParamDefault::Integer(_)) ==> p.kind
                    == ParamKind::Integer)
                &&& (p.default matches Some(ParamDefault::Boolean(_)) ==> p.kind
                    == ParamKind::Boolean)
            },
        forall|r: int|
            0 <= r < spec_tool_def(tool_order()[i]).required.len() ==> exists|j: int|
                0 <= j < spec_tool_def(tool_order()[i]).params.len()
                    && spec_tool_def(tool_order()[i]).params[j].name
                    == #[trigger] spec_tool_def(tool_order()[i]).required[r],
{
    reveal_strlit("container_id");
    reveal_strlit("tail");
    reveal_strlit("force");
    reveal_strlit("image_id");
    reveal_strlit("image");
    reveal_strlit("command");
    assert("container_id"@.len() == 12 && "tail"@.len() == 4 && "force"@.len() == 5);
    assert("image_id"@.len() == 8 && "image"@.len() == 5 && "command"@.len() == 7);
    assert("force"@[0] == 'f' && "image"@[0] == 'i');
    let def = spec_tool_def(tool_order()[i]);
    assert forall|r: int| 0 <= r < def.required.len() implies exists|j: int|
        0 <= j < def.params.len() && def.params[j].name == #[trigger] def.required[r] by {
        if def.params.len() > 1 && def.params[1].name == def.required[r] {
            assert(0 <= 1 < def.params.len());
        } else {
            assert(def.params[0].name == def.required[r]);
        }
    }
}

/// A call that lacks what a tool acts on is refused before any operation:
/// container tools without a string `container_id`, `remove_image` without
/// `image_id`, `pull_image` without `image`, and `exec_command` without an
/// array `command`, the container being checked first.
pub proof fn missing_arguments_are_refused(args: ToolArgsView)
    ensures
        args.container_id is None ==> {
            &&& spec_plan("get_logs"@, args) == Err::<ActionView, ToolError>(ToolError::MissingId)
            &&& spec_plan("stop_container"@, args) == Err::<ActionView, ToolError>(
                ToolError::MissingId,
            )
            &&& spec_plan("start_container"@, args) == Err::<ActionView, ToolError>(
                ToolError::MissingId,
            )
            &&& spec_plan("restart_container"@, args) == Err::<ActionView, ToolError>(
                ToolError::MissingId,
            )
            &&& spec_plan("inspect_container"@, args) == Err::<ActionView, ToolError>(
                ToolError::MissingId,
            )
            &&& spec_plan("remove_container"@, args) == Err::<ActionView, ToolError>(
                ToolError::MissingId,
            )
            &&& spec_plan("get_stats"@, args) == Err::<ActionView, ToolError>(ToolError::MissingId)
            &&& spec_plan("exec_command"@, args) == Err::<ActionView, ToolError>(
                ToolError::MissingId,
            )
        },
        args.container_id is Some && args.command is None ==> spec_plan("exec_command"@, args)
            == Err::<ActionView, ToolError>(ToolError::MissingCommand),
        args.image_id is None ==> spec_plan("remove_image"@, args) == Err::<ActionView, ToolError>(
            ToolError::MissingImageId,
        ),
        args.image is None ==> spec_plan("pull_image"@, args) == Err::<ActionView, ToolError>(
            ToolError::MissingImageName,
        ),
{
    lemma_kind_name_roundtrip(ToolKind::GetLogs);
    lemma_kind_name_roundtrip(ToolKind::StopContainer);
    lemma_kind_name_roundtrip(ToolKind::StartContainer);
    lemma_kind_name_roundtrip(ToolKind::RestartContainer);
    lemma_kind_name_roundtrip(ToolKind::InspectContainer);
    lemma_kind_name_roundtrip(ToolKind::RemoveContainer);
    lemma_kind_name_roundtrip(ToolKind::GetStats);
    lemma_kind_name_roundtrip(ToolKind::ExecCommand);
    lemma_kind_name_roundtrip(ToolKind::RemoveImage);
    lemma_kind_name_roundtrip(ToolKind::PullImage);
}

/// Each refusal is answered with its own message, and no two refusals share one.
pub proof fn refusal_messages(e: ToolError, f: ToolError)
    ensures
        error_message(ToolError::MissingId) == "Missing ID"@,
        error_message(ToolError::MissingImageId) == "Missing image ID"@,
        error_message(ToolError::MissingImageName) == "Missing image name"@,
        error_message(ToolError::MissingCommand) == "Missing command (expected array of strings)"@,
        error_message(ToolError::ToolNotFound) == "Tool not found"@,
        e != f ==> error_message(e) != error_message(f),
{
    reveal_strlit("Missing ID");
    reveal_strlit("Missing image ID");
    reveal_strlit("Missing image name");
    reveal_strlit("Missing command (expected array of strings)");
    reveal_strlit("Tool not found");
    assert("Missing ID"@.len() == 10 && "Missing image ID"@.len() == 16);
    assert("Missing image name"@.len() == 18 && "Tool not found"@.len() == 14);
    assert("Missing command (expected array of strings)"@.len() == 43);
}

/// The three methods of the protocol are handled as such, every other method
/// is refused, and a message is answered exactly when it is JSON with an `id`.
pub proof fn methods_are_routed(method: Seq<char>, parsed: bool, has_id: bool)
    ensures
        spec_route("initialize"@) == RpcMethod::Initialize,
        spec_route("tools/list"@) == RpcMethod::ToolsList,
        spec_route("tools/call"@) == RpcMethod::ToolsCall,
        method != "initialize"@ && method != "tools/list"@ && method != "tools/call"@
            ==> spec_route(method) == RpcMethod::Unknown,
        spec_classify(parsed, has_id, Some(method)) is Some <==> parsed && has_id,
        parsed && has_id ==> spec_classify(parsed, has_id, Some(method)) == Some(spec_route(method)),
        parsed && has_id ==> spec_classify(parsed, has_id, None) == Some(spec_route(Seq::empty())),
{
    reveal_strlit("initialize");
    reveal_strlit("tools/list");
    reveal_strlit("tools/call");
    assert("initialize"@.len() == 10 && "tools/list"@.len() == 10 && "tools/call"@.len() == 10);
    assert("initialize"@[0] == 'i' && "tools/list"@[6] == 'l' && "tools/call"@[6] == 'c');
}

/// What the server does with a request line: nothing for a line that is not
/// JSON or has no `id`; for `tools/call`, the plan of the named tool with the
/// given arguments; for a method it does not know, a refusal with code -32601
/// that names the method.
pub proof fn requests_are_answered_by_method(f: RequestLineView, res: Request)
    requires
        spec_request_outcome(f, res),
    ensures
        !f.parsed || f.id is None ==> res is Ignored,
        f.parsed && f.id is Some && f.method == Some("initialize"@) ==> res is Initialize,
        f.parsed && f.id is Some && f.method == Some("tools/list"@) ==> res is ToolsList,
        f.parsed && f.id is Some && f.method == Some("tools/call"@) ==> (f.tool_name matches Some(
            name,
        ) ==> (res matches Request::ToolsCall { plan, .. } && plan_view(plan) == spec_plan(
            name,
            f.args,
        ))),
        (f.parsed && f.id is Some) ==> (f.method matches Some(m) ==> (m != "initialize"@ && m
            != "tools/list"@ && m != "tools/call"@ ==> (res matches Request::Refused { error, .. }
            && error.code == -32601 && error.message@ == "Method not found: "@ + m))),
{
    methods_are_routed(Seq::empty(), f.parsed, f.id is Some);
    if let Some(m) = f.method {
        methods_are_routed(m, f.parsed, f.id is Some);
    }
}

} // verus!
