//! Laws that tie the tool catalogue to the handling of tool calls.

use vstd::prelude::*;

use crate::mcp::handlers::{spec_plan, ActionView, ToolArgsView, ToolError};
use crate::mcp::tools::{
    kind_name, lemma_kind_name_roundtrip, spec_tool_def, tool_count, tool_kind_of, tool_order,
    ParamDefault, ToolKind,
};

verus! {

/// The position of a tool in the catalogue.
pub open spec fn order_index(k: ToolKind) -> int {
    match k {
        ToolKind::ListContainers => 0,
        ToolKind::GetLogs => 1,
        ToolKind::InspectContainer => 2,
        ToolKind::StopContainer => 3,
        ToolKind::StartContainer => 4,
        ToolKind::RestartContainer => 5,
        ToolKind::RemoveContainer => 6,
        ToolKind::ListImages => 7,
        ToolKind::GetStats => 8,
        ToolKind::ExecCommand => 9,
        ToolKind::RemoveImage => 10,
        ToolKind::PullImage => 11,
        ToolKind::ListNetworks => 12,
        ToolKind::ListVolumes => 13,
    }
}

/// Whether a call supplies the argument of the given name with the JSON type
/// the catalogue declares for it.
pub open spec fn arg_supplied(args: ToolArgsView, param: Seq<char>) -> bool {
    if param == "container_id"@ {
        args.container_id is Some
    } else if param == "image_id"@ {
        args.image_id is Some
    } else if param == "image"@ {
        args.image is Some
    } else if param == "command"@ {
        args.command is Some
    } else {
        true
    }
}

proof fn lemma_catalogue_names(k: ToolKind)
    ensures
        spec_tool_def(k).name == kind_name(k),
        0 <= order_index(k) < tool_count(),
        tool_order()[order_index(k)] == k,
{
}

/// Every tool that `tools/list` advertises is handled by `tools/call`: a call
/// of an advertised name is never refused as an unknown tool.
pub proof fn advertised_tools_are_handled(i: int, args: ToolArgsView)
    requires
        0 <= i < tool_count(),
    ensures
        spec_plan(spec_tool_def(tool_order()[i]).name, args) != Err::<ActionView, ToolError>(
            ToolError::ToolNotFound,
        ),
{
    let k = tool_order()[i];
    lemma_catalogue_names(k);
    lemma_kind_name_roundtrip(k);
}

/// No two tools of the catalogue share a name, so a name calls one tool only.
pub proof fn catalogue_names_are_distinct(i: int, j: int)
    requires
        0 <= i < tool_count(),
        0 <= j < tool_count(),
        i != j,
    ensures
        spec_tool_def(tool_order()[i]).name != spec_tool_def(tool_order()[j]).name,
{
    let a = tool_order()[i];
    let b = tool_order()[j];
    lemma_catalogue_names(a);
    lemma_catalogue_names(b);
    lemma_kind_name_roundtrip(a);
    lemma_kind_name_roundtrip(b);
    assert(a != b);
}

/// `tools/call` handles no tool that `tools/list` leaves out: a call of any
/// other name is refused as an unknown tool.
pub proof fn unadvertised_tools_are_refused(name: Seq<char>, args: ToolArgsView)
    requires
        forall|i: int| 0 <= i < tool_count() ==> spec_tool_def(tool_order()[i]).name != name,
    ensures
        spec_plan(name, args) == Err::<ActionView, ToolError>(ToolError::ToolNotFound),
{
    if let Some(k) = tool_kind_of(name) {
        lemma_catalogue_names(k);
        assert(name == kind_name(k));
        assert(spec_tool_def(tool_order()[order_index(k)]).name == name);
    }
}

/// A call of an advertised tool is accepted exactly when it supplies every
/// argument that the tool's input schema lists as required.
pub proof fn required_arguments_decide_acceptance(i: int, args: ToolArgsView)
    requires
        0 <= i < tool_count(),
    ensures
        spec_plan(spec_tool_def(tool_order()[i]).name, args) is Ok <==> (forall|j: int|
            0 <= j < spec_tool_def(tool_order()[i]).required.len() ==> arg_supplied(
                args,
                #[trigger] spec_tool_def(tool_order()[i]).required[j],
            )),
{
    lemma_param_names();
    let k = tool_order()[i];
    let req = spec_tool_def(k).required;
    lemma_catalogue_names(k);
    lemma_kind_name_roundtrip(k);
    assert(req.len() <= 2);
    // Each tool's plan tests exactly the presence of its required arguments.
    let supplied = match k {
        ToolKind::ExecCommand => args.container_id is Some && args.command is Some,
        ToolKind::RemoveImage => args.image_id is Some,
        ToolKind::PullImage => args.image is Some,
        ToolKind::ListContainers | ToolKind::ListImages | ToolKind::ListNetworks
        | ToolKind::ListVolumes => true,
        _ => args.container_id is Some,
    };
    assert((spec_plan(kind_name(k), args) is Ok) == supplied);
    if forall|j: int| 0 <= j < req.len() ==> arg_supplied(args, #[trigger] req[j]) {
        if req.len() > 0 {
            assert(arg_supplied(args, req[0]));
        }
        if req.len() > 1 {
            assert(arg_supplied(args, req[1]));
        }
    }
    if supplied {
        assert forall|j: int| 0 <= j < req.len() implies arg_supplied(args, #[trigger] req[j]) by {
            assert(j == 0 || j == 1);
        }
    }
}

/// Whether two argument records agree on the argument of the given name.
pub open spec fn same_arg(a: ToolArgsView, b: ToolArgsView, param: Seq<char>) -> bool {
    if param == "container_id"@ {
        a.container_id == b.container_id
    } else if param == "tail"@ {
        a.tail == b.tail
    } else if param == "force"@ {
        a.force == b.force
    } else if param == "image_id"@ {
        a.image_id == b.image_id
    } else if param == "image"@ {
        a.image == b.image
    } else if param == "command"@ {
        a.command == b.command
    } else {
        true
    }
}

/// The argument record with the argument of the given name left out.
pub open spec fn without_arg(a: ToolArgsView, param: Seq<char>) -> ToolArgsView {
    if param == "container_id"@ {
        ToolArgsView { container_id: None, ..a }
    } else if param == "tail"@ {
        ToolArgsView { tail: None, ..a }
    } else if param == "force"@ {
        ToolArgsView { force: None, ..a }
    } else if param == "image_id"@ {
        ToolArgsView { image_id: None, ..a }
    } else if param == "image"@ {
        ToolArgsView { image: None, ..a }
    } else if param == "command"@ {
        ToolArgsView { command: None, ..a }
    } else {
        a
    }
}

/// The argument record with the argument of the given name set to a default value.
pub open spec fn with_default(a: ToolArgsView, param: Seq<char>, d: ParamDefault) -> ToolArgsView {
    match d {
        ParamDefault::Integer(n) => if param == "tail"@ {
            ToolArgsView { tail: Some(n), ..a }
        } else {
            a
        },
        ParamDefault::Boolean(b) => if param == "force"@ {
            ToolArgsView { force: Some(b), ..a }
        } else {
            a
        },
    }
}

/// An argument record that supplies every argument any tool reads, each with
/// a value other than its default.
pub open spec fn full_args() -> ToolArgsView {
    ToolArgsView {
        container_id: Some("c"@),
        tail: Some(1),
        force: Some(true),
        image_id: Some("i"@),
        image: Some("i"@),
        command: Some(seq![]),
    }
}

proof fn lemma_param_names()
    ensures
        "container_id"@.len() == 12 && "container_id"@[0] == 'c',
        "tail"@.len() == 4 && "tail"@[0] == 't',
        "force"@.len() == 5 && "force"@[0] == 'f',
        "image_id"@.len() == 8 && "image_id"@[0] == 'i',
        "image"@.len() == 5 && "image"@[0] == 'i',
        "command"@.len() == 7 && "command"@[0] == 'c',
{
    reveal_strlit("container_id");
    reveal_strlit("tail");
    reveal_strlit("force");
    reveal_strlit("image_id");
    reveal_strlit("image");
    reveal_strlit("command");
}

/// A call of an advertised tool reads no argument that the tool's input schema
/// leaves out: two calls whose arguments agree on every declared parameter are
/// handled alike.
pub proof fn calls_read_only_declared_arguments(i: int, a: ToolArgsView, b: ToolArgsView)
    requires
        0 <= i < tool_count(),
        forall|j: int|
            0 <= j < spec_tool_def(tool_order()[i]).params.len() ==> same_arg(
                a,
                b,
                #[trigger] spec_tool_def(tool_order()[i]).params[j].name,
            ),
    ensures
        spec_plan(spec_tool_def(tool_order()[i]).name, a) == spec_plan(
            spec_tool_def(tool_order()[i]).name,
            b,
        ),
{
    lemma_param_names();
    let k = tool_order()[i];
    let def = spec_tool_def(k);
    lemma_catalogue_names(k);
    lemma_kind_name_roundtrip(k);
    if def.params.len() > 0 {
        assert(same_arg(a, b, def.params[0].name));
    }
    if def.params.len() > 1 {
        assert(same_arg(a, b, def.params[1].name));
    }
}

/// A call of an advertised tool reads every parameter that the tool's input
/// schema declares: leaving any one of them out of a call that gives them all
/// changes how the call is handled.
pub proof fn calls_read_every_declared_argument(i: int, j: int)
    requires
        0 <= i < tool_count(),
        0 <= j < spec_tool_def(tool_order()[i]).params.len(),
    ensures
        spec_plan(spec_tool_def(tool_order()[i]).name, full_args()) != spec_plan(
            spec_tool_def(tool_order()[i]).name,
            without_arg(full_args(), spec_tool_def(tool_order()[i]).params[j].name),
        ),
{
    lemma_param_names();
    let k = tool_order()[i];
    lemma_catalogue_names(k);
    lemma_kind_name_roundtrip(k);
    assert(1u64 as usize != 50u64 as usize);
}

/// Leaving out a parameter for which the catalogue declares a default is the
/// same as giving that default.
pub proof fn absent_arguments_take_declared_defaults(i: int, j: int, a: ToolArgsView)
    requires
        0 <= i < tool_count(),
        0 <= j < spec_tool_def(tool_order()[i]).params.len(),
        spec_tool_def(tool_order()[i]).params[j].default is Some,
    ensures
        spec_plan(
            spec_tool_def(tool_order()[i]).name,
            without_arg(a, spec_tool_def(tool_order()[i]).params[j].name),
        ) == spec_plan(
            spec_tool_def(tool_order()[i]).name,
            with_default(
                a,
                spec_tool_def(tool_order()[i]).params[j].name,
                spec_tool_def(tool_order()[i]).params[j].default.unwrap(),
            ),
        ),
{
    lemma_param_names();
    let k = tool_order()[i];
    lemma_catalogue_names(k);
    lemma_kind_name_roundtrip(k);
}

} // verus!
