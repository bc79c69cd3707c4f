//! The decisions of the JSON-RPC endpoint: which method a request names,
//! which session ids are kept and echoed, and which tool call a
//! `tools/call` request asks for.
use vstd::prelude::*;
use vstd::string::*;

use crate::args::{ArgValue, get, member, as_text};
use crate::text::{str_eq, owned, concat2};
use crate::tools::{ToolCall, ToolCallModel, dispatch, dispatch_model};

verus! {

/// The JSON-RPC error code of an unknown method.
pub const METHOD_NOT_FOUND: i32 = -32601;

/// The methods that the endpoint tells apart.
#[derive(Clone, Copy, PartialEq, Eq, Structural, Debug)]
pub enum RpcRoute {
    /// `initialize`: opens a session.
    Initialize,
    /// `notifications/initialized`: acknowledged without a body.
    Initialized,
    /// `ping`: answered with an empty result.
    Ping,
    /// `tools/list`: answered with the tool list.
    ToolsList,
    /// `tools/call`: carries out one tool call.
    ToolsCall,
    /// Any other method: answered with an error.
    NotFound,
}

/// The route of a method name.
pub open spec fn route_model(method: Seq<char>) -> RpcRoute {
    if method == "initialize"@ {
        RpcRoute::Initialize
    } else if method == "notifications/initialized"@ {
        RpcRoute::Initialized
    } else if method == "ping"@ {
        RpcRoute::Ping
    } else if method == "tools/list"@ {
        RpcRoute::ToolsList
    } else if method == "tools/call"@ {
        RpcRoute::ToolsCall
    } else {
        RpcRoute::NotFound
    }
}

/// The route of the method `method`.
pub fn route_method(method: &str) -> (r: RpcRoute)
    ensures
        r == route_model(method@),
{
    if str_eq(method, "initialize") {
        RpcRoute::Initialize
    } else if str_eq(method, "notifications/initialized") {
        RpcRoute::Initialized
    } else if str_eq(method, "ping") {
        RpcRoute::Ping
    } else if str_eq(method, "tools/list") {
        RpcRoute::ToolsList
    } else if str_eq(method, "tools/call") {
        RpcRoute::ToolsCall
    } else {
        RpcRoute::NotFound
    }
}

/// The method that a request body names: its `method` member when that is
/// a string, otherwise the empty string.
pub open spec fn request_method_model(body: ArgValue) -> Seq<char> {
    match member(body, "method"@) {
        Some(v) => match as_text(v) {
            Some(t) => t,
            None => seq![],
        },
        None => seq![],
    }
}

/// The method that the request `body` names.
pub fn request_method(body: &ArgValue) -> (r: &str)
    ensures
        r@ == request_method_model(*body),
{
    match get(body, "method") {
        Some(ArgValue::Str(s)) => s.as_str(),
        _ => {
            proof {
                reveal_strlit("");
            }
            ""
        },
    }
}

/// The message of an unknown method.
pub fn method_not_found_message(method: &str) -> (r: String)
    ensures
        r@ == "method not found: "@ + method@,
{
    concat2("method not found: ", method)
}

/// The tool name of a `tools/call` request: `params.name` when that is a
/// string, otherwise the empty string.
pub open spec fn call_name_model(body: ArgValue) -> Seq<char> {
    match member(body, "params"@) {
        Some(p) => match member(p, "name"@) {
            Some(n) => match as_text(n) {
                Some(t) => t,
                None => seq![],
            },
            None => seq![],
        },
        None => seq![],
    }
}

/// The arguments of a `tools/call` request: `params.arguments`.  A request
/// without them is read as an empty object; `Null` stands for that here, as
/// a value that has no members either.
pub open spec fn call_arguments_model(body: ArgValue) -> ArgValue {
    match member(body, "params"@) {
        Some(p) => match member(p, "arguments"@) {
            Some(a) => a,
            None => ArgValue::Null,
        },
        None => ArgValue::Null,
    }
}

/// Dispatch reads its arguments through their members alone: two values
/// without members give the same call.
proof fn lemma_dispatch_memberless(name: Seq<char>, a: ArgValue, b: ArgValue, exec_enabled: bool)
    requires
        forall|k: Seq<char>| member(a, k) is None,
        forall|k: Seq<char>| member(b, k) is None,
    ensures
        dispatch_model(name, a, exec_enabled) == dispatch_model(name, b, exec_enabled),
{
}

/// The tool call that a `tools/call` request asks for.
pub open spec fn tool_request_model(body: ArgValue, exec_enabled: bool) -> Result<ToolCallModel, Seq<char>> {
    dispatch_model(call_name_model(body), call_arguments_model(body), exec_enabled)
}

/// The tool call that the `tools/call` request `body` asks for; the shell
/// tool is offered only when `exec_enabled` holds.
pub fn tool_request(body: &ArgValue, exec_enabled: bool) -> (r: Result<ToolCall, String>)
    ensures
        match r {
            Ok(c) => tool_request_model(*body, exec_enabled) == Ok::<ToolCallModel, Seq<char>>(c@),
            Err(e) => tool_request_model(*body, exec_enabled) == Err::<ToolCallModel, Seq<char>>(e@),
        },
{
    proof {
        reveal_strlit("");
    }
    let params = get(body, "params");
    let name: &str = match params {
        Some(p) => match get(p, "name") {
            Some(ArgValue::Str(s)) => s.as_str(),
            _ => "",
        },
        None => "",
    };
    let empty = ArgValue::Object(Vec::new());
    let args: &ArgValue = match params {
        Some(p) => match get(p, "arguments") {
            Some(a) => a,
            None => &empty,
        },
        None => &empty,
    };
    proof {
        assert forall|k: Seq<char>| member(empty, k) is None by {
            assert(empty->Object_0@.len() == 0);
        }
        lemma_dispatch_memberless(name@, empty, ArgValue::Null, exec_enabled);
        assert(name@ == call_name_model(*body));
        if *args != call_arguments_model(*body) {
            assert(*args == empty);
            assert(call_arguments_model(*body) == ArgValue::Null);
        }
    }
    dispatch(name, args, exec_enabled)
}

// ---------------------------------------------------------------------------
// Sessions
// ---------------------------------------------------------------------------

/// What the endpoint does with session ids for one request: the id it
/// keeps in its session set, and the id it sends back in the session
/// header.
pub struct SessionPlan {
    pub register: Option<String>,
    pub reply: Option<String>,
}

/// The view of an optional string.
pub open spec fn opt_text(o: Option<String>) -> Option<Seq<char>> {
    match o {
        Some(s) => Some(s@),
        None => None,
    }
}

/// The view of an optional string slice.
pub open spec fn opt_str_text(o: Option<&str>) -> Option<Seq<char>> {
    match o {
        Some(s) => Some(s@),
        None => None,
    }
}

/// The session ids of a request with route `route` that came with the
/// session header `incoming`: `initialize` opens the session `fresh`, kept
/// and sent back, whatever came in; every other request keeps the id that
/// came in, and sends it back except on the `initialized` notification,
/// which is answered without headers.
pub fn plan_sessions(route: RpcRoute, incoming: Option<&str>, fresh: &str) -> (p: SessionPlan)
    ensures
        route == RpcRoute::Initialize ==> {
            &&& opt_text(p.register) == Some(fresh@)
            &&& opt_text(p.reply) == Some(fresh@)
        },
        route != RpcRoute::Initialize ==> {
            &&& opt_text(p.register) == opt_str_text(incoming)
            &&& opt_text(p.reply) == if route == RpcRoute::Initialized {
                None
            } else {
                opt_str_text(incoming)
            }
        },
{
    if route == RpcRoute::Initialize {
        SessionPlan { register: Some(owned(fresh)), reply: Some(owned(fresh)) }
    } else {
        let register = match incoming {
            Some(s) => Some(owned(s)),
            None => None,
        };
        let reply = if route == RpcRoute::Initialized {
            None
        } else {
            match incoming {
                Some(s) => Some(owned(s)),
                None => None,
            }
        };
        SessionPlan { register, reply }
    }
}

} // verus!
