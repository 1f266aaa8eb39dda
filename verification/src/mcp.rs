//! The Model Context Protocol server's decisions: how a JSON-RPC request
//! is routed, which tools exist, and how the tools pick their answers.

use vstd::prelude::*;

use crate::model::vobe::Vobe;
use crate::text::{
    concat, contains, occurs_in, spec_to_lowercase, str_eq, to_lowercase,
};

verus! {

broadcast use vstd::string::group_string_axioms;

/// What the server does with a request.
#[derive(Clone, Debug, PartialEq, Eq)]
pub enum RpcAction {
    /// A notification: no reply.
    Ignore,
    /// Reply with the server's protocol version, capabilities and name.
    Initialize,
    /// Reply with an empty result.
    Ping,
    /// Reply with the list of tools.
    ListTools,
    /// Run a tool and reply with its text.
    CallTool,
    /// Reply with a "method not found" error (code -32601) and this message.
    NotFound(String),
}

/// The JSON-RPC error code for an unknown method.
pub const METHOD_NOT_FOUND: i64 = -32601;

/// The protocol version the server speaks.
pub const PROTOCOL_VERSION: &'static str = "2024-11-05";

/// The server's name.
pub const SERVER_NAME: &'static str = "vobes";

/// The server's version.
pub const SERVER_VERSION: &'static str = "0.1.0";

/// Whether a method is one the server answers.
pub open spec fn is_known_method(method: Seq<char>) -> bool {
    method == "initialize"@ || method == "ping"@ || method == "tools/list"@ || method
        == "tools/call"@
}

/// Route a request by its method (empty when absent) and whether it has
/// an id.
pub fn route(method: &str, has_id: bool) -> (r: RpcAction)
    ensures
        !has_id ==> r == RpcAction::Ignore,
        has_id && method@ == "initialize"@ ==> r == RpcAction::Initialize,
        has_id && method@ == "ping"@ ==> r == RpcAction::Ping,
        has_id && method@ == "tools/list"@ ==> r == RpcAction::ListTools,
        has_id && method@ == "tools/call"@ ==> r == RpcAction::CallTool,
        has_id && !is_known_method(method@) ==> (r matches RpcAction::NotFound(m) && m@
            == "method not found: "@ + method@),
{
    proof {
        reveal_strlit("initialize");
        reveal_strlit("ping");
        reveal_strlit("tools/list");
        reveal_strlit("tools/call");
        assert("tools/list"@[6] != "tools/call"@[6]);
        assert("ping"@.len() == 4);
        assert("initialize"@.len() == 10);
        assert("tools/list"@[0] != "initialize"@[0]);
        assert("tools/call"@[0] != "initialize"@[0]);
    }
    if !has_id {
        RpcAction::Ignore
    } else if str_eq(method, "initialize") {
        RpcAction::Initialize
    } else if str_eq(method, "ping") {
        RpcAction::Ping
    } else if str_eq(method, "tools/list") {
        RpcAction::ListTools
    } else if str_eq(method, "tools/call") {
        RpcAction::CallTool
    } else {
        RpcAction::NotFound(concat("method not found: ", method))
    }
}

/// The tools the server offers.
#[derive(Clone, Copy, Debug, PartialEq, Eq, Structural)]
pub enum Tool {
    /// Every tracked vobe (archived ones left out), most recently modified
    /// first.
    List,
    /// One vobe by name or path, with its recent activity.
    Show,
    /// Vobes whose name contains a text, ignoring case.
    Search,
    /// The most recent activity across all vobes.
    RecentActivity,
    /// A context pack for one vobe.
    Context,
}

/// The tool a name calls for.
pub open spec fn spec_tool_named(name: Seq<char>) -> Option<Tool> {
    if name == "vobes_list"@ {
        Some(Tool::List)
    } else if name == "vobes_show"@ {
        Some(Tool::Show)
    } else if name == "vobes_search"@ {
        Some(Tool::Search)
    } else if name == "vobes_recent_activity"@ {
        Some(Tool::RecentActivity)
    } else if name == "vobes_context"@ {
        Some(Tool::Context)
    } else {
        None
    }
}

/// The tool a call names (empty when absent); an unknown one is an error
/// whose message names it.
pub fn tool_named(name: &str) -> (r: Result<Tool, String>)
    ensures
        match r {
            Ok(t) => spec_tool_named(name@) == Some(t),
            Err(m) => spec_tool_named(name@) is None && m@ == "unknown tool: "@ + name@,
        },
{
    if str_eq(name, "vobes_list") {
        Ok(Tool::List)
    } else if str_eq(name, "vobes_show") {
        Ok(Tool::Show)
    } else if str_eq(name, "vobes_search") {
        Ok(Tool::Search)
    } else if str_eq(name, "vobes_recent_activity") {
        Ok(Tool::RecentActivity)
    } else if str_eq(name, "vobes_context") {
        Ok(Tool::Context)
    } else {
        Err(concat("unknown tool: ", name))
    }
}

/// One input parameter of a tool.
#[derive(Clone, Debug, PartialEq, Eq)]
pub struct ToolParam {
    /// Parameter name.
    pub name: &'static str,
    /// JSON type: `string` or `integer`.
    pub kind: &'static str,
    /// What it means.
    pub description: &'static str,
    /// Whether the call must give it.
    pub required: bool,
    /// Its default, for an integer parameter that has one.
    pub default: Option<u64>,
}

/// A tool as it is described to clients.
#[derive(Clone, Debug, PartialEq, Eq)]
pub struct ToolSpec {
    /// Tool name.
    pub name: &'static str,
    /// What it does.
    pub description: &'static str,
    /// Its parameters (the input schema is an object with these).
    pub params: Vec<ToolParam>,
}

/// The tools in the order they are listed, by name, with the names of
/// their parameters and which are required.
pub open spec fn spec_tool_shape() -> Seq<(Seq<char>, Seq<(Seq<char>, bool)>)> {
    seq![
        ("vobes_list"@, Seq::empty()),
        ("vobes_show"@, seq![("name"@, true)]),
        ("vobes_search"@, seq![("query"@, true)]),
        ("vobes_recent_activity"@, seq![("limit"@, false)]),
        ("vobes_context"@, seq![("name"@, true)]),
    ]
}

/// The shape of a listed tool: its name, and its parameters' names and
/// whether each is required.
pub open spec fn shape_of(t: ToolSpec) -> (Seq<char>, Seq<(Seq<char>, bool)>) {
    (t.name@, t.params@.map_values(|p: ToolParam| (p.name@, p.required)))
}

/// Everything a client is told of a parameter: name, JSON type,
/// description, whether it is required, and its default.
pub open spec fn param_view(p: ToolParam) -> (Seq<char>, Seq<char>, Seq<char>, bool, Option<u64>) {
    (p.name@, p.kind@, p.description@, p.required, p.default)
}

/// Everything a client is told of a tool: name, description, parameters.
pub open spec fn tool_view(t: ToolSpec) -> (
    Seq<char>,
    Seq<char>,
    Seq<(Seq<char>, Seq<char>, Seq<char>, bool, Option<u64>)>,
) {
    (t.name@, t.description@, t.params@.map_values(|p: ToolParam| param_view(p)))
}

/// The tools as listed, in full.
pub open spec fn spec_tools() -> Seq<
    (Seq<char>, Seq<char>, Seq<(Seq<char>, Seq<char>, Seq<char>, bool, Option<u64>)>),
> {
    seq![
        ("vobes_list"@, "List all tracked Vobes (projects) with git and metadata."@, Seq::empty()),
        (
            "vobes_show"@,
            "Get full detail for one Vobe by name or path."@,
            seq![("name"@, "string"@, "Vobe name or absolute/relative path"@, true, None)],
        ),
        (
            "vobes_search"@,
            "Search Vobes by case-insensitive name substring."@,
            seq![("query"@, "string"@, "Substring to match against vobe names"@, true, None)],
        ),
        (
            "vobes_recent_activity"@,
            "Return the most recent activity events across all Vobes."@,
            seq![("limit"@, "integer"@, "Max events (default 20)"@, false, Some(20u64))],
        ),
        (
            "vobes_context"@,
            "Return a self-contained context pack for one Vobe: full record, recent activity, and top-level directory entries."@,
            seq![("name"@, "string"@, "Vobe name or path"@, true, None)],
        ),
    ]
}

/// A parameter.
fn param(
    name: &'static str,
    kind: &'static str,
    description: &'static str,
    required: bool,
    default: Option<u64>,
) -> (p: ToolParam)
    ensures
        p == (ToolParam { name, kind, description, required, default }),
{
    ToolParam { name, kind, description, required, default }
}

/// The tools the server lists, in order. Only `vobes_recent_activity`'s
/// `limit` is optional; it is an integer defaulting to 20, and the other
/// parameters are strings.
pub fn tool_specs() -> (r: Vec<ToolSpec>)
    ensures
        r@.map_values(|t: ToolSpec| tool_view(t)) == spec_tools(),
        r@.map_values(|t: ToolSpec| shape_of(t)) == spec_tool_shape(),
        r@[3].params@[0].kind@ == "integer"@,
        r@[3].params@[0].default == Some(20u64),
        forall|i: int, j: int|
            0 <= i < r@.len() && i != 3 && 0 <= j < r@[i].params@.len() ==> (#[trigger] r@[i].params@[j]).kind@
                == "string"@ && r@[i].params@[j].default is None,
{
    let mut r: Vec<ToolSpec> = Vec::new();
    r.push(
        ToolSpec {
            name: "vobes_list",
            description: "List all tracked Vobes (projects) with git and metadata.",
            params: Vec::new(),
        },
    );
    let mut show: Vec<ToolParam> = Vec::new();
    show.push(param("name", "string", "Vobe name or absolute/relative path", true, None));
    r.push(
        ToolSpec {
            name: "vobes_show",
            description: "Get full detail for one Vobe by name or path.",
            params: show,
        },
    );
    let mut search: Vec<ToolParam> = Vec::new();
    search.push(param("query", "string", "Substring to match against vobe names", true, None));
    r.push(
        ToolSpec {
            name: "vobes_search",
            description: "Search Vobes by case-insensitive name substring.",
            params: search,
        },
    );
    let mut recent: Vec<ToolParam> = Vec::new();
    recent.push(param("limit", "integer", "Max events (default 20)", false, Some(20)));
    r.push(
        ToolSpec {
            name: "vobes_recent_activity",
            description: "Return the most recent activity events across all Vobes.",
            params: recent,
        },
    );
    let mut context: Vec<ToolParam> = Vec::new();
    context.push(param("name", "string", "Vobe name or path", true, None));
    r.push(
        ToolSpec {
            name: "vobes_context",
            description: "Return a self-contained context pack for one Vobe: full record, recent activity, and top-level directory entries.",
            params: context,
        },
    );
    assert(r@.map_values(|t: ToolSpec| shape_of(t)) =~= spec_tool_shape()) by {
        assert(r@[0].params@.map_values(|p: ToolParam| (p.name@, p.required)) =~= Seq::<
            (Seq<char>, bool),
        >::empty());
        assert(r@[1].params@.map_values(|p: ToolParam| (p.name@, p.required)) =~= seq![
            ("name"@, true),
        ]);
        assert(r@[2].params@.map_values(|p: ToolParam| (p.name@, p.required)) =~= seq![
            ("query"@, true),
        ]);
        assert(r@[3].params@.map_values(|p: ToolParam| (p.name@, p.required)) =~= seq![
            ("limit"@, false),
        ]);
        assert(r@[4].params@.map_values(|p: ToolParam| (p.name@, p.required)) =~= seq![
            ("name"@, true),
        ]);
    }
    assert(r@.map_values(|t: ToolSpec| tool_view(t)) =~= spec_tools()) by {
        assert(r@[0].params@.map_values(|p: ToolParam| param_view(p)) =~= Seq::<
            (Seq<char>, Seq<char>, Seq<char>, bool, Option<u64>),
        >::empty());
        assert(r@[1].params@.map_values(|p: ToolParam| param_view(p)) =~= spec_tools()[1].2);
        assert(r@[2].params@.map_values(|p: ToolParam| param_view(p)) =~= spec_tools()[2].2);
        assert(r@[3].params@.map_values(|p: ToolParam| param_view(p)) =~= spec_tools()[3].2);
        assert(r@[4].params@.map_values(|p: ToolParam| param_view(p)) =~= spec_tools()[4].2);
    }
    r
}

/// How many events the recent-activity tool returns: the `limit`
/// argument when it is a non-negative integer, else 20.
pub fn recent_limit(arg: Option<u64>) -> (r: usize)
    ensures
        r == (match arg {
            Some(l) => l as usize,
            None => 20usize,
        }),
{
    match arg {
        Some(l) => l as usize,
        None => 20,
    }
}

/// The error for a missing string argument.
pub fn missing_argument(key: &str) -> (r: String)
    ensures
        r@ == "missing string argument: "@ + key@,
{
    concat("missing string argument: ", key)
}

/// The error for a vobe that cannot be found.
pub fn vobe_not_found(name: &str) -> (r: String)
    ensures
        r@ == "vobe not found: "@ + name@,
{
    concat("vobe not found: ", name)
}

/// A vobe's name matches a search: the lowercased query occurs in the
/// lowercased name.
pub open spec fn name_matches(v: Vobe, query: Seq<char>) -> bool {
    occurs_in(spec_to_lowercase(query), spec_to_lowercase(v.name@))
}

/// The vobes of `s` whose name matches, in order.
pub open spec fn spec_search(s: Seq<Vobe>, query: Seq<char>) -> Seq<Vobe>
    decreases s.len(),
{
    if s.len() == 0 {
        s
    } else if name_matches(s.last(), query) {
        spec_search(s.drop_last(), query).push(s.last())
    } else {
        spec_search(s.drop_last(), query)
    }
}

/// The same vobes, in order (tags compared as texts).
pub open spec fn same_vobes(a: Seq<Vobe>, b: Seq<Vobe>) -> bool {
    &&& a.len() == b.len()
    &&& forall|i: int| 0 <= i < a.len() ==> (#[trigger] a[i]).same_as(b[i])
}

/// The vobes whose name contains the query, ignoring case, in the order
/// given.
pub fn search_by_name(vobes: &[Vobe], query: &str) -> (r: Vec<Vobe>)
    ensures
        same_vobes(r@, spec_search(vobes@, query@)),
{
    let q = to_lowercase(query);
    let mut out: Vec<Vobe> = Vec::new();
    let mut i: usize = 0;
    while i < vobes.len()
        invariant
            i <= vobes@.len(),
            q@ == spec_to_lowercase(query@),
            same_vobes(out@, spec_search(vobes@.take(i as int), query@)),
        decreases vobes@.len() - i,
    {
        proof {
            assert(vobes@.take(i + 1).drop_last() =~= vobes@.take(i as int));
        }
        let name = to_lowercase(vobes[i].name.as_str());
        if contains(name.as_str(), q.as_str()) {
            out.push(vobes[i].copied());
        }
        i = i + 1;
    }
    assert(vobes@.take(vobes@.len() as int) =~= vobes@);
    out
}

/// The tools listed are exactly the tools that can be called: the listed
/// names, in order, call `List`, `Show`, `Search`, `RecentActivity` and
/// `Context`, each tool once.
pub proof fn law_listed_tools_are_callable()
    ensures
        spec_tool_shape().map_values(
            |e: (Seq<char>, Seq<(Seq<char>, bool)>)| spec_tool_named(e.0),
        ) == seq![
            Some(Tool::List),
            Some(Tool::Show),
            Some(Tool::Search),
            Some(Tool::RecentActivity),
            Some(Tool::Context),
        ],
{
    reveal_strlit("vobes_list");
    reveal_strlit("vobes_show");
    reveal_strlit("vobes_search");
    reveal_strlit("vobes_recent_activity");
    reveal_strlit("vobes_context");
    let shape = spec_tool_shape();
    assert("vobes_list"@.len() == 10);
    assert("vobes_show"@.len() == 10);
    assert("vobes_search"@.len() == 12);
    assert("vobes_recent_activity"@.len() == 21);
    assert("vobes_context"@.len() == 13);
    assert(spec_tool_named(shape[0].0) == Some(Tool::List));
    assert("vobes_show"@[6] != "vobes_list"@[6]);
    assert(shape[1].0 != "vobes_list"@);
    assert(spec_tool_named(shape[1].0) == Some(Tool::Show));
    assert(shape[2].0 != "vobes_list"@);
    assert(shape[2].0 != "vobes_show"@);
    assert(spec_tool_named(shape[2].0) == Some(Tool::Search));
    assert(shape[3].0 != "vobes_list"@);
    assert(shape[3].0 != "vobes_show"@);
    assert(shape[3].0 != "vobes_search"@);
    assert(spec_tool_named(shape[3].0) == Some(Tool::RecentActivity));
    assert(shape[4].0 != "vobes_list"@);
    assert(shape[4].0 != "vobes_show"@);
    assert(shape[4].0 != "vobes_search"@);
    assert(shape[4].0 != "vobes_recent_activity"@);
    assert(spec_tool_named(shape[4].0) == Some(Tool::Context));
    assert(shape.map_values(|e: (Seq<char>, Seq<(Seq<char>, bool)>)| spec_tool_named(e.0)) =~= seq![
        Some(Tool::List),
        Some(Tool::Show),
        Some(Tool::Search),
        Some(Tool::RecentActivity),
        Some(Tool::Context),
    ]);
}

} // verus!
