//! The HTTP surface: which endpoint a method and a path lead to.

use crate::text::{chars_of, has_prefix, occurs_at, same_text, string_of};
use vstd::prelude::*;
use vstd::slice::slice_subrange;

verus! {

/// The methods that the gateway answers.
#[derive(Clone, Copy, Debug, PartialEq, Eq, Structural)]
pub enum Method {
    Get,
    Post,
}

/// The endpoints of the gateway.
#[derive(Clone, Copy, Debug, PartialEq, Eq, Structural)]
pub enum Endpoint {
    /// `GET /v1/models`
    Models,
    /// `POST /v1/completions`
    Completions,
    /// `POST /v1/chat/completions`
    ChatCompletions,
    /// `GET /v1/health`
    Health,
    /// `GET /list`
    List,
    /// `GET /discover`
    Discover,
    /// `GET /load/{model}`
    Load,
    /// `GET /unload/{model}`
    Unload,
    /// `POST /infer`
    Infer,
    /// `POST /chat`
    Chat,
}

/// Where a request leads: the endpoint, and the model that the path names
/// where the endpoint takes one.
#[derive(Debug, Clone, PartialEq, Eq)]
pub struct Route {
    pub endpoint: Endpoint,
    pub model: Option<String>,
}

/// What stands before the model in the path of a request to load one.
pub const LOAD_PREFIX: &'static str = "/load/";

/// What stands before the model in the path of a request to unload one.
pub const UNLOAD_PREFIX: &'static str = "/unload/";

/// The endpoint of a method and a path, and the model named in the path.
/// The model of a load or an unload is all that follows the prefix, with
/// any `/` or `:` in it. Any other method or path leads nowhere.
pub open spec fn routed(method: Method, path: Seq<char>) -> Option<(Endpoint, Option<Seq<char>>)> {
    match method {
        Method::Get => if path == "/v1/models"@ {
            Some((Endpoint::Models, None))
        } else if path == "/v1/health"@ {
            Some((Endpoint::Health, None))
        } else if path == "/list"@ {
            Some((Endpoint::List, None))
        } else if path == "/discover"@ {
            Some((Endpoint::Discover, None))
        } else if occurs_at(path, LOAD_PREFIX@, 0) {
            Some((Endpoint::Load, Some(path.skip(LOAD_PREFIX@.len() as int))))
        } else if occurs_at(path, UNLOAD_PREFIX@, 0) {
            Some((Endpoint::Unload, Some(path.skip(UNLOAD_PREFIX@.len() as int))))
        } else {
            None
        },
        Method::Post => if path == "/v1/completions"@ {
            Some((Endpoint::Completions, None))
        } else if path == "/v1/chat/completions"@ {
            Some((Endpoint::ChatCompletions, None))
        } else if path == "/infer"@ {
            Some((Endpoint::Infer, None))
        } else if path == "/chat"@ {
            Some((Endpoint::Chat, None))
        } else {
            None
        },
    }
}

/// The view of a route.
pub open spec fn route_view(route: Option<Route>) -> Option<(Endpoint, Option<Seq<char>>)> {
    match route {
        Some(r) => Some(
            (
                r.endpoint,
                match r.model {
                    Some(m) => Some(m@),
                    None => None,
                },
            ),
        ),
        None => None,
    }
}

fn plain(endpoint: Endpoint) -> (route: Option<Route>)
    ensures
        route_view(route) == Some((endpoint, None::<Seq<char>>)),
{
    Some(Route { endpoint, model: None })
}

fn tail_after(path: &str, prefix: &str) -> (tail: Option<String>)
    ensures
        match tail {
            Some(t) => occurs_at(path@, prefix@, 0) && t@ == path@.skip(prefix@.len() as int),
            None => !occurs_at(path@, prefix@, 0),
        },
{
    let p = chars_of(path);
    let pre = chars_of(prefix);
    if has_prefix(p.as_slice(), pre.as_slice()) {
        let rest = slice_subrange(p.as_slice(), pre.len(), p.len());
        assert(rest@ =~= path@.skip(prefix@.len() as int));
        Some(string_of(rest))
    } else {
        None
    }
}

/// Finds the endpoint of a request.
pub fn resolve(method: Method, path: &str) -> (route: Option<Route>)
    ensures
        route_view(route) == routed(method, path@),
{
    match method {
        Method::Get => {
            if same_text(path, "/v1/models") {
                plain(Endpoint::Models)
            } else if same_text(path, "/v1/health") {
                plain(Endpoint::Health)
            } else if same_text(path, "/list") {
                plain(Endpoint::List)
            } else if same_text(path, "/discover") {
                plain(Endpoint::Discover)
            } else {
                match tail_after(path, LOAD_PREFIX) {
                    Some(model) => Some(Route { endpoint: Endpoint::Load, model: Some(model) }),
                    None => match tail_after(path, UNLOAD_PREFIX) {
                        Some(model) => Some(
                            Route { endpoint: Endpoint::Unload, model: Some(model) },
                        ),
                        None => None,
                    },
                }
            }
        },
        Method::Post => {
            if same_text(path, "/v1/completions") {
                plain(Endpoint::Completions)
            } else if same_text(path, "/v1/chat/completions") {
                plain(Endpoint::ChatCompletions)
            } else if same_text(path, "/infer") {
                plain(Endpoint::Infer)
            } else if same_text(path, "/chat") {
                plain(Endpoint::Chat)
            } else {
                None
            }
        },
    }
}

/// One line of a route table: a method, a path, and the endpoint behind
/// them. For an endpoint that takes a model the path is the prefix that the
/// model follows.
#[derive(Debug, Clone, PartialEq, Eq)]
pub struct RouteSpec {
    pub method: Method,
    pub path: String,
    pub endpoint: Endpoint,
}

/// Whether a line of a route table agrees with the routes: its method and
/// path lead to its endpoint.
pub open spec fn is_route(spec: RouteSpec) -> bool {
    routed(spec.method, spec.path@) matches Some(found) && found.0 == spec.endpoint
}

fn line(method: Method, path: &str, endpoint: Endpoint) -> (spec: RouteSpec)
    ensures
        spec.method == method,
        spec.path@ == path@,
        spec.endpoint == endpoint,
{
    RouteSpec { method, path: path.to_owned(), endpoint }
}

/// The method, path and endpoint of each line of a table.
pub open spec fn lines(table: Seq<RouteSpec>) -> Seq<(Method, Seq<char>, Endpoint)> {
    table.map_values(|spec: RouteSpec| (spec.method, spec.path@, spec.endpoint))
}

/// The lines of the OpenAI-compatible dialect.
pub open spec fn openai_lines() -> Seq<(Method, Seq<char>, Endpoint)> {
    seq![
        (Method::Get, "/v1/models"@, Endpoint::Models),
        (Method::Post, "/v1/completions"@, Endpoint::Completions),
        (Method::Post, "/v1/chat/completions"@, Endpoint::ChatCompletions),
        (Method::Get, "/v1/health"@, Endpoint::Health),
    ]
}

/// The lines of the native dialect.
pub open spec fn native_lines() -> Seq<(Method, Seq<char>, Endpoint)> {
    seq![
        (Method::Get, LOAD_PREFIX@, Endpoint::Load),
        (Method::Get, UNLOAD_PREFIX@, Endpoint::Unload),
        (Method::Get, "/list"@, Endpoint::List),
        (Method::Post, "/infer"@, Endpoint::Infer),
        (Method::Post, "/chat"@, Endpoint::Chat),
        (Method::Get, "/discover"@, Endpoint::Discover),
    ]
}

/// The routes of the OpenAI-compatible dialect.
pub fn openai_config() -> (table: Vec<RouteSpec>)
    ensures
        lines(table@) == openai_lines(),
        table@.len() == 4,
        forall|i: int| 0 <= i < table@.len() ==> is_route(#[trigger] table@[i]),
        table@[0].endpoint == Endpoint::Models,
        table@[1].endpoint == Endpoint::Completions,
        table@[2].endpoint == Endpoint::ChatCompletions,
        table@[3].endpoint == Endpoint::Health,
{
    let mut table: Vec<RouteSpec> = Vec::new();
    table.push(line(Method::Get, "/v1/models", Endpoint::Models));
    table.push(line(Method::Post, "/v1/completions", Endpoint::Completions));
    table.push(line(Method::Post, "/v1/chat/completions", Endpoint::ChatCompletions));
    table.push(line(Method::Get, "/v1/health", Endpoint::Health));
    proof {
        lemma_fixed_routes();
        assert(lines(table@) =~= openai_lines());
    }
    table
}

/// The routes of the native dialect.
pub fn tlama_config() -> (table: Vec<RouteSpec>)
    ensures
        lines(table@) == native_lines(),
        table@.len() == 6,
        forall|i: int| 0 <= i < table@.len() ==> is_route(#[trigger] table@[i]),
        table@[0].endpoint == Endpoint::Load,
        table@[1].endpoint == Endpoint::Unload,
        table@[2].endpoint == Endpoint::List,
        table@[3].endpoint == Endpoint::Infer,
        table@[4].endpoint == Endpoint::Chat,
        table@[5].endpoint == Endpoint::Discover,
{
    let mut table: Vec<RouteSpec> = Vec::new();
    table.push(line(Method::Get, LOAD_PREFIX, Endpoint::Load));
    table.push(line(Method::Get, UNLOAD_PREFIX, Endpoint::Unload));
    table.push(line(Method::Get, "/list", Endpoint::List));
    table.push(line(Method::Post, "/infer", Endpoint::Infer));
    table.push(line(Method::Post, "/chat", Endpoint::Chat));
    table.push(line(Method::Get, "/discover", Endpoint::Discover));
    proof {
        lemma_fixed_routes();
        assert(lines(table@) =~= native_lines());
    }
    table
}

/// The routes of the native dialect where every handle stands behind a
/// lock of its own: the table of the native dialect, line for line.
pub fn rllama_config() -> (table: Vec<RouteSpec>)
    ensures
        lines(table@) == native_lines(),
        table@.len() == 6,
        forall|i: int| 0 <= i < table@.len() ==> is_route(#[trigger] table@[i]),
        table@[0].endpoint == Endpoint::Load,
        table@[1].endpoint == Endpoint::Unload,
        table@[2].endpoint == Endpoint::List,
        table@[3].endpoint == Endpoint::Infer,
        table@[4].endpoint == Endpoint::Chat,
        table@[5].endpoint == Endpoint::Discover,
{
    tlama_config()
}

/// Each fixed path leads to its endpoint, and each prefix alone to the
/// endpoint that takes a model.
pub proof fn lemma_fixed_routes()
    ensures
        routed(Method::Get, "/v1/models"@) == Some((Endpoint::Models, None::<Seq<char>>)),
        routed(Method::Post, "/v1/completions"@) == Some(
            (Endpoint::Completions, None::<Seq<char>>),
        ),
        routed(Method::Post, "/v1/chat/completions"@) == Some(
            (Endpoint::ChatCompletions, None::<Seq<char>>),
        ),
        routed(Method::Get, "/v1/health"@) == Some((Endpoint::Health, None::<Seq<char>>)),
        routed(Method::Get, "/list"@) == Some((Endpoint::List, None::<Seq<char>>)),
        routed(Method::Get, "/discover"@) == Some((Endpoint::Discover, None::<Seq<char>>)),
        routed(Method::Post, "/infer"@) == Some((Endpoint::Infer, None::<Seq<char>>)),
        routed(Method::Post, "/chat"@) == Some((Endpoint::Chat, None::<Seq<char>>)),
        routed(Method::Get, LOAD_PREFIX@) == Some((Endpoint::Load, Some(Seq::<char>::empty()))),
        routed(Method::Get, UNLOAD_PREFIX@) == Some(
            (Endpoint::Unload, Some(Seq::<char>::empty())),
        ),
{
    reveal_strlit("/v1/models");
    reveal_strlit("/v1/completions");
    reveal_strlit("/v1/chat/completions");
    reveal_strlit("/v1/health");
    reveal_strlit("/list");
    reveal_strlit("/discover");
    reveal_strlit("/infer");
    reveal_strlit("/chat");
    reveal_strlit("/load/");
    reveal_strlit("/unload/");
    assert("/v1/health"@ != "/v1/models"@) by {
        assert("/v1/health"@[4] != "/v1/models"@[4]);
    }
    assert("/list"@.len() != "/v1/models"@.len());
    assert("/list"@.len() != "/v1/health"@.len());
    assert("/discover"@.len() != "/v1/models"@.len());
    assert("/discover"@.len() != "/v1/health"@.len());
    assert("/discover"@.len() != "/list"@.len());
    assert("/v1/chat/completions"@.len() != "/v1/completions"@.len());
    assert("/infer"@.len() != "/v1/completions"@.len());
    assert("/infer"@.len() != "/v1/chat/completions"@.len());
    assert("/chat"@.len() != "/v1/completions"@.len());
    assert("/chat"@.len() != "/v1/chat/completions"@.len());
    assert("/chat"@.len() != "/infer"@.len());
    let load = LOAD_PREFIX@;
    let unload = UNLOAD_PREFIX@;
    assert(load.len() == 6 && unload.len() == 8);
    assert(load.subrange(0, 6) =~= load);
    assert(unload.subrange(0, 8) =~= unload);
    assert(load.skip(6) =~= Seq::<char>::empty());
    assert(unload.skip(8) =~= Seq::<char>::empty());
    assert(!occurs_at(unload, load, 0)) by {
        assert(unload.subrange(0, 6)[1] == 'u');
        assert(load[1] == 'l');
    }
    assert(load != "/v1/models"@ && load != "/v1/health"@ && load != "/discover"@);
    assert(load != "/list"@);
    assert(unload != "/v1/models"@ && unload != "/v1/health"@ && unload != "/list"@);
    assert(unload != "/discover"@) by {
        assert(unload[1] != "/discover"@[1]);
    }
}

/// Whether an endpoint speaks the OpenAI-compatible dialect.
pub fn is_openai(endpoint: Endpoint) -> (yes: bool)
    ensures
        yes == (endpoint == Endpoint::Models || endpoint == Endpoint::Completions || endpoint
            == Endpoint::ChatCompletions || endpoint == Endpoint::Health),
{
    match endpoint {
        Endpoint::Models => true,
        Endpoint::Completions => true,
        Endpoint::ChatCompletions => true,
        Endpoint::Health => true,
        _ => false,
    }
}

} // verus!
