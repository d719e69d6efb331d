//! Routes of the transit network: the domain record, the closed set of
//! ways to ask for routes, and the mapping of each query to its wire
//! request.

use vstd::prelude::*;
use crate::{Error, params_view, push_param};
use crate::json::{json_model, json_parse, req_array, req_string, spec_array_member,
    spec_json_parse, spec_list_of, spec_text_member, JsonModel};
use crate::wiretext::{spec_join_semi, join_semi};

verus! {

/// One route as returned by the service, unchanged from the wire shape.
#[derive(Debug, Clone)]
pub struct Route {
    pub route_color: String,
    pub route_id: String,
    pub route_long_name: String,
    pub route_short_name: String,
    pub route_text_color: String,
}

impl Route {
    pub fn color(&self) -> (r: &str)
        ensures
            r@ == self.route_color@,
    {
        self.route_color.as_str()
    }

    pub fn id(&self) -> (r: &str)
        ensures
            r@ == self.route_id@,
    {
        self.route_id.as_str()
    }

    pub fn long_name(&self) -> (r: &str)
        ensures
            r@ == self.route_long_name@,
    {
        self.route_long_name.as_str()
    }

    pub fn short_name(&self) -> (r: &str)
        ensures
            r@ == self.route_short_name@,
    {
        self.route_short_name.as_str()
    }

    pub fn text_color(&self) -> (r: &str)
        ensures
            r@ == self.route_text_color@,
    {
        self.route_text_color.as_str()
    }
}

/// The ghost value of a route: its five members as character
/// sequences.
pub struct RouteView {
    pub route_color: Seq<char>,
    pub route_id: Seq<char>,
    pub route_long_name: Seq<char>,
    pub route_short_name: Seq<char>,
    pub route_text_color: Seq<char>,
}

impl View for Route {
    type V = RouteView;

    open spec fn view(&self) -> RouteView {
        RouteView {
            route_color: self.route_color@,
            route_id: self.route_id@,
            route_long_name: self.route_long_name@,
            route_short_name: self.route_short_name@,
            route_text_color: self.route_text_color@,
        }
    }
}

/// What one wire route record means: an object whose five route
/// members are all strings, taken over unchanged; anything else is
/// refused.
pub open spec fn spec_route_of(m: JsonModel) -> Option<RouteView> {
    match (spec_text_member(m, "route_color"@), spec_text_member(m, "route_id"@),
        spec_text_member(m, "route_long_name"@), spec_text_member(m, "route_short_name"@),
        spec_text_member(m, "route_text_color"@)) {
        (Some(color), Some(id), Some(long_name), Some(short_name), Some(text_color)) => Some(
            RouteView {
                route_color: color,
                route_id: id,
                route_long_name: long_name,
                route_short_name: short_name,
                route_text_color: text_color,
            },
        ),
        _ => None,
    }
}

/// What a whole routes response body means: a JSON document whose
/// `routes` member is an array of route records, each decoded by
/// [`spec_route_of`], in order; anything else is refused.
pub open spec fn spec_routes_of(parsed: Option<JsonModel>) -> Option<Seq<RouteView>> {
    match parsed {
        Some(m) => match spec_array_member(m, "routes"@) {
            Some(elems) => spec_list_of(elems, |e: JsonModel| spec_route_of(e)),
            None => None,
        },
        None => None,
    }
}

impl PartialEq for Route {
    fn eq(&self, other: &Route) -> (r: bool) {
        self.route_color == other.route_color && self.route_id == other.route_id
            && self.route_long_name == other.route_long_name && self.route_short_name
            == other.route_short_name && self.route_text_color == other.route_text_color
    }
}

impl Eq for Route {

}

impl vstd::std_specs::cmp::PartialEqSpecImpl for Route {
    open spec fn obeys_eq_spec() -> bool {
        true
    }

    open spec fn eq_spec(&self, other: &Route) -> bool {
        self.route_color@ == other.route_color@ && self.route_id@ == other.route_id@
            && self.route_long_name@ == other.route_long_name@ && self.route_short_name@
            == other.route_short_name@ && self.route_text_color@ == other.route_text_color@
    }
}

/// The closed set of ways to ask for routes: by an explicit identifier
/// list, all routes, or by an associated stop identifier.
#[derive(Debug, Clone)]
pub enum RoutesQueryType {
    ById(Vec<String>),
    All,
    ByStop(String),
}

/// The endpoint each query variant is sent to.
pub open spec fn routes_url_spec(q: RoutesQueryType) -> Seq<char> {
    match q {
        RoutesQueryType::ById(_) => "https://developer.cumtd.com/api/v2.2/json/getroute"@,
        RoutesQueryType::All => "https://developer.cumtd.com/api/v2.2/json/getroutes"@,
        RoutesQueryType::ByStop(_) => "https://developer.cumtd.com/api/v2.2/json/getroutesbystop"@,
    }
}

/// The exact ordered parameter set of each query variant: the API key
/// always comes first; identifier lists are joined by `;` in input
/// order.
pub open spec fn routes_params_spec(key: Seq<char>, q: RoutesQueryType) -> Seq<
    (Seq<char>, Seq<char>),
> {
    match q {
        RoutesQueryType::ById(ids) => seq![
            ("key"@, key),
            ("route_id"@, spec_join_semi(ids@.map_values(|s: String| s@))),
        ],
        RoutesQueryType::All => seq![("key"@, key)],
        RoutesQueryType::ByStop(stop) => seq![("key"@, key), ("stop_id"@, stop@)],
    }
}

/// Maps an API key and a query variant to the concrete wire request:
/// the endpoint and its ordered query parameters.
pub fn routes_request(key: &str, query: &RoutesQueryType) -> (r: (String, Vec<(String, String)>))
    ensures
        r.0@ == routes_url_spec(*query),
        params_view(r.1@) == routes_params_spec(key@, *query),
{
    let mut params: Vec<(String, String)> = Vec::new();
    push_param(&mut params, "key", String::from_str(key));
    let url = match query {
        RoutesQueryType::ById(ids) => {
            push_param(&mut params, "route_id", join_semi(ids));
            String::from_str("https://developer.cumtd.com/api/v2.2/json/getroute")
        },
        RoutesQueryType::All => {
            String::from_str("https://developer.cumtd.com/api/v2.2/json/getroutes")
        },
        RoutesQueryType::ByStop(stop) => {
            push_param(&mut params, "stop_id", stop.clone());
            String::from_str("https://developer.cumtd.com/api/v2.2/json/getroutesbystop")
        },
    };
    proof {
        assert(params_view(params@) =~= routes_params_spec(key@, *query));
    }
    (url, params)
}

/// Decodes one wire route record: exactly what [`spec_route_of`] says
/// of its model; any shape mismatch is a decode error.
pub(crate) fn decode_route(v: &serde_json::Value) -> (r: Result<Route, Error>)
    ensures
        r matches Ok(x) ==> spec_route_of(json_model(*v)) == Some(x@),
        r is Err <==> spec_route_of(json_model(*v)) is None,
        r matches Err(e) ==> e is DeserializeError,
{
    let route_color = match req_string(v, "route_color") {
        Ok(s) => s,
        Err(e) => {
            return Err(e);
        },
    };
    let route_id = match req_string(v, "route_id") {
        Ok(s) => s,
        Err(e) => {
            return Err(e);
        },
    };
    let route_long_name = match req_string(v, "route_long_name") {
        Ok(s) => s,
        Err(e) => {
            return Err(e);
        },
    };
    let route_short_name = match req_string(v, "route_short_name") {
        Ok(s) => s,
        Err(e) => {
            return Err(e);
        },
    };
    let route_text_color = match req_string(v, "route_text_color") {
        Ok(s) => s,
        Err(e) => {
            return Err(e);
        },
    };
    Ok(Route { route_color, route_id, route_long_name, route_short_name, route_text_color })
}

/// Decodes a response body into the domain model: the `routes`
/// envelope is unwrapped and its records pass through unchanged,
/// exactly as [`spec_routes_of`] says of the parsed bytes.  The
/// complete collection, or exactly one decode error — never a partial
/// result.
#[verifier::loop_isolation(false)]
pub fn routes_from_body(bytes: &[u8]) -> (r: Result<Vec<Route>, Error>)
    ensures
        r matches Ok(v) ==> spec_routes_of(spec_json_parse(bytes@)) == Some(
            v@.map_values(|x: Route| x@),
        ),
        r is Err <==> spec_routes_of(spec_json_parse(bytes@)) is None,
        r matches Err(e) ==> e is DeserializeError,
{
    let root = match json_parse(bytes) {
        Ok(v) => v,
        Err(msg) => {
            return Err(Error::DeserializeError(msg));
        },
    };
    let items = match req_array(&root, "routes") {
        Ok(a) => a,
        Err(e) => {
            return Err(e);
        },
    };
    let ghost models = items@.map_values(|e: serde_json::Value| json_model(e));
    let mut out: Vec<Route> = Vec::new();
    let mut i: usize = 0;
    while i < items.len()
        invariant
            i <= items.len(),
            models == items@.map_values(|e: serde_json::Value| json_model(e)),
            spec_list_of(models.take(i as int), |e: JsonModel| spec_route_of(e)) == Some(
                out@.map_values(|x: Route| x@),
            ),
        decreases items.len() - i,
    {
        match decode_route(&items[i]) {
            Ok(x) => {
                let ghost old_out = out@;
                out.push(x);
                proof {
                    let f = |e: JsonModel| spec_route_of(e);
                    let taken = models.take(i as int + 1);
                    assert(taken.drop_last() =~= models.take(i as int));
                    assert(taken.last() == models[i as int]);
                    assert(out@.map_values(|x: Route| x@) =~= old_out.map_values(
                        |x: Route| x@,
                    ).push(x@));
                }
            },
            Err(e) => {
                proof {
                    assert(models[i as int] == json_model(items@[i as int]));
                    if spec_list_of(models, |e: JsonModel| spec_route_of(e)) is Some {
                        crate::json::lemma_list_of_some(models, |e: JsonModel| spec_route_of(e));
                        assert(false);
                    }
                }
                return Err(e);
            },
        }
        i = i + 1;
    }
    proof {
        assert(models.take(items@.len() as int) =~= models);
    }
    Ok(out)
}

} // verus!
