//! Stops of the transit network: the domain record, the wire grouping
//! of stops under parent locations, the closed set of ways to ask for
//! stops, and the latitude/longitude query with its incremental
//! builder.

use vstd::prelude::*;
use crate::{Error, params_view, push_param};
use crate::json::{json_get, json_as_string, json_model, json_parse, missing_field_error,
    req_array, req_number_text, req_string, spec_array_member, spec_json_parse, spec_list_of,
    spec_member, spec_number_member, spec_text_member, JsonModel};
use crate::wiretext::{spec_join_semi, spec_idec, join_semi, i32_dec};

verus! {

/// One stop as handed to callers.  Coordinates are carried in their
/// stable decimal wire text; the parent location fields are filled in
/// during normalization from the enclosing group.
#[derive(Debug, Clone)]
pub struct Stop {
    pub code: String,
    pub stop_id: String,
    pub stop_lat: String,
    pub stop_lon: String,
    pub stop_name: String,
    pub location_id: String,
    pub location_name: String,
}

impl Stop {
    pub fn code(&self) -> (r: &str)
        ensures
            r@ == self.code@,
    {
        self.code.as_str()
    }

    pub fn id(&self) -> (r: &str)
        ensures
            r@ == self.stop_id@,
    {
        self.stop_id.as_str()
    }

    pub fn name(&self) -> (r: &str)
        ensures
            r@ == self.stop_name@,
    {
        self.stop_name.as_str()
    }

    pub fn lat(&self) -> (r: &str)
        ensures
            r@ == self.stop_lat@,
    {
        self.stop_lat.as_str()
    }

    pub fn lon(&self) -> (r: &str)
        ensures
            r@ == self.stop_lon@,
    {
        self.stop_lon.as_str()
    }

    pub fn location_id(&self) -> (r: &str)
        ensures
            r@ == self.location_id@,
    {
        self.location_id.as_str()
    }

    pub fn location_name(&self) -> (r: &str)
        ensures
            r@ == self.location_name@,
    {
        self.location_name.as_str()
    }
}

/// The ghost value of a stop: its members as character sequences.
pub struct StopView {
    pub code: Seq<char>,
    pub stop_id: Seq<char>,
    pub stop_lat: Seq<char>,
    pub stop_lon: Seq<char>,
    pub stop_name: Seq<char>,
    pub location_id: Seq<char>,
    pub location_name: Seq<char>,
}

impl View for Stop {
    type V = StopView;

    open spec fn view(&self) -> StopView {
        StopView {
            code: self.code@,
            stop_id: self.stop_id@,
            stop_lat: self.stop_lat@,
            stop_lon: self.stop_lon@,
            stop_name: self.stop_name@,
            location_id: self.location_id@,
            location_name: self.location_name@,
        }
    }
}

impl PartialEq for Stop {
    /// A stop's identity is its identifier alone: two values with the
    /// same identifier are the same stop, whatever their other fields
    /// say.
    fn eq(&self, other: &Stop) -> (r: bool) {
        self.stop_id == other.stop_id
    }
}

impl Eq for Stop {

}

impl vstd::std_specs::cmp::PartialEqSpecImpl for Stop {
    open spec fn obeys_eq_spec() -> bool {
        true
    }

    open spec fn eq_spec(&self, other: &Stop) -> bool {
        self.stop_id@ == other.stop_id@
    }
}

/// A parent location as it appears on the wire: its own identifier
/// and name, and the stops grouped under it.  The type exists only
/// between decoding and normalization.
#[derive(Debug, Clone)]
pub struct StopGroup {
    pub stop_id: String,
    pub stop_name: String,
    pub stop_points: Vec<Stop>,
}

/// The ghost value of a stop group: its identity and the views of its
/// nested stops.
pub struct StopGroupView {
    pub stop_id: Seq<char>,
    pub stop_name: Seq<char>,
    pub stop_points: Seq<StopView>,
}

impl View for StopGroup {
    type V = StopGroupView;

    open spec fn view(&self) -> StopGroupView {
        StopGroupView {
            stop_id: self.stop_id@,
            stop_name: self.stop_name@,
            stop_points: self.stop_points@.map_values(|s: Stop| s@),
        }
    }
}

/// A nested stop, tagged with the identity of its enclosing group.
pub open spec fn spec_with_parent(g: StopGroup, s: Stop) -> Stop {
    Stop { location_id: g.stop_id, location_name: g.stop_name, ..s }
}

/// All stops of one group, each tagged with the group's identity, in
/// their nested order.
pub open spec fn spec_group_stops(g: StopGroup) -> Seq<Stop> {
    g.stop_points@.map_values(|s: Stop| spec_with_parent(g, s))
}

/// The flattening of grouped wire stops into one ordered sequence:
/// groups in their original order, stops in their nested order within
/// each group, every stop carrying its group's identifier and name as
/// parent fields.  A group with no nested stops contributes nothing.
pub open spec fn spec_flatten_groups(groups: Seq<StopGroup>) -> Seq<Stop>
    decreases groups.len(),
{
    if groups.len() == 0 {
        Seq::empty()
    } else {
        spec_flatten_groups(groups.drop_last()) + spec_group_stops(groups.last())
    }
}

/// [`spec_group_stops`] at the view level.
pub open spec fn spec_group_stops_view(g: StopGroupView) -> Seq<StopView> {
    g.stop_points.map_values(
        |s: StopView| StopView { location_id: g.stop_id, location_name: g.stop_name, ..s },
    )
}

/// [`spec_flatten_groups`] at the view level.
pub open spec fn spec_flatten_views(groups: Seq<StopGroupView>) -> Seq<StopView>
    decreases groups.len(),
{
    if groups.len() == 0 {
        Seq::empty()
    } else {
        spec_flatten_views(groups.drop_last()) + spec_group_stops_view(groups.last())
    }
}

/// Flattening commutes with taking views.
pub proof fn lemma_flatten_views(groups: Seq<StopGroup>)
    ensures
        spec_flatten_groups(groups).map_values(|s: Stop| s@) == spec_flatten_views(
            groups.map_values(|g: StopGroup| g@),
        ),
    decreases groups.len(),
{
    let gv = groups.map_values(|g: StopGroup| g@);
    if groups.len() == 0 {
        assert(spec_flatten_groups(groups).map_values(|s: Stop| s@) =~= spec_flatten_views(gv));
    } else {
        lemma_flatten_views(groups.drop_last());
        assert(gv.drop_last() =~= groups.drop_last().map_values(|g: StopGroup| g@));
        assert(gv.last() == groups.last()@);
        assert(spec_group_stops(groups.last()).map_values(|s: Stop| s@) =~= spec_group_stops_view(
            groups.last()@,
        ));
        assert(spec_flatten_groups(groups).map_values(|s: Stop| s@) =~= spec_flatten_views(gv));
    }
}

/// The `code` member of a wire stop: under its short name or, failing
/// that, its long wire name `stop_code`.
pub open spec fn spec_stop_code(m: JsonModel) -> Option<Seq<char>> {
    match spec_member(m, "code"@) {
        Some(f) => match f {
            JsonModel::Text(s) => Some(s),
            _ => None,
        },
        None => spec_text_member(m, "stop_code"@),
    }
}

/// What one nested wire stop record means: its code, identifier,
/// coordinates and name, with the parent fields empty until
/// normalization; anything else is refused.
pub open spec fn spec_stop_of(m: JsonModel) -> Option<StopView> {
    match (spec_stop_code(m), spec_text_member(m, "stop_id"@), spec_number_member(m, "stop_lat"@),
        spec_number_member(m, "stop_lon"@), spec_text_member(m, "stop_name"@)) {
        (Some(code), Some(stop_id), Some(stop_lat), Some(stop_lon), Some(stop_name)) => Some(
            StopView {
                code,
                stop_id,
                stop_lat,
                stop_lon,
                stop_name,
                location_id: Seq::empty(),
                location_name: Seq::empty(),
            },
        ),
        _ => None,
    }
}

/// What one wire stop group means: its identity and the decoded
/// nested stops, in order; anything else is refused.
pub open spec fn spec_stop_group_of(m: JsonModel) -> Option<StopGroupView> {
    match (spec_text_member(m, "stop_id"@), spec_text_member(m, "stop_name"@), spec_array_member(
        m,
        "stop_points"@,
    )) {
        (Some(stop_id), Some(stop_name), Some(elems)) => match spec_list_of(
            elems,
            |e: JsonModel| spec_stop_of(e),
        ) {
            Some(stop_points) => Some(StopGroupView { stop_id, stop_name, stop_points }),
            None => None,
        },
        _ => None,
    }
}

/// What a whole stops response body means before normalization: a
/// JSON document whose `stops` member is an array of stop groups,
/// each decoded by [`spec_stop_group_of`], in order.
pub open spec fn spec_stop_groups_of(parsed: Option<JsonModel>) -> Option<Seq<StopGroupView>> {
    match parsed {
        Some(m) => match spec_array_member(m, "stops"@) {
            Some(elems) => spec_list_of(elems, |e: JsonModel| spec_stop_group_of(e)),
            None => None,
        },
        None => None,
    }
}

/// What a whole stops response body means after normalization: the
/// decoded groups, flattened with parent identities attached.
pub open spec fn spec_stops_of(parsed: Option<JsonModel>) -> Option<Seq<StopView>> {
    match spec_stop_groups_of(parsed) {
        Some(gs) => Some(spec_flatten_views(gs)),
        None => None,
    }
}

/// Normalizes the wire shape into the domain model: flattens the
/// groups and attaches each group's identity to its nested stops.
pub fn normalize_stops(groups: Vec<StopGroup>) -> (r: Vec<Stop>)
    ensures
        r@ == spec_flatten_groups(groups@),
{
    let mut out: Vec<Stop> = Vec::new();
    let mut i: usize = 0;
    while i < groups.len()
        invariant
            i <= groups.len(),
            out@ == spec_flatten_groups(groups@.take(i as int)),
        decreases groups.len() - i,
    {
        let g = &groups[i];
        let mut j: usize = 0;
        while j < g.stop_points.len()
            invariant
                i < groups.len(),
                j <= g.stop_points.len(),
                g == groups@[i as int],
                out@ == spec_flatten_groups(groups@.take(i as int)) + spec_group_stops(
                    groups@[i as int],
                ).take(j as int),
            decreases g.stop_points.len() - j,
        {
            let s = &g.stop_points[j];
            out.push(Stop {
                code: s.code.clone(),
                stop_id: s.stop_id.clone(),
                stop_lat: s.stop_lat.clone(),
                stop_lon: s.stop_lon.clone(),
                stop_name: s.stop_name.clone(),
                location_id: g.stop_id.clone(),
                location_name: g.stop_name.clone(),
            });
            proof {
                let gs = spec_group_stops(groups@[i as int]);
                assert(gs.take(j as int + 1) =~= gs.take(j as int).push(gs[j as int]));
                assert(out@ =~= spec_flatten_groups(groups@.take(i as int)) + gs.take(
                    j as int + 1,
                ));
            }
            j = j + 1;
        }
        proof {
            let gs = spec_group_stops(groups@[i as int]);
            assert(gs.take(g.stop_points@.len() as int) =~= gs);
            assert(groups@.take(i as int + 1).drop_last() =~= groups@.take(i as int));
            assert(groups@.take(i as int + 1).last() == groups@[i as int]);
            assert(out@ =~= spec_flatten_groups(groups@.take(i as int + 1)));
        }
        i = i + 1;
    }
    proof {
        assert(groups@.take(groups@.len() as int) =~= groups@);
    }
    out
}

/// Decodes one nested wire stop record: exactly what [`spec_stop_of`]
/// says of its model.  The `code` member may also appear under its
/// long wire name `stop_code`; the parent fields are left empty for
/// normalization to fill.
pub(crate) fn decode_stop(v: &serde_json::Value) -> (r: Result<Stop, Error>)
    ensures
        r matches Ok(x) ==> spec_stop_of(json_model(*v)) == Some(x@),
        r is Err <==> spec_stop_of(json_model(*v)) is None,
        r matches Err(e) ==> e is DeserializeError,
{
    let code_field = match json_get(v, "code") {
        Some(f) => Some(f),
        None => json_get(v, "stop_code"),
    };
    let code = match code_field {
        Some(f) => match json_as_string(f) {
            Some(s) => s,
            None => {
                return Err(missing_field_error("code"));
            },
        },
        None => {
            return Err(missing_field_error("code"));
        },
    };
    let stop_id = match req_string(v, "stop_id") {
        Ok(s) => s,
        Err(e) => {
            return Err(e);
        },
    };
    let stop_lat = match req_number_text(v, "stop_lat") {
        Ok(s) => s,
        Err(e) => {
            return Err(e);
        },
    };
    let stop_lon = match req_number_text(v, "stop_lon") {
        Ok(s) => s,
        Err(e) => {
            return Err(e);
        },
    };
    let stop_name = match req_string(v, "stop_name") {
        Ok(s) => s,
        Err(e) => {
            return Err(e);
        },
    };
    Ok(Stop {
        code,
        stop_id,
        stop_lat,
        stop_lon,
        stop_name,
        location_id: String::new(),
        location_name: String::new(),
    })
}

/// Decodes one wire stop group with its nested stops: exactly what
/// [`spec_stop_group_of`] says of its model.
#[verifier::loop_isolation(false)]
pub(crate) fn decode_stop_group(v: &serde_json::Value) -> (r: Result<StopGroup, Error>)
    ensures
        r matches Ok(x) ==> spec_stop_group_of(json_model(*v)) == Some(x@),
        r is Err <==> spec_stop_group_of(json_model(*v)) is None,
        r matches Err(e) ==> e is DeserializeError,
{
    let stop_id = match req_string(v, "stop_id") {
        Ok(s) => s,
        Err(e) => {
            return Err(e);
        },
    };
    let stop_name = match req_string(v, "stop_name") {
        Ok(s) => s,
        Err(e) => {
            return Err(e);
        },
    };
    let items = match req_array(v, "stop_points") {
        Ok(a) => a,
        Err(e) => {
            return Err(e);
        },
    };
    let ghost models = items@.map_values(|e: serde_json::Value| json_model(e));
    let mut stop_points: Vec<Stop> = Vec::new();
    let mut i: usize = 0;
    while i < items.len()
        invariant
            i <= items.len(),
            spec_list_of(models.take(i as int), |e: JsonModel| spec_stop_of(e)) == Some(
                stop_points@.map_values(|x: Stop| x@),
            ),
        decreases items.len() - i,
    {
        match decode_stop(&items[i]) {
            Ok(s) => {
                let ghost old_points = stop_points@;
                stop_points.push(s);
                proof {
                    let taken = models.take(i as int + 1);
                    assert(taken.drop_last() =~= models.take(i as int));
                    assert(taken.last() == models[i as int]);
                    assert(stop_points@.map_values(|x: Stop| x@) =~= old_points.map_values(
                        |x: Stop| x@,
                    ).push(s@));
                }
            },
            Err(e) => {
                proof {
                    assert(models[i as int] == json_model(items@[i as int]));
                    if spec_list_of(models, |e: JsonModel| spec_stop_of(e)) is Some {
                        crate::json::lemma_list_of_some(models, |e: JsonModel| spec_stop_of(e));
                        assert(false);
                    }
                }
                return Err(e);
            },
        }
        i = i + 1;
    }
    proof {
        assert(models.take(items@.len() as int) =~= models);
    }
    Ok(StopGroup { stop_id, stop_name, stop_points })
}

/// Decodes a response body into the wire shape: the `stops` envelope
/// holding the grouped stop records, exactly as
/// [`spec_stop_groups_of`] says of the parsed bytes.
#[verifier::loop_isolation(false)]
pub fn stop_groups_from_body(bytes: &[u8]) -> (r: Result<Vec<StopGroup>, Error>)
    ensures
        r matches Ok(v) ==> spec_stop_groups_of(spec_json_parse(bytes@)) == Some(
            v@.map_values(|g: StopGroup| g@),
        ),
        r is Err <==> spec_stop_groups_of(spec_json_parse(bytes@)) is None,
        r matches Err(e) ==> e is DeserializeError,
{
    let root = match json_parse(bytes) {
        Ok(v) => v,
        Err(msg) => {
            return Err(Error::DeserializeError(msg));
        },
    };
    let items = match req_array(&root, "stops") {
        Ok(a) => a,
        Err(e) => {
            return Err(e);
        },
    };
    let ghost models = items@.map_values(|e: serde_json::Value| json_model(e));
    let mut groups: Vec<StopGroup> = Vec::new();
    let mut i: usize = 0;
    while i < items.len()
        invariant
            i <= items.len(),
            spec_list_of(models.take(i as int), |e: JsonModel| spec_stop_group_of(e)) == Some(
                groups@.map_values(|g: StopGroup| g@),
            ),
        decreases items.len() - i,
    {
        match decode_stop_group(&items[i]) {
            Ok(g) => {
                let ghost old_groups = groups@;
                groups.push(g);
                proof {
                    let taken = models.take(i as int + 1);
                    assert(taken.drop_last() =~= models.take(i as int));
                    assert(taken.last() == models[i as int]);
                    assert(groups@.map_values(|g: StopGroup| g@) =~= old_groups.map_values(
                        |g: StopGroup| g@,
                    ).push(g@));
                }
            },
            Err(e) => {
                proof {
                    assert(models[i as int] == json_model(items@[i as int]));
                    if spec_list_of(models, |e: JsonModel| spec_stop_group_of(e)) is Some {
                        crate::json::lemma_list_of_some(
                            models,
                            |e: JsonModel| spec_stop_group_of(e),
                        );
                        assert(false);
                    }
                }
                return Err(e);
            },
        }
        i = i + 1;
    }
    proof {
        assert(models.take(items@.len() as int) =~= models);
    }
    Ok(groups)
}

/// Decodes a response body and normalizes it: the complete flattened
/// stop collection, exactly as [`spec_stops_of`] says of the parsed
/// bytes, or exactly one decode error — never a partial result.
pub fn stops_from_body(bytes: &[u8]) -> (r: Result<Vec<Stop>, Error>)
    ensures
        r matches Ok(v) ==> spec_stops_of(spec_json_parse(bytes@)) == Some(
            v@.map_values(|s: Stop| s@),
        ),
        r is Err <==> spec_stops_of(spec_json_parse(bytes@)) is None,
        r matches Err(e) ==> e is DeserializeError,
{
    match stop_groups_from_body(bytes) {
        Ok(groups) => {
            proof {
                lemma_flatten_views(groups@);
            }
            Ok(normalize_stops(groups))
        },
        Err(e) => Err(e),
    }
}

/// The closed set of ways to ask for stops: by an explicit identifier
/// list, all stops, or by a latitude/longitude center point.
#[derive(Debug, Clone)]
pub enum StopsQueryType {
    ById(Vec<String>),
    All,
    ByLatLon(LatLonQuery),
}

/// A latitude/longitude center-point query with an optional result
/// cap.  Coordinates are carried in their stable decimal wire text.
#[derive(Debug, Clone)]
pub struct LatLonQuery {
    pub lat: String,
    pub lon: String,
    pub count: Option<i32>,
}

impl LatLonQuery {
    pub fn builder() -> (r: LatLonQueryBuilder)
        ensures
            r == (LatLonQueryBuilder { lat: None, lon: None, count: None }),
    {
        LatLonQueryBuilder { lat: None, lon: None, count: None }
    }

    pub fn new(lat: String, lon: String) -> (r: LatLonQuery)
        ensures
            r == (LatLonQuery { lat, lon, count: None }),
    {
        LatLonQuery { lat, lon, count: None }
    }

    pub fn new_with_count(lat: String, lon: String, count: i32) -> (r: LatLonQuery)
        ensures
            r == (LatLonQuery { lat, lon, count: Some(count) }),
    {
        LatLonQuery { lat, lon, count: Some(count) }
    }
}

/// The endpoint each query variant is sent to.
pub open spec fn stops_url_spec(q: StopsQueryType) -> Seq<char> {
    match q {
        StopsQueryType::ById(_) => "https://developer.cumtd.com/api/v2.2/json/getstop"@,
        StopsQueryType::All => "https://developer.cumtd.com/api/v2.2/json/getstops"@,
        StopsQueryType::ByLatLon(_) => "https://developer.cumtd.com/api/v2.2/json/getstopsbylatlon"@,
    }
}

/// The exact ordered parameter set of each query variant: the API key
/// always comes first; identifier lists are joined by `;` in input
/// order; an absent result cap sends no `count` parameter at all,
/// while a present one sends exactly one, in decimal text.
pub open spec fn stops_params_spec(key: Seq<char>, q: StopsQueryType) -> Seq<
    (Seq<char>, Seq<char>),
> {
    match q {
        StopsQueryType::ById(ids) => seq![
            ("key"@, key),
            ("stop_id"@, spec_join_semi(ids@.map_values(|s: String| s@))),
        ],
        StopsQueryType::All => seq![("key"@, key)],
        StopsQueryType::ByLatLon(ll) => {
            let base = seq![("key"@, key), ("lat"@, ll.lat@), ("lon"@, ll.lon@)];
            match ll.count {
                Some(c) => base.push(("count"@, spec_idec(c as int))),
                None => base,
            }
        },
    }
}

/// Maps an API key and a query variant to the concrete wire request:
/// the endpoint and its ordered query parameters.
pub fn stops_request(key: &str, query: &StopsQueryType) -> (r: (String, Vec<(String, String)>))
    ensures
        r.0@ == stops_url_spec(*query),
        params_view(r.1@) == stops_params_spec(key@, *query),
{
    let mut params: Vec<(String, String)> = Vec::new();
    push_param(&mut params, "key", String::from_str(key));
    let url = match query {
        StopsQueryType::ById(ids) => {
            push_param(&mut params, "stop_id", join_semi(ids));
            String::from_str("https://developer.cumtd.com/api/v2.2/json/getstop")
        },
        StopsQueryType::All => {
            String::from_str("https://developer.cumtd.com/api/v2.2/json/getstops")
        },
        StopsQueryType::ByLatLon(ll) => {
            push_param(&mut params, "lat", ll.lat.clone());
            push_param(&mut params, "lon", ll.lon.clone());
            match ll.count {
                Some(c) => {
                    push_param(&mut params, "count", i32_dec(c));
                },
                None => {},
            }
            String::from_str("https://developer.cumtd.com/api/v2.2/json/getstopsbylatlon")
        },
    };
    proof {
        assert(params_view(params@) =~= stops_params_spec(key@, *query));
    }
    (url, params)
}

/// Incremental construction of a `LatLonQuery`: latitude and longitude
/// are mandatory, the result cap optional.
#[derive(Debug, Clone)]
pub struct LatLonQueryBuilder {
    pub lat: Option<String>,
    pub lon: Option<String>,
    pub count: Option<i32>,
}

/// Finalizing the builder without both coordinates set is refused with
/// this validation error.
#[derive(Debug, Clone)]
pub struct LatLonQueryBuilderError;

impl LatLonQueryBuilderError {
    /// The human-readable description of the validation failure.
    pub fn message(&self) -> (r: String)
        ensures
            r@ == "Missing latitude or longitude"@,
    {
        String::from_str("Missing latitude or longitude")
    }
}

impl LatLonQueryBuilder {
    pub fn lat<'a>(&'a mut self, lat: String) -> (ret: &'a mut LatLonQueryBuilder)
        ensures
            *ret == (LatLonQueryBuilder { lat: Some(lat), ..*old(self) }),
            *final(self) == *final(ret),
    {
        self.lat = Some(lat);
        self
    }

    pub fn lon<'a>(&'a mut self, lon: String) -> (ret: &'a mut LatLonQueryBuilder)
        ensures
            *ret == (LatLonQueryBuilder { lon: Some(lon), ..*old(self) }),
            *final(self) == *final(ret),
    {
        self.lon = Some(lon);
        self
    }

    pub fn count<'a>(&'a mut self, count: i32) -> (ret: &'a mut LatLonQueryBuilder)
        ensures
            *ret == (LatLonQueryBuilder { count: Some(count), ..*old(self) }),
            *final(self) == *final(ret),
    {
        self.count = Some(count);
        self
    }

    /// Finalize: fails with a validation error, and yields no query
    /// value, unless both latitude and longitude were set.
    pub fn build(&self) -> (r: Result<LatLonQuery, LatLonQueryBuilderError>)
        ensures
            r is Err <==> (self.lat is None || self.lon is None),
            r matches Ok(q) ==> q == (LatLonQuery {
                lat: self.lat->Some_0,
                lon: self.lon->Some_0,
                count: self.count,
            }),
    {
        match (&self.lat, &self.lon) {
            (Some(la), Some(lo)) => Ok(LatLonQuery {
                lat: la.clone(),
                lon: lo.clone(),
                count: self.count,
            }),
            _ => Err(LatLonQueryBuilderError),
        }
    }
}

} // verus!
