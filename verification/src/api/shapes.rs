//! Route geometries: one record per ordered point of a shape, the
//! closed set of ways to ask for a shape, and the specifier for the
//! sub-shape between two stops.

use vstd::prelude::*;
use crate::{Error, params_view, push_param};
use crate::json::{json_as_i64, json_as_string, json_get, json_is_null, json_model, json_parse,
    missing_field_error, req_array, req_number_text, spec_array_member, spec_as_i64,
    spec_json_parse, spec_list_of, spec_member, spec_number_member, JsonModel};

verus! {

/// One ordered point of a route geometry.  Coordinates and cumulative
/// distance are carried in their stable decimal wire text; the
/// sequence number establishes the point's order along the path.
#[derive(Debug, Clone)]
pub struct Shape {
    pub shape_dist_traveled: String,
    pub shape_pt_lat: String,
    pub shape_pt_lon: String,
    pub shape_pt_sequence: i32,
    pub stop_id: Option<String>,
}

impl Shape {
    pub fn dist_traveled(&self) -> (r: &str)
        ensures
            r@ == self.shape_dist_traveled@,
    {
        self.shape_dist_traveled.as_str()
    }

    pub fn point_lat(&self) -> (r: &str)
        ensures
            r@ == self.shape_pt_lat@,
    {
        self.shape_pt_lat.as_str()
    }

    pub fn point_lon(&self) -> (r: &str)
        ensures
            r@ == self.shape_pt_lon@,
    {
        self.shape_pt_lon.as_str()
    }

    pub fn point_sequence(&self) -> (r: i32)
        ensures
            r == self.shape_pt_sequence,
    {
        self.shape_pt_sequence
    }

    pub fn stop_id(&self) -> (r: &Option<String>)
        ensures
            r == &self.stop_id,
    {
        &self.stop_id
    }
}

/// The ghost value of a shape point: the numeric members as their
/// rendered text, the sequence number as an integer, and the optional
/// associated stop identifier.
pub struct ShapeView {
    pub shape_dist_traveled: Seq<char>,
    pub shape_pt_lat: Seq<char>,
    pub shape_pt_lon: Seq<char>,
    pub shape_pt_sequence: int,
    pub stop_id: Option<Seq<char>>,
}

impl View for Shape {
    type V = ShapeView;

    open spec fn view(&self) -> ShapeView {
        ShapeView {
            shape_dist_traveled: self.shape_dist_traveled@,
            shape_pt_lat: self.shape_pt_lat@,
            shape_pt_lon: self.shape_pt_lon@,
            shape_pt_sequence: self.shape_pt_sequence as int,
            stop_id: match self.stop_id {
                Some(s) => Some(s@),
                None => None,
            },
        }
    }
}

/// The optional stop identifier of a wire shape point: absent or
/// `null` means none, a string means that identifier, and any other
/// kind is refused.
pub open spec fn spec_shape_stop_id(m: JsonModel) -> Option<Option<Seq<char>>> {
    match spec_member(m, "stop_id"@) {
        None => Some(None),
        Some(f) => match f {
            JsonModel::Null => Some(None),
            JsonModel::Text(s) => Some(Some(s)),
            _ => None,
        },
    }
}

/// What one wire shape point means: the three numeric members, a
/// sequence number that is an integer in 32-bit range, and the
/// optional stop identifier; anything else is refused.
pub open spec fn spec_shape_of(m: JsonModel) -> Option<ShapeView> {
    match (spec_number_member(m, "shape_dist_traveled"@), spec_number_member(m, "shape_pt_lat"@),
        spec_number_member(m, "shape_pt_lon"@), spec_member(m, "shape_pt_sequence"@)) {
        (Some(dist), Some(lat), Some(lon), Some(seq_field)) => match spec_as_i64(seq_field) {
            Some(x) => if i32::MIN <= x <= i32::MAX {
                match spec_shape_stop_id(m) {
                    Some(stop_id) => Some(
                        ShapeView {
                            shape_dist_traveled: dist,
                            shape_pt_lat: lat,
                            shape_pt_lon: lon,
                            shape_pt_sequence: x as int,
                            stop_id,
                        },
                    ),
                    None => None,
                }
            } else {
                None
            },
            None => None,
        },
        _ => None,
    }
}

/// What a whole shapes response body means: a JSON document whose
/// `shapes` member is an array of shape points, each decoded by
/// [`spec_shape_of`], in order; anything else is refused.
pub open spec fn spec_shapes_of(parsed: Option<JsonModel>) -> Option<Seq<ShapeView>> {
    match parsed {
        Some(m) => match spec_array_member(m, "shapes"@) {
            Some(elems) => spec_list_of(elems, |e: JsonModel| spec_shape_of(e)),
            None => None,
        },
        None => None,
    }
}

/// The closed set of ways to ask for a shape: the full shape by its
/// identifier, or the sub-shape between two named stops.
#[derive(Debug, Clone)]
pub enum ShapesQueryType {
    FullShape(String),
    BetweenStops(ShapeSpecifier),
}

/// Names the sub-shape between two stops on a given shape.
#[derive(Debug, Clone)]
pub struct ShapeSpecifier {
    pub begin_id: String,
    pub end_id: String,
    pub shape_id: String,
}

impl ShapeSpecifier {
    pub fn new(begin_stop_id: &str, end_stop_id: &str, shape_id: &str) -> (r: ShapeSpecifier)
        ensures
            r.begin_id@ == begin_stop_id@,
            r.end_id@ == end_stop_id@,
            r.shape_id@ == shape_id@,
    {
        ShapeSpecifier {
            begin_id: begin_stop_id.to_owned(),
            end_id: end_stop_id.to_owned(),
            shape_id: shape_id.to_owned(),
        }
    }
}

/// The endpoint each query variant is sent to.
pub open spec fn shapes_url_spec(q: ShapesQueryType) -> Seq<char> {
    match q {
        ShapesQueryType::FullShape(_) => "https://developer.cumtd.com/api/v2.2/json/getshape"@,
        ShapesQueryType::BetweenStops(
            _,
        ) => "https://developer.cumtd.com/api/v2.2/json/getshapebetweenstops"@,
    }
}

/// The exact ordered parameter set of each query variant: the API key
/// always comes first.
pub open spec fn shapes_params_spec(key: Seq<char>, q: ShapesQueryType) -> Seq<
    (Seq<char>, Seq<char>),
> {
    match q {
        ShapesQueryType::FullShape(id) => seq![("key"@, key), ("shape_id"@, id@)],
        ShapesQueryType::BetweenStops(specs) => seq![
            ("key"@, key),
            ("begin_stop_id"@, specs.begin_id@),
            ("end_stop_id"@, specs.end_id@),
            ("shape_id"@, specs.shape_id@),
        ],
    }
}

/// Maps an API key and a query variant to the concrete wire request:
/// the endpoint and its ordered query parameters.
pub fn shapes_request(key: &str, query: &ShapesQueryType) -> (r: (String, Vec<(String, String)>))
    ensures
        r.0@ == shapes_url_spec(*query),
        params_view(r.1@) == shapes_params_spec(key@, *query),
{
    let mut params: Vec<(String, String)> = Vec::new();
    push_param(&mut params, "key", String::from_str(key));
    let url = match query {
        ShapesQueryType::FullShape(id) => {
            push_param(&mut params, "shape_id", id.clone());
            String::from_str("https://developer.cumtd.com/api/v2.2/json/getshape")
        },
        ShapesQueryType::BetweenStops(specs) => {
            push_param(&mut params, "begin_stop_id", specs.begin_id.clone());
            push_param(&mut params, "end_stop_id", specs.end_id.clone());
            push_param(&mut params, "shape_id", specs.shape_id.clone());
            String::from_str("https://developer.cumtd.com/api/v2.2/json/getshapebetweenstops")
        },
    };
    proof {
        assert(params_view(params@) =~= shapes_params_spec(key@, *query));
    }
    (url, params)
}

/// Decodes one wire shape point: exactly what [`spec_shape_of`] says
/// of its model.  Any shape mismatch, and a sequence number outside
/// the 32-bit range, is a decode error; an absent or `null` stop
/// identifier means none.
pub(crate) fn decode_shape(v: &serde_json::Value) -> (r: Result<Shape, Error>)
    ensures
        r matches Ok(x) ==> spec_shape_of(json_model(*v)) == Some(x@),
        r is Err <==> spec_shape_of(json_model(*v)) is None,
        r matches Err(e) ==> e is DeserializeError,
{
    let shape_dist_traveled = match req_number_text(v, "shape_dist_traveled") {
        Ok(s) => s,
        Err(e) => {
            return Err(e);
        },
    };
    let shape_pt_lat = match req_number_text(v, "shape_pt_lat") {
        Ok(s) => s,
        Err(e) => {
            return Err(e);
        },
    };
    let shape_pt_lon = match req_number_text(v, "shape_pt_lon") {
        Ok(s) => s,
        Err(e) => {
            return Err(e);
        },
    };
    let seq_field = match json_get(v, "shape_pt_sequence") {
        Some(f) => f,
        None => {
            return Err(missing_field_error("shape_pt_sequence"));
        },
    };
    let seq_wide = match json_as_i64(seq_field) {
        Some(x) => x,
        None => {
            return Err(missing_field_error("shape_pt_sequence"));
        },
    };
    if seq_wide < i32::MIN as i64 || seq_wide > i32::MAX as i64 {
        return Err(missing_field_error("shape_pt_sequence"));
    }
    let shape_pt_sequence: i32 = seq_wide as i32;
    let stop_id: Option<String> = match json_get(v, "stop_id") {
        Some(f) => {
            if json_is_null(f) {
                None
            } else {
                match json_as_string(f) {
                    Some(s) => Some(s),
                    None => {
                        return Err(missing_field_error("stop_id"));
                    },
                }
            }
        },
        None => None,
    };
    Ok(Shape { shape_dist_traveled, shape_pt_lat, shape_pt_lon, shape_pt_sequence, stop_id })
}

/// Decodes a response body into the domain model: the `shapes`
/// envelope is unwrapped and its records pass through unchanged,
/// exactly as [`spec_shapes_of`] says of the parsed bytes.  The
/// complete collection, or exactly one decode error — never a partial
/// result.
#[verifier::loop_isolation(false)]
pub fn shapes_from_body(bytes: &[u8]) -> (r: Result<Vec<Shape>, Error>)
    ensures
        r matches Ok(v) ==> spec_shapes_of(spec_json_parse(bytes@)) == Some(
            v@.map_values(|x: Shape| x@),
        ),
        r is Err <==> spec_shapes_of(spec_json_parse(bytes@)) is None,
        r matches Err(e) ==> e is DeserializeError,
{
    let root = match json_parse(bytes) {
        Ok(v) => v,
        Err(msg) => {
            return Err(Error::DeserializeError(msg));
        },
    };
    let items = match req_array(&root, "shapes") {
        Ok(a) => a,
        Err(e) => {
            return Err(e);
        },
    };
    let ghost models = items@.map_values(|e: serde_json::Value| json_model(e));
    let mut out: Vec<Shape> = Vec::new();
    let mut i: usize = 0;
    while i < items.len()
        invariant
            i <= items.len(),
            spec_list_of(models.take(i as int), |e: JsonModel| spec_shape_of(e)) == Some(
                out@.map_values(|x: Shape| x@),
            ),
        decreases items.len() - i,
    {
        match decode_shape(&items[i]) {
            Ok(x) => {
                let ghost old_out = out@;
                out.push(x);
                proof {
                    let taken = models.take(i as int + 1);
                    assert(taken.drop_last() =~= models.take(i as int));
                    assert(taken.last() == models[i as int]);
                    assert(out@.map_values(|x: Shape| x@) =~= old_out.map_values(
                        |x: Shape| x@,
                    ).push(x@));
                }
            },
            Err(e) => {
                proof {
                    assert(models[i as int] == json_model(items@[i as int]));
                    if spec_list_of(models, |e: JsonModel| spec_shape_of(e)) is Some {
                        crate::json::lemma_list_of_some(models, |e: JsonModel| spec_shape_of(e));
                        assert(false);
                    }
                }
                return Err(e);
            },
        }
        i = i + 1;
    }
    proof {
        assert(models.take(items@.len() as int) =~= models);
    }
    Ok(out)
}

} // verus!
