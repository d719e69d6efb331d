//! Service-calendar exceptions: one record per affected service and
//! date, and the closed set of ways to ask for them.

use vstd::prelude::*;
use crate::date::{Date, spec_date_text, spec_parse_date};
use crate::json::{json_model, json_parse, missing_field_error, req_array, req_string,
    spec_array_member, spec_json_parse, spec_list_of, spec_text_member, JsonModel};
use crate::{Error, params_view, push_param};

verus! {

/// One calendar exception/inclusion record.
#[derive(Debug, Clone)]
pub struct CalendarDate {
    pub date: Date,
    pub service_id: String,
}

impl CalendarDate {
    pub fn date(&self) -> (r: Date)
        ensures
            r == self.date,
    {
        self.date
    }

    pub fn service_id(&self) -> (r: &str)
        ensures
            r@ == self.service_id@,
    {
        self.service_id.as_str()
    }
}

/// The ghost value of a calendar record: the date and the service
/// identifier's character sequence.
pub struct CalendarDateView {
    pub date: Date,
    pub service_id: Seq<char>,
}

impl View for CalendarDate {
    type V = CalendarDateView;

    open spec fn view(&self) -> CalendarDateView {
        CalendarDateView { date: self.date, service_id: self.service_id@ }
    }
}

/// What one wire calendar record means: an object whose `date` member
/// is wire date text naming a real calendar day and whose
/// `service_id` member is a string; anything else is refused.
pub open spec fn spec_calendar_date_of(m: JsonModel) -> Option<CalendarDateView> {
    match (spec_text_member(m, "date"@), spec_text_member(m, "service_id"@)) {
        (Some(date_text), Some(service_id)) => match spec_parse_date(date_text) {
            Some(d) => Some(CalendarDateView { date: d, service_id }),
            None => None,
        },
        _ => None,
    }
}

/// What a whole calendar response body means: a JSON document whose
/// `calendar_dates` member is an array of records, each decoded by
/// [`spec_calendar_date_of`], in order; anything else is refused.
pub open spec fn spec_calendar_dates_of(parsed: Option<JsonModel>) -> Option<
    Seq<CalendarDateView>,
> {
    match parsed {
        Some(m) => match spec_array_member(m, "calendar_dates"@) {
            Some(elems) => spec_list_of(elems, |e: JsonModel| spec_calendar_date_of(e)),
            None => None,
        },
        None => None,
    }
}

impl PartialEq for CalendarDate {
    fn eq(&self, other: &CalendarDate) -> (r: bool) {
        self.date == other.date && self.service_id == other.service_id
    }
}

impl Eq for CalendarDate {

}

impl vstd::std_specs::cmp::PartialEqSpecImpl for CalendarDate {
    open spec fn obeys_eq_spec() -> bool {
        true
    }

    open spec fn eq_spec(&self, other: &CalendarDate) -> bool {
        self.date == other.date && self.service_id@ == other.service_id@
    }
}

/// The closed set of ways to ask for calendar exceptions: by a
/// specific date, or by a service identifier.
#[derive(Debug, Clone)]
pub enum DatesQueryType {
    ByDate(Date),
    ByService(String),
}

/// A query is well formed when any date it carries names a real
/// calendar day.
pub open spec fn dates_query_wf(q: DatesQueryType) -> bool {
    match q {
        DatesQueryType::ByDate(d) => d.wf(),
        DatesQueryType::ByService(_) => true,
    }
}

/// Both variants are served by the same endpoint.
pub open spec fn dates_url_spec(q: DatesQueryType) -> Seq<char> {
    "https://developer.cumtd.com/api/v2.2/json/getcalendardatesbydate"@
}

/// The exact ordered parameter set of each query variant: the API key
/// always comes first; a date is rendered as wire date text.
pub open spec fn dates_params_spec(key: Seq<char>, q: DatesQueryType) -> Seq<
    (Seq<char>, Seq<char>),
> {
    match q {
        DatesQueryType::ByDate(d) => seq![("key"@, key), ("date"@, spec_date_text(d))],
        DatesQueryType::ByService(id) => seq![("key"@, key), ("service_id"@, id@)],
    }
}

/// Maps an API key and a query variant to the concrete wire request:
/// the endpoint and its ordered query parameters.
pub fn dates_request(key: &str, query: &DatesQueryType) -> (r: (String, Vec<(String, String)>))
    requires
        dates_query_wf(*query),
    ensures
        r.0@ == dates_url_spec(*query),
        params_view(r.1@) == dates_params_spec(key@, *query),
{
    let mut params: Vec<(String, String)> = Vec::new();
    push_param(&mut params, "key", String::from_str(key));
    match query {
        DatesQueryType::ByDate(d) => {
            push_param(&mut params, "date", d.to_wire());
        },
        DatesQueryType::ByService(id) => {
            push_param(&mut params, "service_id", id.clone());
        },
    }
    let url = String::from_str("https://developer.cumtd.com/api/v2.2/json/getcalendardatesbydate");
    proof {
        assert(params_view(params@) =~= dates_params_spec(key@, *query));
    }
    (url, params)
}

/// Decodes one wire calendar record: exactly what
/// [`spec_calendar_date_of`] says of its model.  The date member
/// carries wire date text; text that does not name a real calendar
/// day fails the whole decode with a decode error — it is never
/// defaulted.
pub(crate) fn decode_calendar_date(v: &serde_json::Value) -> (r: Result<CalendarDate, Error>)
    ensures
        r matches Ok(x) ==> spec_calendar_date_of(json_model(*v)) == Some(x@),
        r is Err <==> spec_calendar_date_of(json_model(*v)) is None,
        r matches Err(e) ==> e is DeserializeError,
        r matches Ok(cd) ==> cd.date.wf(),
{
    let date_text = match req_string(v, "date") {
        Ok(s) => s,
        Err(e) => {
            return Err(e);
        },
    };
    let date = match Date::from_wire(date_text.as_str()) {
        Some(d) => d,
        None => {
            return Err(missing_field_error("date"));
        },
    };
    let service_id = match req_string(v, "service_id") {
        Ok(s) => s,
        Err(e) => {
            return Err(e);
        },
    };
    Ok(CalendarDate { date, service_id })
}

/// Decodes a response body into the domain model: the
/// `calendar_dates` envelope is unwrapped and its records pass
/// through unchanged, exactly as [`spec_calendar_dates_of`] says of
/// the parsed bytes.  The complete collection, or exactly one decode
/// error — never a partial result.
#[verifier::loop_isolation(false)]
pub fn calendar_dates_from_body(bytes: &[u8]) -> (r: Result<Vec<CalendarDate>, Error>)
    ensures
        r matches Ok(v) ==> spec_calendar_dates_of(spec_json_parse(bytes@)) == Some(
            v@.map_values(|x: CalendarDate| x@),
        ),
        r is Err <==> spec_calendar_dates_of(spec_json_parse(bytes@)) is None,
        r matches Err(e) ==> e is DeserializeError,
        r matches Ok(dates) ==> forall|k: int| 0 <= k < dates@.len() ==> dates@[k].date.wf(),
{
    let root = match json_parse(bytes) {
        Ok(v) => v,
        Err(msg) => {
            return Err(Error::DeserializeError(msg));
        },
    };
    let items = match req_array(&root, "calendar_dates") {
        Ok(a) => a,
        Err(e) => {
            return Err(e);
        },
    };
    let ghost models = items@.map_values(|e: serde_json::Value| json_model(e));
    let mut out: Vec<CalendarDate> = Vec::new();
    let mut i: usize = 0;
    while i < items.len()
        invariant
            i <= items.len(),
            spec_list_of(models.take(i as int), |e: JsonModel| spec_calendar_date_of(e)) == Some(
                out@.map_values(|x: CalendarDate| x@),
            ),
            forall|k: int| 0 <= k < out@.len() ==> out@[k].date.wf(),
        decreases items.len() - i,
    {
        match decode_calendar_date(&items[i]) {
            Ok(x) => {
                let ghost old_out = out@;
                out.push(x);
                proof {
                    let taken = models.take(i as int + 1);
                    assert(taken.drop_last() =~= models.take(i as int));
                    assert(taken.last() == models[i as int]);
                    assert(out@.map_values(|x: CalendarDate| x@) =~= old_out.map_values(
                        |x: CalendarDate| x@,
                    ).push(x@));
                }
            },
            Err(e) => {
                proof {
                    assert(models[i as int] == json_model(items@[i as int]));
                    if spec_list_of(models, |e: JsonModel| spec_calendar_date_of(e)) is Some {
                        crate::json::lemma_list_of_some(
                            models,
                            |e: JsonModel| spec_calendar_date_of(e),
                        );
                        assert(false);
                    }
                }
                return Err(e);
            },
        }
        i = i + 1;
    }
    proof {
        assert(models.take(items@.len() as int) =~= models);
    }
    Ok(out)
}

} // verus!
