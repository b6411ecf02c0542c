//! Flight records and how they are read out of the site's answers.

use crate::duration::{pretty_duration, pretty_duration_text};
use crate::json::{
    elements, format_one_decimal, json_document, json_elements, json_member, json_number,
    json_pointer, json_text, json_u64, member, number_of, one_decimal, parse_document, pointer,
    text, text_at, text_or_empty, unsigned,
};
use crate::text::{date_of, date_part, decimal_text, parse_u64, parsed_u64, u64_to_decimal};
use serde_json::{Number, Value};
use vstd::prelude::*;

verus! {

/// Why a pilot's data could not be had.
#[derive(Clone, Debug, PartialEq, Eq)]
pub enum PilotError {
    /// The request failed in transport, or the answer's status was not 2xx.
    Network(String),
    /// The profile page holds no pilot id.
    UsernameNotFound,
    /// The answer is not JSON; the parser's message is kept.
    JsonError(String),
    /// A mandatory field is absent or of the wrong type.
    MissingField,
}

/// A `PilotError` with its messages as character sequences.
pub enum PilotErrorView {
    Network(Seq<char>),
    UsernameNotFound,
    JsonError(Seq<char>),
    MissingField,
}

impl View for PilotError {
    type V = PilotErrorView;

    open spec fn view(&self) -> PilotErrorView {
        match *self {
            PilotError::Network(message) => PilotErrorView::Network(message@),
            PilotError::UsernameNotFound => PilotErrorView::UsernameNotFound,
            PilotError::JsonError(message) => PilotErrorView::JsonError(message@),
            PilotError::MissingField => PilotErrorView::MissingField,
        }
    }
}

/// The scored geometry of a flight. Distance (in kilometres) and points are
/// kept as the JSON numbers they arrived as.
#[derive(Clone, Debug, PartialEq)]
pub struct Route {
    pub route_type: String,
    pub distance: Number,
    pub points: Number,
}

/// A `Route` with its text as a character sequence.
pub struct RouteView {
    pub route_type: Seq<char>,
    pub distance: Number,
    pub points: Number,
}

impl View for Route {
    type V = RouteView;

    open spec fn view(&self) -> RouteView {
        RouteView { route_type: self.route_type@, distance: self.distance, points: self.points }
    }
}

/// One logged flight.
#[derive(Clone, Debug, PartialEq)]
pub struct Flight {
    pub id: u64,
    /// ISO-8601 duration, such as `PT2H15M`.
    pub duration: String,
    /// ISO-8601 date-time; its first ten characters are the date.
    pub start_time: String,
    pub url: String,
    pub route: Route,
    /// The pilot's display name.
    pub by: String,
}

/// A `Flight` with its texts as character sequences.
pub struct FlightView {
    pub id: u64,
    pub duration: Seq<char>,
    pub start_time: Seq<char>,
    pub url: Seq<char>,
    pub route: RouteView,
    pub by: Seq<char>,
}

impl View for Flight {
    type V = FlightView;

    open spec fn view(&self) -> FlightView {
        FlightView {
            id: self.id,
            duration: self.duration@,
            start_time: self.start_time@,
            url: self.url@,
            route: self.route@,
            by: self.by@,
        }
    }
}

/// The views of a list of flights, in order.
pub open spec fn flight_views(flights: Seq<Flight>) -> Seq<FlightView> {
    Seq::new(flights.len(), |i: int| flights[i]@)
}

/// The route that a JSON value describes: an object whose `type` is a
/// string and whose `distance` and `points` are numbers. Other members are
/// ignored.
pub open spec fn route_in(value: Value) -> Option<RouteView> {
    match (
        json_member(value, "type"@),
        json_member(value, "distance"@),
        json_member(value, "points"@),
    ) {
        (Some(kind), Some(distance), Some(points)) => match (
            json_text(kind),
            json_number(distance),
            json_number(points),
        ) {
            (Some(route_type), Some(distance), Some(points)) => Some(
                RouteView { route_type, distance, points },
            ),
            _ => None,
        },
        _ => None,
    }
}

/// The flight that one element of `items` describes. `id` and the route are
/// mandatory; each of the four texts is empty where the record has none.
pub open spec fn flight_in(item: Value) -> Option<FlightView> {
    match (json_member(item, "id"@), json_pointer(item, "/league/route"@)) {
        (Some(id), Some(route)) => match (json_u64(id), route_in(route)) {
            (Some(id), Some(route)) => Some(
                FlightView {
                    id,
                    duration: text_at(item, "/stats/duration"@),
                    start_time: text_at(item, "/pointStart/time"@),
                    url: text_at(item, "/league/flight/link"@),
                    route,
                    by: text_at(item, "/pilot/name"@),
                },
            ),
            _ => None,
        },
        _ => None,
    }
}

/// The flights that a list of records describes, in the order given; one
/// record without its mandatory fields fails the whole list.
pub open spec fn flights_among(items: Seq<Value>) -> Result<Seq<FlightView>, PilotErrorView> {
    if forall|i: int| 0 <= i < items.len() ==> (#[trigger] flight_in(items[i])) is Some {
        Ok(Seq::new(items.len(), |i: int| flight_in(items[i])->Some_0))
    } else {
        Err(PilotErrorView::MissingField)
    }
}

/// The flights that a parsed answer holds under its `items` array.
pub open spec fn flights_in_document(document: Value) -> Result<Seq<FlightView>, PilotErrorView> {
    match json_member(document, "items"@) {
        Some(items) => match json_elements(items) {
            Some(records) => flights_among(records),
            None => Err(PilotErrorView::MissingField),
        },
        None => Err(PilotErrorView::MissingField),
    }
}

/// The flights that the text of an answer holds.
pub open spec fn flights_in_text(body: Seq<char>) -> Result<Seq<FlightView>, PilotErrorView> {
    match json_document(body) {
        Ok(document) => flights_in_document(document),
        Err(message) => Err(PilotErrorView::JsonError(message)),
    }
}

/// What a function that reads flights returned, as views.
pub open spec fn flights_outcome(
    outcome: Result<Vec<Flight>, PilotError>,
) -> Result<Seq<FlightView>, PilotErrorView> {
    match outcome {
        Ok(flights) => Ok(flight_views(flights@)),
        Err(error) => Err(error@),
    }
}

/// Reads a route record.
pub fn route_from(value: &Value) -> (r: Option<Route>)
    ensures
        match r {
            Some(route) => route_in(*value) == Some(route@),
            None => route_in(*value) is None,
        },
{
    let kind = match member(value, "type") {
        Some(found) => found,
        None => { return None; },
    };
    let distance = match member(value, "distance") {
        Some(found) => found,
        None => { return None; },
    };
    let points = match member(value, "points") {
        Some(found) => found,
        None => { return None; },
    };
    match (text(kind), number_of(distance), number_of(points)) {
        (Some(route_type), Some(distance), Some(points)) => Some(
            Route {
                route_type: String::from_str(route_type),
                distance: distance.clone(),
                points: points.clone(),
            },
        ),
        _ => None,
    }
}

/// Reads one flight record.
pub fn flight_from(item: &Value) -> (r: Option<Flight>)
    ensures
        match r {
            Some(flight) => flight_in(*item) == Some(flight@),
            None => flight_in(*item) is None,
        },
{
    let id = match member(item, "id") {
        Some(found) => match unsigned(found) {
            Some(id) => id,
            None => { return None; },
        },
        None => { return None; },
    };
    let duration = text_or_empty(item, "/stats/duration");
    let by = text_or_empty(item, "/pilot/name");
    let start_time = text_or_empty(item, "/pointStart/time");
    let url = text_or_empty(item, "/league/flight/link");
    let route = match pointer(item, "/league/route") {
        Some(found) => match route_from(found) {
            Some(route) => route,
            None => { return None; },
        },
        None => { return None; },
    };
    Some(Flight { id, duration, start_time, url, route, by })
}

/// Reads the flights out of a parsed answer, in the order the server gave.
pub fn flights_from_document(document: &Value) -> (r: Result<Vec<Flight>, PilotError>)
    ensures
        flights_outcome(r) == flights_in_document(*document),
{
    let records = match member(document, "items") {
        Some(items) => match elements(items) {
            Some(records) => records,
            None => { return Err(PilotError::MissingField); },
        },
        None => { return Err(PilotError::MissingField); },
    };
    let mut flights: Vec<Flight> = Vec::new();
    let mut i: usize = 0;
    while i < records.len()
        invariant
            i <= records.len(),
            flights.len() == i,
            flights_in_document(*document) == flights_among(records@),
            forall|k: int|
                #![trigger flight_in(records@[k])]
                #![trigger flights@[k]]
                0 <= k < i ==> flight_in(records@[k]) == Some(flights@[k]@),
        decreases records.len() - i,
    {
        match flight_from(&records[i]) {
            Some(flight) => {
                flights.push(flight);
            },
            None => {
                return Err(PilotError::MissingField);
            },
        }
        i += 1;
    }
    assert(flight_views(flights@) =~= Seq::new(
        records@.len(),
        |i: int| flight_in(records@[i])->Some_0,
    ));
    Ok(flights)
}

/// Reads the flights out of the text of an answer.
pub fn flights_from_text(body: &str) -> (r: Result<Vec<Flight>, PilotError>)
    ensures
        flights_outcome(r) == flights_in_text(body@),
{
    match parse_document(body) {
        Ok(document) => flights_from_document(&document),
        Err(message) => Err(PilotError::JsonError(message)),
    }
}

/// The message of an error, as a reader of the diagnostics sees it.
pub open spec fn error_message(error: PilotErrorView) -> Seq<char> {
    match error {
        PilotErrorView::Network(message) => "Network error: "@ + message,
        PilotErrorView::UsernameNotFound => "Username not found in page"@,
        PilotErrorView::JsonError(message) => "JSON error: "@ + message,
        PilotErrorView::MissingField => "Missing expected field in response"@,
    }
}

impl PilotError {
    /// The message of this error.
    pub fn message(&self) -> (r: String)
        ensures
            r@ == error_message(self@),
    {
        match self {
            PilotError::Network(message) => {
                String::from_str("Network error: ").concat(message.as_str())
            },
            PilotError::UsernameNotFound => String::from_str("Username not found in page"),
            PilotError::JsonError(message) => {
                String::from_str("JSON error: ").concat(message.as_str())
            },
            PilotError::MissingField => String::from_str("Missing expected field in response"),
        }
    }
}

/// The user agent that the flights are asked for with.
pub const BROWSER_AGENT: &'static str = "Mozilla/5.0 (Windows NT 10.0; Win64; x64) AppleWebKit/537.36 (KHTML, like Gecko) Chrome/115.0.0.0 Safari/537.36";

/// An HTTP GET to be sent: where to, and with which headers.
#[derive(Clone, Debug, PartialEq, Eq)]
pub struct Request {
    pub url: String,
    /// Header names with their values, in the order to set them.
    pub headers: Vec<(String, String)>,
}

/// A `Request` with its texts as character sequences.
pub struct RequestView {
    pub url: Seq<char>,
    pub headers: Seq<(Seq<char>, Seq<char>)>,
}

impl View for Request {
    type V = RequestView;

    open spec fn view(&self) -> RequestView {
        RequestView {
            url: self.url@,
            headers: Seq::new(
                self.headers@.len(),
                |i: int| (self.headers@[i].0@, self.headers@[i].1@),
            ),
        }
    }
}

/// The request for a pilot's public profile page. The username goes into
/// the path as it is.
pub open spec fn pilot_page_request_for(username: Seq<char>) -> RequestView {
    RequestView {
        url: "https://www.xcontest.org/world/en/pilots/detail:"@ + username,
        headers: seq![
            ("Accept-Language"@, "en-US,en;q=0.9"@),
            ("User-Agent"@, "Mozilla/5.0"@),
        ],
    }
}

/// The request for the flights that a pilot logged, newest claim first, at
/// most 250 of them. Key and pilot id go into the query as they are.
pub open spec fn flights_request_for(pilot_id: u64, key: Seq<char>) -> RequestView {
    RequestView {
        url: "https://www.xcontest.org/api/data/?flights/world/2025&lng=en&key="@ + key
            + "&list[start]=0&list[num]=250&list[sort]=time_claim&list[dir]=down&filter[pilot]="@
            + decimal_text(pilot_id as nat),
        headers: seq![
            ("Accept-Language"@, "en-US,en"@),
            ("Accept"@, "application/json"@),
            ("User-Agent"@, BROWSER_AGENT@),
        ],
    }
}

/// Builds the request for a pilot's public profile page.
pub fn pilot_page_request(username: &str) -> (request: Request)
    ensures
        request@ == pilot_page_request_for(username@),
{
    let url = String::from_str("https://www.xcontest.org/world/en/pilots/detail:").concat(
        username,
    );
    let mut headers: Vec<(String, String)> = Vec::new();
    headers.push((String::from_str("Accept-Language"), String::from_str("en-US,en;q=0.9")));
    headers.push((String::from_str("User-Agent"), String::from_str("Mozilla/5.0")));
    let request = Request { url, headers };
    assert(request@.headers =~= pilot_page_request_for(username@).headers);
    request
}

/// Builds the request for a pilot's flights.
pub fn flights_request(pilot_id: u64, key: &str) -> (request: Request)
    ensures
        request@ == flights_request_for(pilot_id, key@),
{
    let mut url = String::from_str(
        "https://www.xcontest.org/api/data/?flights/world/2025&lng=en&key=",
    );
    url.append(key);
    url.append(
        "&list[start]=0&list[num]=250&list[sort]=time_claim&list[dir]=down&filter[pilot]=",
    );
    url.append(u64_to_decimal(pilot_id).as_str());
    let mut headers: Vec<(String, String)> = Vec::new();
    headers.push((String::from_str("Accept-Language"), String::from_str("en-US,en")));
    headers.push((String::from_str("Accept"), String::from_str("application/json")));
    headers.push((String::from_str("User-Agent"), String::from_str(BROWSER_AGENT)));
    let request = Request { url, headers };
    assert(request@.headers =~= flights_request_for(pilot_id, key@).headers);
    request
}

/// Whether an HTTP status is one of the 2xx.
pub open spec fn is_success(status: u16) -> bool {
    200 <= status <= 299
}

/// The error for an answer whose status is not 2xx.
pub open spec fn status_error(status: u16) -> PilotErrorView {
    PilotErrorView::Network("HTTP status "@ + decimal_text(status as nat))
}

fn error_for_status(status: u16) -> (error: PilotError)
    ensures
        error@ == status_error(status),
{
    let code = u64_to_decimal(status as u64);
    PilotError::Network(String::from_str("HTTP status ").concat(code.as_str()))
}

/// The regular expression that finds the pilot id in a profile page; its
/// first group holds the digits.
pub const PILOT_ID_PATTERN: &'static str = "item\\s*:\\s*(\\d+)";

/// The text of a capture group in the leftmost match of a pattern, as the
/// `regex` crate finds it: `Regex::new`, `Regex::captures`, `Captures::get`.
/// `None` where the pattern does not compile, where nothing matches, and
/// where the group is none of the pattern's or took no part in the match.
pub uninterp spec fn regex_capture(pattern: Seq<char>, haystack: Seq<char>, group: usize) -> Option<
    Seq<char>,
>;

/// Calls `regex::Regex::new`, `Regex::captures` and `Captures::get`, and
/// copies the group's text out. The contract claims that the outcome
/// depends on the three arguments alone.
#[verifier::external_body]
fn first_capture(pattern: &str, haystack: &str, group: usize) -> (r: Option<String>)
    ensures
        match r {
            Some(found) => regex_capture(pattern@, haystack@, group) == Some(found@),
            None => regex_capture(pattern@, haystack@, group) is None,
        },
{
    let found = regex::Regex::new(pattern).ok()?.captures(haystack)?.get(group)?;
    Some(found.as_str().to_string())
}

/// A function's answer about a pilot id, as a view.
pub open spec fn id_outcome(outcome: Result<u64, PilotError>) -> Result<u64, PilotErrorView> {
    match outcome {
        Ok(id) => Ok(id),
        Err(error) => Err(error@),
    }
}

/// The pilot id that the captured digits give: without a capture the page
/// names no pilot, and digits that are no 64-bit number are a field gone
/// wrong.
pub open spec fn pilot_id_of_capture(capture: Option<Seq<char>>) -> Result<u64, PilotErrorView> {
    match capture {
        Some(digits) => match parsed_u64(digits) {
            Some(id) => Ok(id),
            None => Err(PilotErrorView::MissingField),
        },
        None => Err(PilotErrorView::UsernameNotFound),
    }
}

/// The pilot id that a profile page names.
pub open spec fn pilot_id_in_page(body: Seq<char>) -> Result<u64, PilotErrorView> {
    pilot_id_of_capture(regex_capture(PILOT_ID_PATTERN@, body, 1))
}

/// Turns the digits captured from a profile page into the pilot id.
pub fn pilot_id_from_capture(capture: Option<&str>) -> (r: Result<u64, PilotError>)
    ensures
        id_outcome(r) == pilot_id_of_capture(
            match capture {
                Some(digits) => Some(digits@),
                None => None,
            },
        ),
{
    match capture {
        Some(digits) => match parse_u64(digits) {
            Some(id) => Ok(id),
            None => Err(PilotError::MissingField),
        },
        None => Err(PilotError::UsernameNotFound),
    }
}

/// Finds the pilot id in the text of a profile page.
pub fn pilot_id_from_page(body: &str) -> (r: Result<u64, PilotError>)
    ensures
        id_outcome(r) == pilot_id_in_page(body@),
{
    match first_capture(PILOT_ID_PATTERN, body, 1) {
        Some(digits) => pilot_id_from_capture(Some(digits.as_str())),
        None => pilot_id_from_capture(None),
    }
}

/// Reads the answer to a profile page request: the pilot id, or why there
/// is none.
pub fn pilot_id_from_response(status: u16, body: &str) -> (r: Result<u64, PilotError>)
    ensures
        id_outcome(r) == if is_success(status) {
            pilot_id_in_page(body@)
        } else {
            Err(status_error(status))
        },
{
    if 200 <= status && status <= 299 {
        pilot_id_from_page(body)
    } else {
        Err(error_for_status(status))
    }
}

/// Reads the answer to a flights request: the flights, or why there are
/// none.
pub fn flights_from_response(status: u16, body: &str) -> (r: Result<Vec<Flight>, PilotError>)
    ensures
        flights_outcome(r) == if is_success(status) {
            flights_in_text(body@)
        } else {
            Err(status_error(status))
        },
{
    if 200 <= status && status <= 299 {
        flights_from_text(body)
    } else {
        Err(error_for_status(status))
    }
}

/// A flight in a few lines of plain text.
pub open spec fn summary_text(flight: FlightView) -> Seq<char> {
    flight.by + "'s Flight on "@ + date_part(flight.start_time) + "\nlasting "@
        + pretty_duration_text(flight.duration) + "\n"@ + flight.route.route_type
        + " with a distance of "@ + one_decimal(flight.route.distance) + "km\nScoring "@
        + one_decimal(flight.route.points) + " points\nURL: "@ + flight.url
}

/// Describes a flight in a few lines of plain text.
pub fn flight_summary(flight: &Flight) -> (summary: String)
    ensures
        summary@ == summary_text(flight@),
{
    let mut summary = flight.by.clone();
    summary.append("'s Flight on ");
    summary.append(date_of(flight.start_time.as_str()));
    summary.append("\nlasting ");
    summary.append(pretty_duration(flight.duration.as_str()).as_str());
    summary.append("\n");
    summary.append(flight.route.route_type.as_str());
    summary.append(" with a distance of ");
    summary.append(format_one_decimal(&flight.route.distance).as_str());
    summary.append("km\nScoring ");
    summary.append(format_one_decimal(&flight.route.points).as_str());
    summary.append(" points\nURL: ");
    summary.append(flight.url.as_str());
    summary
}

} // verus!
