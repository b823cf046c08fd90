use vstd::prelude::*;
use vstd::string::*;
use crate::header::header_text;
use crate::point::PointView;
use crate::vehicle::Type;

verus! {

/// One query parameter or header: a name and a value.
pub type Pair = (String, String);

/// A `Pair` as plain text.
pub type PairView = (Seq<char>, Seq<char>);

/// A GET request, described by what it carries.
#[derive(Clone, Debug, PartialEq, Eq)]
pub struct Request {
    /// The endpoint, without a query.
    pub url: String,
    /// The query parameters, in the order they are sent.
    pub query: Vec<Pair>,
    /// The headers that accompany the request.
    pub headers: Vec<Pair>,
}

/// What a `Request` holds, as plain text.
pub struct RequestView {
    pub url: Seq<char>,
    pub query: Seq<PairView>,
    pub headers: Seq<PairView>,
}

impl View for Request {
    type V = RequestView;

    open spec fn view(&self) -> RequestView {
        RequestView {
            url: self.url@,
            query: self.query.deep_view(),
            headers: self.headers.deep_view(),
        }
    }
}

/// The endpoint that computes routes.
pub const DIRECTION_URL: &'static str = "https://api.neshan.org/v3/direction";

/// The endpoint that finds the address of a point.
pub const REVERSE_URL: &'static str = "https://api.neshan.org/v2/reverse";

/// The header that carries the API key.
pub const API_KEY_HEADER: &'static str = "Api-Key";

/// The header that names the client.
pub const USER_AGENT_HEADER: &'static str = "User-Agent";

/// The name this client gives itself.
pub const USER_AGENT: &'static str = "neshan-rs";

/// A flag as the service reads it: the word `true` or the word `false`.
pub open spec fn flag_text(flag: bool) -> Seq<char> {
    if flag {
        "true"@
    } else {
        "false"@
    }
}

/// The headers of every request: the API key, and the name of this client.
pub open spec fn headers_for(key: Seq<char>) -> Seq<PairView> {
    seq![(API_KEY_HEADER@, key), (USER_AGENT_HEADER@, USER_AGENT@)]
}

/// The query of a route request.
pub open spec fn route_query(
    vehicle: Type,
    origin: PointView,
    destination: PointView,
    avoid_traffic_zone: bool,
    avoid_odd_even_zone: bool,
    alternative_paths: bool,
) -> Seq<PairView> {
    seq![
        ("type"@, vehicle.token()),
        ("origin"@, origin.pair_text()),
        ("destination"@, destination.pair_text()),
        ("avoid_traffic_zone"@, flag_text(avoid_traffic_zone)),
        ("avoid_odd_even_zone"@, flag_text(avoid_odd_even_zone)),
        ("alternative"@, flag_text(alternative_paths)),
    ]
}

/// The query of a reverse-geocoding request.
pub open spec fn reverse_query(point: PointView) -> Seq<PairView> {
    seq![("lat"@, point.latitude), ("lng"@, point.longitude)]
}

/// The request for routes from `origin` to `destination`, sent with the API
/// key `key`.
pub open spec fn route_request(
    key: Seq<char>,
    vehicle: Type,
    origin: PointView,
    destination: PointView,
    avoid_traffic_zone: bool,
    avoid_odd_even_zone: bool,
    alternative_paths: bool,
) -> RequestView {
    RequestView {
        url: DIRECTION_URL@,
        query: route_query(
            vehicle,
            origin,
            destination,
            avoid_traffic_zone,
            avoid_odd_even_zone,
            alternative_paths,
        ),
        headers: headers_for(key),
    }
}

/// The request for the address of `point`, sent with the API key `key`.
pub open spec fn reverse_request(key: Seq<char>, point: PointView) -> RequestView {
    RequestView { url: REVERSE_URL@, query: reverse_query(point), headers: headers_for(key) }
}

pub(crate) fn flag_to_string(flag: bool) -> (text: String)
    ensures
        text@ == flag_text(flag),
{
    if flag {
        "true".to_string()
    } else {
        "false".to_string()
    }
}

pub(crate) fn pair(name: &str, value: String) -> (made: Pair)
    ensures
        made.deep_view() == (name@, value@),
{
    (name.to_string(), value)
}

pub(crate) fn headers(key: &str) -> (made: Vec<Pair>)
    ensures
        made.deep_view() == headers_for(key@),
{
    let mut made: Vec<Pair> = Vec::new();
    made.push(pair(API_KEY_HEADER, key.to_string()));
    made.push(pair(USER_AGENT_HEADER, USER_AGENT.to_string()));
    assert(made.deep_view() =~= headers_for(key@));
    made
}

/// With a key that can be sent as a header value, the value of every header
/// of a request can be sent as one.
pub proof fn lemma_header_values_can_be_sent(key: Seq<char>)
    requires
        header_text(key),
    ensures
        forall|i: int|
            0 <= i < headers_for(key).len() ==> header_text((#[trigger] headers_for(key)[i]).1),
{
    reveal_strlit("neshan-rs");
}

/// In the query of a route request exactly one parameter is named `origin`
/// and exactly one `destination`. The value of each is the latitude of its
/// point, a comma, and the longitude, in that order.
pub proof fn lemma_route_query_names_each_end_once(
    vehicle: Type,
    origin: PointView,
    destination: PointView,
    avoid_traffic_zone: bool,
    avoid_odd_even_zone: bool,
    alternative_paths: bool,
)
    ensures
        ({
            let query = route_query(
                vehicle,
                origin,
                destination,
                avoid_traffic_zone,
                avoid_odd_even_zone,
                alternative_paths,
            );
            &&& forall|i: int|
                0 <= i < query.len() ==> ((#[trigger] query[i]).0 == "origin"@ <==> i == 1)
            &&& forall|i: int|
                0 <= i < query.len() ==> ((#[trigger] query[i]).0 == "destination"@ <==> i == 2)
            &&& query[1].1 == origin.latitude + seq![','] + origin.longitude
            &&& query[2].1 == destination.latitude + seq![','] + destination.longitude
        }),
{
    reveal_strlit("type");
    reveal_strlit("origin");
    reveal_strlit("destination");
    reveal_strlit("avoid_traffic_zone");
    reveal_strlit("avoid_odd_even_zone");
    reveal_strlit("alternative");
    reveal_strlit(",");
    assert(","@ =~= seq![',']);
    assert("type"@.len() == 4);
    assert("origin"@.len() == 6);
    assert("destination"@.len() == 11);
    assert("avoid_traffic_zone"@.len() == 18);
    assert("avoid_odd_even_zone"@.len() == 19);
    assert("alternative"@.len() == 11);
    assert("destination"@[0] == 'd' && "alternative"@[0] == 'a');
}

/// A flag is written as the word `true` or the word `false`, letter by
/// letter, and so never as a digit.
pub proof fn lemma_flag_text_is_a_word(flag: bool)
    ensures
        flag ==> flag_text(flag) == seq!['t', 'r', 'u', 'e'],
        !flag ==> flag_text(flag) == seq!['f', 'a', 'l', 's', 'e'],
        flag_text(flag) != seq!['1'],
        flag_text(flag) != seq!['0'],
{
    reveal_strlit("true");
    reveal_strlit("false");
    assert("true"@ =~= seq!['t', 'r', 'u', 'e']);
    assert("false"@ =~= seq!['f', 'a', 'l', 's', 'e']);
}

/// Every flag of a route request is written as a word: the last three
/// parameters of the query hold `true` or `false` according to the flags.
pub proof fn lemma_route_query_flags_are_words(
    vehicle: Type,
    origin: PointView,
    destination: PointView,
    avoid_traffic_zone: bool,
    avoid_odd_even_zone: bool,
    alternative_paths: bool,
)
    ensures
        ({
            let query = route_query(
                vehicle,
                origin,
                destination,
                avoid_traffic_zone,
                avoid_odd_even_zone,
                alternative_paths,
            );
            &&& query.len() == 6
            &&& query[3] == ("avoid_traffic_zone"@, flag_text(avoid_traffic_zone))
            &&& query[4] == ("avoid_odd_even_zone"@, flag_text(avoid_odd_even_zone))
            &&& query[5] == ("alternative"@, flag_text(alternative_paths))
            &&& forall|i: int|
                3 <= i < 6 ==> (#[trigger] query[i]).1 == seq!['t', 'r', 'u', 'e'] || query[i].1
                    == seq!['f', 'a', 'l', 's', 'e']
        }),
{
    lemma_flag_text_is_a_word(avoid_traffic_zone);
    lemma_flag_text_is_a_word(avoid_odd_even_zone);
    lemma_flag_text_is_a_word(alternative_paths);
}

} // verus!
