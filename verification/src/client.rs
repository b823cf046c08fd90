use vstd::prelude::*;
use vstd::string::*;
use reqwest::header::HeaderValue;
use crate::header::header_text;
use crate::point::Point;
use crate::request::{
    flag_to_string, headers, pair, reverse_query, reverse_request, route_query, route_request,
    Pair, Request, DIRECTION_URL, REVERSE_URL,
};
use crate::vehicle::Type;

verus! {

/// Why a client could not be made.
#[derive(Clone, Copy, Debug, PartialEq, Eq, Structural)]
pub enum ConfigurationError {
    /// The API key holds a character that no header value may hold.
    InvalidApiKey,
}

/// A client of the service: the API key that every request carries.
pub struct Client {
    api_key: String,
}

impl Client {
    #[verifier::type_invariant]
    spec fn key_is_header_text(self) -> bool {
        header_text(self.api_key@)
    }

    /// The API key this client sends.
    pub closed spec fn key(self) -> Seq<char> {
        self.api_key@
    }

    /// Makes a client for an API key that can be sent as a header value.
    pub fn new(api_key: &str) -> (client: Client)
        requires
            header_text(api_key@),
        ensures
            client.key() == api_key@,
    {
        Client { api_key: api_key.to_string() }
    }

    /// Makes a client if the transport accepts the API key as a header
    /// value, and says so if it does not.
    pub fn try_new(api_key: &str) -> (made: Result<Client, ConfigurationError>)
        ensures
            header_text(api_key@) ==> made is Ok && made->Ok_0.key() == api_key@,
            !header_text(api_key@) ==> made == Err::<Client, ConfigurationError>(
                ConfigurationError::InvalidApiKey,
            ),
    {
        match HeaderValue::from_str(api_key) {
            Ok(_) => Ok(Client::new(api_key)),
            Err(_) => Err(ConfigurationError::InvalidApiKey),
        }
    }

    /// Describes the request for routes from `origin` to `destination`.
    ///
    /// `avoid_traffic_zone` asks for routes that stay out of the traffic
    /// zone, `avoid_odd_even_zone` for routes that stay out of the odd-even
    /// zone, and `alternative_paths` for other routes beside the first.
    pub fn route(
        &self,
        vehicle: Type,
        origin: Point,
        destination: Point,
        avoid_traffic_zone: bool,
        avoid_odd_even_zone: bool,
        alternative_paths: bool,
    ) -> (request: Request)
        ensures
            request@ == route_request(
                self.key(),
                vehicle,
                origin@,
                destination@,
                avoid_traffic_zone,
                avoid_odd_even_zone,
                alternative_paths,
            ),
            header_text(self.key()),
    {
        let mut query: Vec<Pair> = Vec::new();
        query.push(pair("type", vehicle.to_string()));
        query.push(pair("origin", origin.pair_text()));
        query.push(pair("destination", destination.pair_text()));
        query.push(pair("avoid_traffic_zone", flag_to_string(avoid_traffic_zone)));
        query.push(pair("avoid_odd_even_zone", flag_to_string(avoid_odd_even_zone)));
        query.push(pair("alternative", flag_to_string(alternative_paths)));
        assert(query.deep_view() =~= route_query(
            vehicle,
            origin@,
            destination@,
            avoid_traffic_zone,
            avoid_odd_even_zone,
            alternative_paths,
        ));
        Request {
            url: DIRECTION_URL.to_string(),
            query,
            headers: headers(self.api_key()),
        }
    }

    /// Describes the request for the postal address of `point`.
    pub fn reverse_geocode(&self, point: Point) -> (request: Request)
        ensures
            request@ == reverse_request(self.key(), point@),
            header_text(self.key()),
    {
        let mut query: Vec<Pair> = Vec::new();
        query.push(pair("lat", point.latitude));
        query.push(pair("lng", point.longitude));
        assert(query.deep_view() =~= reverse_query(point@));
        Request {
            url: REVERSE_URL.to_string(),
            query,
            headers: headers(self.api_key()),
        }
    }

    /// The API key this client sends.
    pub fn api_key(&self) -> (key: &str)
        ensures
            key@ == self.key(),
            header_text(key@),
    {
        proof {
            use_type_invariant(self);
        }
        self.api_key.as_str()
    }
}

} // verus!
