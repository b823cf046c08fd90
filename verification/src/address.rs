use vstd::prelude::*;

verus! {

/// The postal address of a point. A part that the service has no data for
/// is `None`.
#[derive(Clone, Debug, PartialEq, Eq)]
pub struct PostalAddress {
    pub formatted_address: String,
    pub route_name: String,
    pub neighbourhood: Option<String>,
    pub city: String,
    pub state: String,
    pub place: Option<String>,
    pub municipality_zone: Option<String>,
    pub in_traffic_zone: bool,
    pub in_odd_even_zone: bool,
}

} // verus!
