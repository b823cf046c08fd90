use vstd::prelude::*;

verus! {

/// The routes the service found, the best one first.
#[derive(Clone, Debug, PartialEq, Eq)]
pub struct Routes {
    pub routes: Vec<Route>,
}

/// One way from the origin to the destination, leg by leg.
#[derive(Clone, Debug, PartialEq, Eq)]
pub struct Route {
    pub legs: Vec<Leg>,
}

/// One stretch of a route.
#[derive(Clone, Debug, PartialEq, Eq)]
pub struct Leg {
    pub summary: String,
    pub duration: Duration,
    pub distance: Distance,
}

/// The length of a leg: `value` in metres, `text` in Persian.
#[derive(Clone, Debug, PartialEq, Eq)]
pub struct Distance {
    pub value: u64,
    pub text: String,
}

/// The time a leg takes: `value` in seconds, `text` in Persian.
#[derive(Clone, Debug, PartialEq, Eq)]
pub struct Duration {
    pub value: u64,
    pub text: String,
}

} // verus!
