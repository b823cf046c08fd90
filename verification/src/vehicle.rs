use vstd::prelude::*;
use vstd::string::*;

verus! {

/// The kind of vehicle a route is computed for.
#[derive(Clone, Copy, Debug, PartialEq, Eq, Structural)]
pub enum Type {
    Car,
    Motorcycle,
}

impl Type {
    /// The token that names this vehicle in a query.
    pub open spec fn token(self) -> Seq<char> {
        match self {
            Type::Car => "car"@,
            Type::Motorcycle => "motorcycle"@,
        }
    }

    /// Renders the vehicle as its query token.
    pub fn to_string(&self) -> (s: String)
        ensures
            s@ == self.token(),
    {
        match self {
            Type::Car => "car".to_string(),
            Type::Motorcycle => "motorcycle".to_string(),
        }
    }
}

/// Each vehicle has a token of its own: `car` for a car and `motorcycle`
/// for a motorcycle, letter by letter.
pub proof fn lemma_tokens_spelled(vehicle: Type)
    ensures
        vehicle == Type::Car <==> vehicle.token() == seq!['c', 'a', 'r'],
        vehicle == Type::Motorcycle <==> vehicle.token() == seq![
            'm',
            'o',
            't',
            'o',
            'r',
            'c',
            'y',
            'c',
            'l',
            'e',
        ],
{
    reveal_strlit("car");
    reveal_strlit("motorcycle");
    assert("car"@ =~= seq!['c', 'a', 'r']);
    assert("motorcycle"@ =~= seq!['m', 'o', 't', 'o', 'r', 'c', 'y', 'c', 'l', 'e']);
}

} // verus!
