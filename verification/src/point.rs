use vstd::prelude::*;
use vstd::string::*;

verus! {

/// A geographic coordinate. Each part is held as the decimal text that is
/// sent to the service, which alone judges whether it names a place.
#[derive(Clone, Debug, PartialEq, Eq)]
pub struct Point {
    pub longitude: String,
    pub latitude: String,
}

/// What a `Point` holds, as plain text.
pub struct PointView {
    pub longitude: Seq<char>,
    pub latitude: Seq<char>,
}

impl View for Point {
    type V = PointView;

    open spec fn view(&self) -> PointView {
        PointView { longitude: self.longitude@, latitude: self.latitude@ }
    }
}

impl PointView {
    /// The point as one query value: latitude, a comma, longitude.
    pub open spec fn pair_text(self) -> Seq<char> {
        self.latitude + ","@ + self.longitude
    }
}

impl Point {
    /// Renders the point as one query value, latitude first.
    pub fn pair_text(&self) -> (text: String)
        ensures
            text@ == self@.pair_text(),
    {
        let mut text = self.latitude.clone();
        text.append(",");
        text.append(self.longitude.as_str());
        text
    }
}

} // verus!
