use vstd::prelude::*;

verus! {

/// Stable external identifier of one tracked account.
pub struct Puuid(pub String);

/// Stable external identifier of one played match.
pub struct RiotMatchId(pub String);

impl Puuid {
    pub fn new(s: String) -> (r: Puuid)
        ensures
            r@ == s@,
    {
        Puuid(s)
    }
}

impl View for Puuid {
    type V = Seq<char>;

    open spec fn view(&self) -> Seq<char> {
        self.0@
    }
}

impl DeepView for Puuid {
    type V = Seq<char>;

    open spec fn deep_view(&self) -> Seq<char> {
        self.0@
    }
}

impl RiotMatchId {
    pub fn new(s: String) -> (r: RiotMatchId)
        ensures
            r@ == s@,
    {
        RiotMatchId(s)
    }
}

impl View for RiotMatchId {
    type V = Seq<char>;

    open spec fn view(&self) -> Seq<char> {
        self.0@
    }
}

impl DeepView for RiotMatchId {
    type V = Seq<char>;

    open spec fn deep_view(&self) -> Seq<char> {
        self.0@
    }
}

} // verus!
