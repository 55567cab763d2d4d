use vstd::prelude::*;

verus! {

/// A playing card: a rank ("2" to "10", "J", "Q", "K", "A") and a suit, both as text.
#[derive(Clone, Debug)]
pub struct Card {
    pub rank: String,
    pub suit: String,
}

impl View for Card {
    /// A card is its rank text and its suit text.
    type V = (Seq<char>, Seq<char>);

    open spec fn view(&self) -> (Seq<char>, Seq<char>) {
        (self.rank@, self.suit@)
    }
}

impl PartialEq for Card {
    /// Two cards are equal when their ranks and their suits are.
    fn eq(&self, other: &Card) -> (r: bool) {
        self.rank == other.rank && self.suit == other.suit
    }
}

impl vstd::std_specs::cmp::PartialEqSpecImpl for Card {
    open spec fn obeys_eq_spec() -> bool {
        true
    }

    open spec fn eq_spec(&self, other: &Card) -> bool {
        self@ == other@
    }
}

} // verus!
