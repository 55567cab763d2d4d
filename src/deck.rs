use vstd::prelude::*;

use std::ops::{Index, Range};
use vstd::std_specs::iter::IteratorSpec;

use crate::card::Card;

verus! {

/// The rank with the given place in rank order, 0 for "2" up to 12 for "A".
pub open spec fn rank_text(r: int) -> Seq<char> {
    if r == 0 {
        "2"@
    } else if r == 1 {
        "3"@
    } else if r == 2 {
        "4"@
    } else if r == 3 {
        "5"@
    } else if r == 4 {
        "6"@
    } else if r == 5 {
        "7"@
    } else if r == 6 {
        "8"@
    } else if r == 7 {
        "9"@
    } else if r == 8 {
        "10"@
    } else if r == 9 {
        "J"@
    } else if r == 10 {
        "Q"@
    } else if r == 11 {
        "K"@
    } else {
        "A"@
    }
}

/// The suit with the given place in suit order: spades, diamonds, clubs, hearts.
pub open spec fn suit_text(s: int) -> Seq<char> {
    if s == 0 {
        "spades"@
    } else if s == 1 {
        "diamonds"@
    } else if s == 2 {
        "clubs"@
    } else {
        "hearts"@
    }
}

/// The card at position `k` of a fresh deck: suits in order, and within each
/// suit the thirteen ranks in order.
pub open spec fn standard_card(k: int) -> (Seq<char>, Seq<char>) {
    (rank_text(k % 13), suit_text(k / 13))
}

/// The 52 cards of a fresh deck, in order.
pub open spec fn standard_deck() -> Seq<(Seq<char>, Seq<char>)> {
    Seq::new(52, |k: int| standard_card(k))
}

/// The text of rank number `r`.
fn rank_name(r: usize) -> (t: &'static str)
    requires
        r < 13,
    ensures
        t@ == rank_text(r as int),
{
    match r {
        0 => "2",
        1 => "3",
        2 => "4",
        3 => "5",
        4 => "6",
        5 => "7",
        6 => "8",
        7 => "9",
        8 => "10",
        9 => "J",
        10 => "Q",
        11 => "K",
        _ => "A",
    }
}

/// The text of suit number `s`.
fn suit_name(s: usize) -> (t: &'static str)
    requires
        s < 4,
    ensures
        t@ == suit_text(s as int),
{
    match s {
        0 => "spades",
        1 => "diamonds",
        2 => "clubs",
        _ => "hearts",
    }
}

/// An ordered, read-only collection of elements.
///
/// `position` is a cursor kept as part of the state; no operation reads or
/// writes it.
pub struct FrenchDeck<T> {
    cards: Vec<T>,
    position: usize,
}

impl<T> View for FrenchDeck<T> {
    type V = Seq<T>;

    closed spec fn view(&self) -> Seq<T> {
        self.cards@
    }
}

impl FrenchDeck<Card> {
    /// A fresh deck of the 52 cards, suit by suit (spades, diamonds, clubs,
    /// hearts), each suit from "2" up to "A".
    pub fn new() -> (d: FrenchDeck<Card>)
        ensures
            d@.len() == 52,
            d@.map_values(|c: Card| c@) == standard_deck(),
    {
        let mut cards: Vec<Card> = Vec::new();
        let mut s: usize = 0;
        while s < 4
            invariant
                s <= 4,
                cards@.len() == 13 * s,
                forall|k: int| 0 <= k < cards@.len() ==> #[trigger] cards@[k]@ == standard_card(k),
            decreases 4 - s,
        {
            let mut r: usize = 0;
            while r < 13
                invariant
                    s < 4,
                    r <= 13,
                    cards@.len() == 13 * s + r,
                    forall|k: int| 0 <= k < cards@.len() ==> #[trigger] cards@[k]@ == standard_card(k),
                decreases 13 - r,
            {
                let card = Card { rank: rank_name(r).to_owned(), suit: suit_name(s).to_owned() };
                assert(card@ == standard_card(13 * s + r));
                cards.push(card);
                r = r + 1;
            }
            s = s + 1;
        }
        let d = FrenchDeck { cards, position: 0 };
        assert(d@.map_values(|c: Card| c@) =~= standard_deck());
        d
    }
}

impl<T> FrenchDeck<T> {
    /// The number of elements held.
    pub fn len(&self) -> (r: usize)
        ensures
            r == self@.len(),
    {
        self.cards.len()
    }
}

impl<T> vstd::std_specs::core::IndexSpecImpl<usize> for FrenchDeck<T> {
    open spec fn index_req(&self, index: &usize) -> bool {
        *index < self@.len()
    }
}

impl<T> Index<usize> for FrenchDeck<T> {
    type Output = T;

    /// The element at position `index`, by reference; out of bounds is a
    /// caller error.
    fn index(&self, index: usize) -> (r: &T)
        ensures
            *r == self@[index as int],
    {
        &self.cards[index]
    }
}

impl<T> vstd::std_specs::core::IndexSpecImpl<Range<usize>> for FrenchDeck<T> {
    open spec fn index_req(&self, index: &Range<usize>) -> bool {
        index.start <= index.end <= self@.len()
    }
}

impl<T> Index<Range<usize>> for FrenchDeck<T> {
    type Output = [T];

    /// A view of the elements from `index.start` up to, not including,
    /// `index.end`, in order, without copying them.
    fn index(&self, index: Range<usize>) -> (r: &[T])
        ensures
            r@ == self@.subrange(index.start as int, index.end as int),
    {
        vstd::slice::slice_subrange(self.cards.as_slice(), index.start, index.end)
    }
}

impl<'a, T> IntoIterator for &'a FrenchDeck<T> {
    type Item = &'a T;
    type IntoIter = std::slice::Iter<'a, T>;

    /// The elements, by reference, from first to last.
    fn into_iter(self) -> (it: std::slice::Iter<'a, T>)
        ensures
            it.remaining() == self@.as_ref(),
            IteratorSpec::decrease(&it) is Some,
            IteratorSpec::initial_value_relation(&it, &it),
    {
        self.cards.as_slice().iter()
    }
}

/// Taking the range from 0 to the length gives the same elements, in the
/// same order, as iterating over the whole deck.
pub proof fn lemma_full_range_is_iteration<T>(deck: &FrenchDeck<T>)
    ensures
        deck@.subrange(0, deck@.len() as int).as_ref() == deck@.as_ref(),
{
    assert(deck@.subrange(0, deck@.len() as int) =~= deck@);
}

/// Iterating over a fresh deck yields exactly 52 elements, and the `i`-th of
/// them is the element at index `i`.
pub proof fn lemma_fresh_iteration_complete(deck: &FrenchDeck<Card>)
    requires
        deck@.map_values(|c: Card| c@) == standard_deck(),
    ensures
        deck@.as_ref().len() == 52,
        forall|i: int| 0 <= i < 52 ==> #[trigger] deck@.as_ref()[i] == &deck@[i],
{
    assert(deck@.map_values(|c: Card| c@).len() == 52);
}

} // verus!
