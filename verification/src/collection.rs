//! A page of search results, and the merging of later pages into it.

use vstd::prelude::*;
use crate::card::{card_text, has_faces_it_needs, Card, CardView, InvariantViolation};
use crate::card::clone_text;
use crate::text::{decimal, decimal_text};

verus! {

/// One page of search results, or several pages merged into one.
#[derive(Debug, PartialEq, Eq)]
pub struct CardCollection {
    /// The number of cards that the search found over all its pages, as the
    /// first page declared it.
    pub total_cards: Option<u64>,
    /// The cards, in the order in which the pages gave them.
    pub data: Vec<Card>,
    /// Where the next page is to be had, while there is one.
    pub next_page: Option<String>,
}

/// The mathematical content of a [`CardCollection`].
pub struct CollectionView {
    pub total_cards: Option<u64>,
    pub cards: Seq<CardView>,
    pub next_page: Option<Seq<char>>,
}

impl View for CardCollection {
    type V = CollectionView;

    open spec fn view(&self) -> CollectionView {
        CollectionView {
            total_cards: self.total_cards,
            cards: self.data.deep_view(),
            next_page: self.next_page.deep_view(),
        }
    }
}

/// A page with a later page merged into it: the cards of both in order, the
/// later page's link, and the earlier page's declared total.
pub open spec fn merged(first: CollectionView, later: CollectionView) -> CollectionView {
    CollectionView {
        total_cards: first.total_cards,
        cards: first.cards + later.cards,
        next_page: later.next_page,
    }
}

/// The text of a list of cards: each card in order, with a blank line after
/// it.
pub open spec fn cards_text(cards: Seq<CardView>) -> Seq<char>
    decreases cards.len(),
{
    if cards.len() == 0 {
        Seq::empty()
    } else {
        cards_text(cards.drop_last()) + card_text(cards.last()) + "\n\n"@
    }
}

/// The text of a collection: the declared total (zero where none was
/// declared), a blank line, then the cards.
pub open spec fn collection_text(collection: CollectionView) -> Seq<char> {
    decimal(
        match collection.total_cards {
            Some(n) => n as nat,
            None => 0,
        },
    ) + " cards\n\n"@ + cards_text(collection.cards)
}

/// Whether every card has the faces that its layout needs.
pub open spec fn all_have_faces(cards: Seq<CardView>) -> bool {
    forall|i: int| 0 <= i < cards.len() ==> has_faces_it_needs(#[trigger] cards[i])
}

/// The bit pattern of a card's price in euros, that of zero where it has
/// none.
pub open spec fn price_bits_of(card: CardView) -> u64 {
    match card.prices.eur {
        Some(bits) => bits,
        None => 0,
    }
}

/// Copies a list of cards.
fn clone_cards(cards: &Vec<Card>) -> (r: Vec<Card>)
    ensures
        r.deep_view() == cards.deep_view(),
{
    let mut r: Vec<Card> = Vec::new();
    let mut i: usize = 0;
    while i < cards.len()
        invariant
            0 <= i <= cards.len(),
            r.deep_view() == cards.deep_view().take(i as int),
        decreases cards.len() - i,
    {
        let ghost before = r.deep_view();
        r.push(cards[i].clone());
        assert(r.deep_view() =~= before.push(cards[i as int]@));
        i += 1;
    }
    r
}

impl Clone for CardCollection {
    fn clone(&self) -> (r: Self)
        ensures
            r@ == self@,
    {
        CardCollection {
            total_cards: self.total_cards,
            data: clone_cards(&self.data),
            next_page: clone_text(&self.next_page),
        }
    }
}

impl CardCollection {
    /// The cards, in order.
    pub fn get_cards(&self) -> (r: Vec<Card>)
        ensures
            r.deep_view() == self@.cards,
    {
        clone_cards(&self.data)
    }

    /// The bit pattern of each card's price in euros, in the order of the
    /// cards, with that of zero for a card without one.
    pub fn price_bits(&self) -> (r: Vec<u64>)
        ensures
            r@.len() == self@.cards.len(),
            forall|i: int| 0 <= i < r@.len() ==> r@[i] == price_bits_of(#[trigger] self@.cards[i]),
    {
        let mut r: Vec<u64> = Vec::new();
        let mut i: usize = 0;
        while i < self.data.len()
            invariant
                0 <= i <= self.data.len(),
                self.data.len() == self@.cards.len(),
                r@.len() == i,
                forall|j: int| 0 <= j < i ==> r@[j] == price_bits_of(#[trigger] self@.cards[j]),
            decreases self.data.len() - i,
        {
            r.push(self.data[i].price_eur_bits());
            i += 1;
        }
        r
    }

    /// Merges a later page into this one: its cards follow the cards already
    /// here, its link replaces the link, and the declared total stays.
    pub fn append(&mut self, more: CardCollection)
        ensures
            final(self)@ == merged(old(self)@, more@),
    {
        let mut more = more;
        let ghost later = more@;
        self.next_page = more.next_page;
        self.data.append(&mut more.data);
        assert(self.data.deep_view() =~= old(self).data.deep_view() + later.cards);
    }

    /// The text of the collection, or the violation where one of its cards
    /// lacks the faces that its layout needs.
    pub fn render(&self) -> (r: Result<String, InvariantViolation>)
        ensures
            all_have_faces(self@.cards) ==> r is Ok && r.unwrap()@ == collection_text(self@),
            !all_have_faces(self@.cards) ==> r == Err::<String, InvariantViolation>(
                InvariantViolation::MissingFaces,
            ),
    {
        let total: u64 = match self.total_cards {
            Some(n) => n,
            None => 0,
        };
        let mut out = decimal_text(total);
        out.append(" cards\n\n");
        let ghost head = out@;
        let ghost cards = self@.cards;
        let mut i: usize = 0;
        while i < self.data.len()
            invariant
                0 <= i <= self.data.len(),
                cards == self@.cards,
                cards.len() == self.data.len(),
                all_have_faces(cards.take(i as int)),
                out@ == head + cards_text(cards.take(i as int)),
            decreases self.data.len() - i,
        {
            match self.data[i].render() {
                Ok(text) => {
                    out.append(text.as_str());
                    out.append("\n\n");
                    proof {
                        let next = cards.take(i + 1);
                        assert(next.drop_last() =~= cards.take(i as int));
                        assert(out@ =~= head + cards_text(next));
                        assert forall|j: int| 0 <= j < next.len() implies has_faces_it_needs(
                            #[trigger] next[j],
                        ) by {
                            if j < i {
                                assert(next[j] == cards.take(i as int)[j]);
                            }
                        }
                    }
                },
                Err(e) => {
                    return Err(e);
                },
            }
            i += 1;
        }
        assert(cards.take(i as int) =~= cards);
        Ok(out)
    }
}

/// Merging keeps the order of the cards and the first page's declared
/// total, whatever the later page declared.
pub proof fn lemma_merge_keeps_order_and_total(first: CollectionView, later: CollectionView)
    ensures
        merged(first, later).cards == first.cards + later.cards,
        merged(first, later).total_cards == first.total_cards,
        merged(first, later).next_page == later.next_page,
        merged(first, later).cards.len() == first.cards.len() + later.cards.len(),
        forall|i: int|
            0 <= i < first.cards.len() ==> merged(first, later).cards[i] == first.cards[i],
        forall|i: int|
            0 <= i < later.cards.len() ==> merged(first, later).cards[first.cards.len() + i]
                == later.cards[i],
{
}

} // verus!
