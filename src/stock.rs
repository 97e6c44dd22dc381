use vstd::prelude::*;
use crate::cards::{Card, Rank};

verus! {

/// The undealt pile. Index 0 of `slots` is the exposed trump-indicator
/// position; cards are dealt from the other end. A slot is `None` where the
/// stock does not know the card.
pub trait IStock: Sized {
    spec fn slots(&self) -> Seq<Option<Card>>;

    spec fn closed(&self) -> bool;

    /// Rank at the exposed position, whether or not it is shown.
    spec fn exposed_rank(&self) -> Option<Rank>;

    fn is_empty(&self) -> (r: bool)
        ensures
            r == (self.slots().len() == 0),
    ;

    fn len(&self) -> (r: usize)
        ensures
            r == self.slots().len(),
    ;

    fn trump_card_rank(&self) -> (r: Option<Rank>)
        ensures
            r == (if self.closed() || self.slots().len() == 0 {
                None
            } else {
                self.exposed_rank()
            }),
    ;

    /// Puts `rank` at the exposed position and returns the rank shown there
    /// before; does nothing when no rank is shown.
    fn exchange_trump_card(&mut self, rank: Rank) -> (r: Option<Rank>)
        ensures
            r == (if old(self).closed() || old(self).slots().len() == 0 {
                None
            } else {
                old(self).exposed_rank()
            }),
            final(self).closed() == old(self).closed(),
            r is Some ==> final(self).exposed_rank() == Some(rank) && final(self).slots()
                == old(self).slots().update(0, with_rank(old(self).slots()[0], rank)),
            r is None ==> final(self).exposed_rank() == old(self).exposed_rank() && final(self).slots() == old(self).slots(),
    ;

    fn is_closed(&self) -> (r: bool)
        ensures
            r == self.closed(),
    ;

    fn close(&mut self)
        ensures
            final(self).closed(),
            final(self).slots() == old(self).slots(),
            final(self).exposed_rank() == old(self).exposed_rank(),
    ;

    /// Takes the card at the dealing end. A closed stock yields nothing.
    fn deal(&mut self) -> (r: Option<Card>)
        ensures
            final(self).closed() == old(self).closed(),
            !old(self).closed() && old(self).slots().len() > 0 ==> r == old(self).slots().last()
                && final(self).slots() == old(self).slots().drop_last(),
            old(self).closed() ==> r is None,
            old(self).slots().len() == 0 ==> r is None && final(self).slots() == old(self).slots(),
            final(self).slots() == old(self).slots() || final(self).slots() == old(self).slots().drop_last(),
            final(self).slots().len() > 0 ==> final(self).exposed_rank() == old(self).exposed_rank(),
    ;
}

/// The trump-indicator rank on show: none once the stock is closed or empty.
pub open spec fn shown_rank<S: IStock>(s: &S) -> Option<Rank> {
    if s.closed() || s.slots().len() == 0 {
        None
    } else {
        s.exposed_rank()
    }
}

/// What a game sees of a stock: its slots, whether it is closed, and the
/// trump-indicator rank on show.
pub struct StockView {
    pub slots: Seq<Option<Card>>,
    pub closed: bool,
    pub shown: Option<Rank>,
}

pub open spec fn stock_view<S: IStock>(s: &S) -> StockView {
    StockView { slots: s.slots(), closed: s.closed(), shown: shown_rank(s) }
}

pub open spec fn with_rank(slot: Option<Card>, rank: Rank) -> Option<Card> {
    match slot {
        Some(card) => Some(Card { suit: card.suit, rank }),
        None => None,
    }
}

pub open spec fn known_slots(cards: Seq<Card>) -> Seq<Option<Card>> {
    cards.map_values(|c: Card| Some(c))
}

/// The contents of a stock that holds its cards.
#[derive(Default, Debug)]
pub struct StockData {
    pub cards: Vec<Card>,
    pub closed: bool,
}

/// A stock that holds the actual remaining cards.
#[derive(Default, Debug)]
pub struct Stock {
    data: StockData,
}

impl Stock {
    pub closed spec fn cards(&self) -> Seq<Card> {
        self.data.cards@
    }

    pub fn new(data: StockData) -> (r: Stock)
        ensures
            r.cards() == data.cards@,
            r.slots() == known_slots(data.cards@),
            r.closed() == data.closed,
            r.exposed_rank() == (if data.cards@.len() > 0 {
                Some(data.cards@[0].rank)
            } else {
                None
            }),
    {
        Stock { data }
    }
}

impl IStock for Stock {
    closed spec fn slots(&self) -> Seq<Option<Card>> {
        known_slots(self.data.cards@)
    }

    closed spec fn closed(&self) -> bool {
        self.data.closed
    }

    closed spec fn exposed_rank(&self) -> Option<Rank> {
        if self.data.cards@.len() > 0 {
            Some(self.data.cards@[0].rank)
        } else {
            None
        }
    }

    fn is_empty(&self) -> (r: bool) {
        self.data.cards.len() == 0
    }

    fn len(&self) -> (r: usize) {
        self.data.cards.len()
    }

    fn trump_card_rank(&self) -> (r: Option<Rank>) {
        if self.is_closed() || self.data.cards.len() == 0 {
            None
        } else {
            Some(self.data.cards[0].rank())
        }
    }

    fn exchange_trump_card(&mut self, rank: Rank) -> (r: Option<Rank>) {
        let old_rank = self.trump_card_rank();
        if old_rank.is_some() {
            let trump = self.data.cards[0].suit();
            self.data.cards.set(0, Card::new(trump, rank));
            assert(known_slots(self.data.cards@) =~= known_slots(old(self).data.cards@).update(
                0,
                with_rank(known_slots(old(self).data.cards@)[0], rank),
            ));
            old_rank
        } else {
            None
        }
    }

    fn is_closed(&self) -> (r: bool) {
        self.data.closed
    }

    fn close(&mut self) {
        self.data.closed = true;
    }

    fn deal(&mut self) -> (r: Option<Card>)
        ensures
            old(self).closed() ==> final(self).slots() == old(self).slots(),
            old(self).slots().len() > 0 && !old(self).closed() ==> r is Some,
    {
        if !self.is_closed() && self.data.cards.len() > 0 {
            let r = self.data.cards.pop();
            assert(known_slots(self.data.cards@) =~= known_slots(old(self).data.cards@).drop_last());
            r
        } else {
            None
        }
    }
}

/// A stock that knows only how many cards it holds and which rank is shown,
/// as one player sees it.
#[derive(Default, Debug)]
pub struct DummyStock {
    length: usize,
    trump_card_rank: Option<Rank>,
    closed: bool,
}

impl DummyStock {
    pub fn new(length: usize, trump_card_rank: Option<Rank>, closed: bool) -> (r: DummyStock)
        ensures
            r.slots().len() == length,
            r.exposed_rank() == trump_card_rank,
            r.closed() == closed,
    {
        DummyStock { length, trump_card_rank, closed }
    }
}

impl IStock for DummyStock {
    closed spec fn slots(&self) -> Seq<Option<Card>> {
        Seq::new(self.length as nat, |i: int| None)
    }

    closed spec fn closed(&self) -> bool {
        self.closed
    }

    closed spec fn exposed_rank(&self) -> Option<Rank> {
        self.trump_card_rank
    }

    fn is_empty(&self) -> (r: bool) {
        self.length == 0
    }

    fn len(&self) -> (r: usize) {
        self.length
    }

    fn trump_card_rank(&self) -> (r: Option<Rank>) {
        if self.closed || self.length == 0 {
            None
        } else {
            self.trump_card_rank
        }
    }

    fn exchange_trump_card(&mut self, rank: Rank) -> (r: Option<Rank>) {
        let shown = self.trump_card_rank();
        match shown {
            Some(old_rank) => {
                self.trump_card_rank = Some(rank);
                assert(self.slots() =~= old(self).slots().update(
                    0,
                    with_rank(old(self).slots()[0], rank),
                ));
                Some(old_rank)
            },
            None => None,
        }
    }

    fn is_closed(&self) -> (r: bool) {
        self.closed
    }

    fn close(&mut self) {
        self.closed = true;
    }

    /// Counts one card off, even once closed; never yields one.
    fn deal(&mut self) -> (r: Option<Card>)
        ensures
            r is None,
            final(self).slots().len() == if old(self).slots().len() > 0 {
                old(self).slots().len() - 1
            } else {
                0
            },
    {
        if self.length != 0 {
            self.length -= 1;
            assert(self.slots() =~= old(self).slots().drop_last());
        }
        None
    }
}

} // verus!
