use vstd::prelude::*;
use crate::cards::{Card, Suit};
use crate::message::RequestData;
use crate::player::{lemma_remove_card_len, lemma_sum_values_push, PlayerId, PlayerView};
use crate::rules::DECK_SIZE;
use crate::state::{run, stock_cards, GameView};

verus! {

/// How one player's state may change under a command: cards won and
/// twenties are only added to, a forty once declared stays, and the score
/// never falls.
pub open spec fn player_progress(p: PlayerView, q: PlayerView) -> bool {
    &&& q.score() >= p.score()
    &&& p.wins.len() <= q.wins.len() && q.wins.subrange(0, p.wins.len() as int) == p.wins
    &&& p.twenties.len() <= q.twenties.len() && q.twenties.subrange(0, p.twenties.len() as int)
        == p.twenties
    &&& (p.forty is Some ==> q.forty == p.forty)
    &&& q.records == p.records
}

/// How a game may change under a command: scores, piles and declarations
/// as `player_progress` says, the trump stays, a decided winner stays, no
/// card is added; and where every card is known and the stock even, the
/// cards on the table stay exactly the same.
pub open spec fn progress(v: GameView, w: GameView) -> bool {
    &&& player_progress(v.player1, w.player1)
    &&& player_progress(v.player2, w.player2)
    &&& w.trump == v.trump
    &&& (v.winner is Some ==> w.winner == v.winner)
    &&& w.cards_in_play() <= v.cards_in_play()
    &&& (v.is_complete() && v.stock.slots.len() % 2 == 0 ==> w.is_complete()
        && w.stock.slots.len() % 2 == 0 && w.cards_in_play() == v.cards_in_play()
        && w.all_cards() == v.all_cards())
}

proof fn lemma_player_progress_refl(p: PlayerView)
    ensures
        player_progress(p, p),
{
    assert(p.wins.subrange(0, p.wins.len() as int) =~= p.wins);
    assert(p.twenties.subrange(0, p.twenties.len() as int) =~= p.twenties);
}

proof fn lemma_player_progress_trans(p: PlayerView, q: PlayerView, r: PlayerView)
    requires
        player_progress(p, q),
        player_progress(q, r),
    ensures
        player_progress(p, r),
{
    assert(r.wins.subrange(0, p.wins.len() as int) =~= q.wins.subrange(0, p.wins.len() as int));
    assert(r.twenties.subrange(0, p.twenties.len() as int) =~= q.twenties.subrange(
        0,
        p.twenties.len() as int,
    ));
}

proof fn lemma_progress_refl(v: GameView)
    ensures
        progress(v, v),
{
    lemma_player_progress_refl(v.player1);
    lemma_player_progress_refl(v.player2);
}

proof fn lemma_progress_trans(u: GameView, v: GameView, w: GameView)
    requires
        progress(u, v),
        progress(v, w),
    ensures
        progress(u, w),
{
    lemma_player_progress_trans(u.player1, v.player1, w.player1);
    lemma_player_progress_trans(u.player2, v.player2, w.player2);
}

proof fn lemma_stock_drop_last(s: Seq<Option<Card>>)
    requires
        s.len() > 0,
    ensures
        stock_cards(s.drop_last()).to_multiset() == stock_cards(s).to_multiset().remove(
            s.last()->0,
        ),
{
    broadcast use vstd::seq_lib::group_to_multiset_ensures;

    let sc = stock_cards(s);
    assert(stock_cards(s.drop_last()) =~= sc.remove(sc.len() - 1));
}

proof fn lemma_gain(p: PlayerView, card: Card)
    ensures
        player_progress(p, p.gain(card)),
        p.gain(card).hand.len() == p.hand.len() + if p.records {
            1int
        } else {
            0int
        },
        p.gain(card).wins == p.wins,
        p.records ==> p.gain(card).hand.to_multiset() == p.hand.to_multiset().insert(card),
{
    broadcast use vstd::seq_lib::group_to_multiset_ensures;

    lemma_player_progress_refl(p);
}

proof fn lemma_without(p: PlayerView, card: Card)
    requires
        p.hand.contains(card),
    ensures
        player_progress(p, p.without(card)),
        p.without(card).hand.len() == p.hand.len() - if p.records {
            1int
        } else {
            0int
        },
        p.without(card).wins == p.wins,
        p.records ==> p.without(card).hand.to_multiset() == p.hand.to_multiset().remove(card),
{
    lemma_player_progress_refl(p);
    lemma_remove_card_len(p.hand, card);
}

proof fn lemma_won(p: PlayerView, a: Card, b: Card)
    ensures
        player_progress(p, p.won(a, b)),
        p.won(a, b).wins.len() == p.wins.len() + if p.records {
            2int
        } else {
            0int
        },
        p.won(a, b).hand == p.hand,
        p.records ==> p.won(a, b).wins.to_multiset() == p.wins.to_multiset().insert(a).insert(b),
{
    broadcast use vstd::seq_lib::group_to_multiset_ensures;

    lemma_player_progress_refl(p);
    if p.records {
        lemma_sum_values_push(p.wins, a);
        lemma_sum_values_push(p.wins.push(a), b);
        assert(p.wins.push(a).push(b).subrange(0, p.wins.len() as int) =~= p.wins);
    }
}

proof fn lemma_with_twenty(p: PlayerView, suit: Suit)
    ensures
        player_progress(p, p.with_twenty(suit)),
        p.with_twenty(suit).hand == p.hand,
        p.with_twenty(suit).wins == p.wins,
{
    lemma_player_progress_refl(p);
    assert(p.twenties.push(suit).subrange(0, p.twenties.len() as int) =~= p.twenties);
}

proof fn lemma_with_forty(p: PlayerView, suit: Suit)
    requires
        p.forty is None,
    ensures
        player_progress(p, p.with_forty(suit)),
        p.with_forty(suit).hand == p.hand,
        p.with_forty(suit).wins == p.wins,
{
    lemma_player_progress_refl(p);
}

proof fn lemma_deal_step(v: GameView, w: PlayerId)
    requires
        !v.stock.closed,
        v.stock.slots.len() > 0,
    ensures
        progress(v, v.after_deal(w).0),
        v.after_deal(w).0.led == v.led,
        v.after_deal(w).0.lead == v.lead,
        v.wf() ==> v.after_deal(w).0.wf(),
{
    broadcast use vstd::seq_lib::group_to_multiset_ensures;

    let d = v.after_deal(w).0;
    let s = v.stock.slots;
    lemma_progress_refl(v);
    if s.len() >= 2 && s.last() is Some && s.drop_last().last() is Some {
        let a = s.last()->0;
        let b = s.drop_last().last()->0;
        let stock = d.stock;
        let v0 = GameView { stock, ..v };
        let v1 = v0.with_player(w, v0.player(w).gain(a));
        lemma_gain(v0.player(w), a);
        lemma_gain(v1.player(w.opponent()), b);
        lemma_player_progress_refl(v.player(w.opponent()));
        if v.is_complete() {
            assert forall|i: int| 0 <= i < d.stock.slots.len() implies (
            #[trigger] d.stock.slots[i]) is Some by {
                assert(d.stock.slots[i] == s[i]);
            }
            assert(d.stock.slots =~= s.drop_last().drop_last());
            lemma_stock_drop_last(s);
            lemma_stock_drop_last(s.drop_last());
            if d.stock.slots.len() > 0 {
                assert(d.stock.slots[0] == s[0]);
            }
            assert(stock_cards(s).to_multiset().count(a) > 0) by {
                assert(stock_cards(s)[s.len() - 1] == a);
            }
            assert(stock_cards(s.drop_last()).to_multiset().count(b) > 0) by {
                assert(stock_cards(s.drop_last())[s.len() - 2] == b);
            }
            if w == PlayerId::Player1 {
                assert(d.all_cards() =~= v.all_cards());
            } else {
                assert(d.all_cards() =~= v.all_cards());
            }
        }
    } else {
        if v.is_complete() {
            assert(s.len() >= 2 ==> s.drop_last().last() == s[s.len() - 2]);
        }
    }
}

proof fn lemma_lead_cards(v: GameView, card: Card)
    requires
        v.is_complete(),
        v.led is None,
        v.player(v.turn()).hand.contains(card),
    ensures
        v.after_play(card).0.all_cards() == v.all_cards(),
{
    broadcast use vstd::seq_lib::group_to_multiset_ensures;

    let t = v.turn();
    lemma_without(v.player(t), card);
    assert(v.player(t).hand.to_multiset().count(card) > 0);
    if t == PlayerId::Player1 {
        assert(v.after_play(card).0.all_cards() =~= v.all_cards());
    } else {
        assert(v.after_play(card).0.all_cards() =~= v.all_cards());
    }
}

/// Answering `led` with `card` moves both cards to the pile of `w`.
proof fn lemma_answer_cards(v: GameView, card: Card, led: Card, w: PlayerId)
    requires
        v.is_complete(),
        v.led == Some(led),
        v.player(v.turn()).hand.contains(card),
    ensures
        ({
            let t = v.turn();
            let v0 = v.with_player(t, v.player(t).without(card));
            let v1 = v0.with_player(w, v0.player(w).won(led, card));
            GameView { led: None, ..v1 }.all_cards() == v.all_cards()
        }),
{
    broadcast use vstd::seq_lib::group_to_multiset_ensures;

    let t = v.turn();
    let v0 = v.with_player(t, v.player(t).without(card));
    let v1 = v0.with_player(w, v0.player(w).won(led, card));
    let u = GameView { led: None, ..v1 };
    lemma_without(v.player(t), card);
    lemma_won(v0.player(w), led, card);
    assert(v.player(t).hand.to_multiset().count(card) > 0);
    if t == PlayerId::Player1 && w == PlayerId::Player1 {
        assert(u.all_cards() =~= v.all_cards());
    } else if t == PlayerId::Player1 {
        assert(u.all_cards() =~= v.all_cards());
    } else if w == PlayerId::Player1 {
        assert(u.all_cards() =~= v.all_cards());
    } else {
        assert(u.all_cards() =~= v.all_cards());
    }
}

proof fn lemma_lead_step(v: GameView, card: Card)
    requires
        v.wf(),
        v.play_check(card) is Ok,
        v.led is None,
    ensures
        progress(v, v.after_play(card).0),
        v.after_play(card).0.wf(),
{
    let t = v.turn();
    lemma_without(v.player(t), card);
    lemma_player_progress_refl(v.player(t.opponent()));
    if v.is_complete() {
        lemma_lead_cards(v, card);
    }
}

#[verifier::rlimit(40)]
proof fn lemma_answer_step(v: GameView, card: Card, led: Card)
    requires
        v.wf(),
        v.play_check(card) is Ok,
        v.led == Some(led),
    ensures
        progress(v, v.after_play(card).0),
        v.after_play(card).0.wf(),
{
    let t = v.turn();
    let v0 = v.with_player(t, v.player(t).without(card));
    lemma_without(v.player(t), card);
    lemma_player_progress_refl(v.player(t.opponent()));
    let w = if crate::rules::beats(led, card, v.trump) {
        v.lead
    } else {
        t
    };
    let v1 = v0.with_player(w, v0.player(w).won(led, card));
    lemma_won(v0.player(w), led, card);
    lemma_player_progress_refl(v0.player(w.opponent()));
    let u = GameView { led: None, ..v1 };
    lemma_player_progress_trans(v.player(w), v0.player(w), v1.player(w));
    if v.is_complete() {
        lemma_answer_cards(v, card, led, w);
    }
    assert(progress(v, u));
    assert(u.wf());
    if !v1.stock.closed && v1.stock.slots.len() > 0 {
        lemma_deal_step(u, w);
        lemma_progress_trans(v, u, u.after_deal(w).0);
        assert(GameView { lead: w, led: None, ..v1.after_deal(w).0 } == GameView {
            lead: w,
            ..u.after_deal(w).0
        });
    } else {
        assert(GameView { lead: w, led: None, ..v1 } == GameView { lead: w, ..u });
    }
}

proof fn lemma_play_step(v: GameView, card: Card)
    requires
        v.wf(),
        v.play_check(card) is Ok,
    ensures
        progress(v, v.after_play(card).0),
        v.after_play(card).0.wf(),
{
    match v.led {
        None => lemma_lead_step(v, card),
        Some(led) => lemma_answer_step(v, card, led),
    }
}

/// One command issued by the player whose turn it is: on success the game
/// makes progress and stays well formed.
pub proof fn lemma_step(v: GameView, cmd: RequestData)
    requires
        v.wf(),
        v.apply(cmd) is Ok,
    ensures
        progress(v, v.apply(cmd)->Ok_0),
        v.apply(cmd)->Ok_0.wf(),
{
    lemma_progress_refl(v);
    let t = v.turn();
    match cmd {
        RequestData::Close => {},
        RequestData::ExchangeTrump => {
            let unter = Card { suit: v.trump, rank: crate::cards::Rank::Unter };
            let shown = v.stock.shown.unwrap();
            let p1 = v.player(t).without(unter);
            lemma_without(v.player(t), unter);
            lemma_gain(p1, Card { suit: v.trump, rank: shown });
            lemma_player_progress_trans(v.player(t), p1, p1.gain(Card { suit: v.trump, rank: shown }));
            lemma_player_progress_refl(v.player(t.opponent()));
            let w = v.after_exchange();
            if v.is_complete() {
                assert forall|i: int| 0 <= i < w.stock.slots.len() implies (
                #[trigger] w.stock.slots[i]) is Some by {
                    if i != 0 {
                        assert(w.stock.slots[i] == v.stock.slots[i]);
                    }
                }
                let sc = stock_cards(v.stock.slots);
                assert(stock_cards(w.stock.slots) =~= sc.update(0, unter));
                assert(sc[0] == Card { suit: v.trump, rank: shown });
                broadcast use vstd::seq_lib::group_to_multiset_ensures;

                vstd::seq_lib::to_multiset_update(sc, 0, unter);
                assert(v.player(t).hand.to_multiset().count(unter) > 0);
                assert(sc.to_multiset().count(sc[0]) > 0);
                if t == PlayerId::Player1 {
                    assert(w.all_cards() =~= v.all_cards());
                } else {
                    assert(w.all_cards() =~= v.all_cards());
                }
            }
        },
        RequestData::PlayTwenty(card) => {
            let v1 = v.with_player(t, v.player(t).with_twenty(card.suit));
            lemma_with_twenty(v.player(t), card.suit);
            lemma_player_progress_refl(v.player(t.opponent()));
            assert(v1.all_cards() =~= v.all_cards());
            assert(progress(v, v1));
            assert(v1.play_check(card) is Ok);
            lemma_play_step(v1, card);
            lemma_progress_trans(v, v1, v1.after_play(card).0);
        },
        RequestData::PlayForty(card) => {
            let v1 = v.with_player(t, v.player(t).with_forty(v.trump));
            lemma_with_forty(v.player(t), v.trump);
            lemma_player_progress_refl(v.player(t.opponent()));
            assert(v1.all_cards() =~= v.all_cards());
            assert(progress(v, v1));
            assert(v1.play_check(card) is Ok);
            lemma_play_step(v1, card);
            lemma_progress_trans(v, v1, v1.after_play(card).0);
        },
        RequestData::PlayCard(card) => {
            lemma_play_step(v, card);
        },
        _ => {},
    }
}

/// Issuing `a` and then `b` is issuing `a + b`.
pub proof fn lemma_run_append(v: GameView, a: Seq<RequestData>, b: Seq<RequestData>)
    ensures
        run(v, a + b) == run(run(v, a), b),
    decreases b.len(),
{
    if b.len() == 0 {
        assert(a + b =~= a);
    } else {
        assert((a + b).drop_last() =~= a + b.drop_last());
        assert((a + b).last() == b.last());
        lemma_run_append(v, a, b.drop_last());
    }
}

/// Any sequence of commands, from a well-formed game, makes progress and
/// keeps the game well formed.
pub proof fn lemma_run(v: GameView, cmds: Seq<RequestData>)
    requires
        v.wf(),
    ensures
        progress(v, run(v, cmds)),
        run(v, cmds).wf(),
    decreases cmds.len(),
{
    if cmds.len() == 0 {
        lemma_progress_refl(v);
    } else {
        lemma_run(v, cmds.drop_last());
        let prev = run(v, cmds.drop_last());
        if prev.apply(cmds.last()) is Ok {
            lemma_step(prev, cmds.last());
            lemma_progress_trans(v, prev, run(v, cmds));
        }
    }
}

/// The cards on the table right after the deal are exactly the deck's.
proof fn lemma_dealt_cards(deck: Seq<Card>)
    requires
        deck.len() >= 10,
    ensures
        crate::game::dealt_view(deck).all_cards() == deck.to_multiset(),
{
    broadcast use vstd::seq_lib::group_to_multiset_ensures;

    let n = deck.len() as int;
    let v = crate::game::dealt_view(deck);
    let stock = deck.subrange(0, n - 10);
    let hand2 = deck.subrange(n - 10, n - 5);
    let hand1 = deck.subrange(n - 5, n);
    assert(stock_cards(v.stock.slots) =~= stock);
    assert(deck =~= stock + hand2 + hand1);
    vstd::seq_lib::lemma_multiset_commutative(stock + hand2, hand1);
    vstd::seq_lib::lemma_multiset_commutative(stock, hand2);
    assert(v.all_cards() =~= deck.to_multiset());
}

/// Card conservation: after the deal from a twenty-card deck, whatever
/// commands follow, the cards in both hands, both piles of won cards, the
/// stock and the card led in the current trick are always exactly the
/// deck's cards, none lost and none doubled. So they always number twenty,
/// and between tricks hands, piles and stock alone hold twenty.
pub proof fn lemma_card_conservation(deck: Seq<Card>, cmds: Seq<RequestData>)
    requires
        deck.len() == DECK_SIZE,
    ensures
        run(crate::game::dealt_view(deck), cmds).all_cards() == deck.to_multiset(),
        run(crate::game::dealt_view(deck), cmds).cards_in_play() == DECK_SIZE,
        run(crate::game::dealt_view(deck), cmds).led is None ==> run(
            crate::game::dealt_view(deck),
            cmds,
        ).card_count() == DECK_SIZE,
{
    let v = crate::game::dealt_view(deck);
    assert(v.is_complete());
    lemma_dealt_cards(deck);
    lemma_run(v, cmds);
}

/// No duplicate declaration: in a well-formed game, at every point of any
/// sequence of commands, no player has declared a twenty in one suit twice,
/// and a forty declared by some point stays declared at every later point.
pub proof fn lemma_declarations_kept(
    v: GameView,
    before: Seq<RequestData>,
    after: Seq<RequestData>,
    id: PlayerId,
)
    requires
        v.wf(),
    ensures
        run(v, before).player(id).twenties.no_duplicates(),
        run(v, before).player(id).forty is Some ==> run(v, before + after).player(id).forty == run(
            v,
            before,
        ).player(id).forty,
{
    lemma_run(v, before);
    lemma_run_append(v, before, after);
    lemma_run(run(v, before), after);
}

/// Score monotonicity: in a well-formed game, along any sequence of
/// commands, no player's score at a later point is below that at an
/// earlier point.
pub proof fn lemma_score_monotonic(
    v: GameView,
    before: Seq<RequestData>,
    after: Seq<RequestData>,
    id: PlayerId,
)
    requires
        v.wf(),
    ensures
        run(v, before + after).score(id) >= run(v, before).score(id),
{
    lemma_run(v, before);
    lemma_run_append(v, before, after);
    lemma_run(run(v, before), after);
}

} // verus!
