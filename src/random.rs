use vstd::prelude::*;

use crate::cards::CardKind;
use crate::chance::{random_below, random_ratio};
use crate::choices::{
    affordable_cards, affordable_landmark_list, affordable_landmarks, affordable_list,
    card_affordable, has_tradeable, landmark_affordable, partner_list, trade_legal,
    trade_partners, tradeable, tradeable_cards, tradeable_list,
};
use crate::controller::purchase_violation;
use crate::landmarks::{LandmarkKind, LANDMARK_KIND_COUNT};
use crate::player::{deck_wf, players_wf, Actor, Deck, Player};

verus! {

/// `r` is the other player with the most coins, the lowest turn among
/// equals.
pub open spec fn richest_other(players: Seq<Player>, owner_turn: int, r: int) -> bool {
    &&& 0 <= r < players.len()
    &&& r != owner_turn
    &&& forall|t: int|
        0 <= t < players.len() && t != owner_turn ==> #[trigger] players[t].coins <= players[r].coins
    &&& forall|t: int| 0 <= t < r && t != owner_turn ==> #[trigger] players[t].coins < players[r].coins
}

/// What every trade answer of the computer player satisfies: a legal trade,
/// or `None` exactly when no legal trade exists.
pub open spec fn computer_trade(
    players: Seq<Player>,
    owner_turn: int,
    r: Option<(usize, CardKind, CardKind)>,
) -> bool {
    match r {
        Some((other, their_card, own_card)) => trade_legal(
            players,
            owner_turn,
            other as int,
            their_card,
            own_card,
        ),
        None => !has_tradeable(players[owner_turn]) || forall|t: int|
            0 <= t < players.len() && t != owner_turn ==> !has_tradeable(#[trigger] players[t]),
    }
}

/// What every purchase of the computer player satisfies: an affordable
/// landmark whenever there is one; otherwise nothing or one affordable card
/// of the market; never a card together with a landmark.
pub open spec fn computer_purchase(
    player: Player,
    market: Deck,
    r: Option<(Option<CardKind>, Option<LandmarkKind>)>,
) -> bool {
    match r {
        Some((Some(kind), None)) => {
            &&& card_affordable(player, market, kind)
            &&& forall|l: LandmarkKind| !landmark_affordable(player, l)
        },
        Some((None, Some(landmark))) => landmark_affordable(player, landmark),
        None => forall|l: LandmarkKind| !landmark_affordable(player, l),
        Some(_) => false,
    }
}

/// Dice count of the computer player: one or two, at random.
pub fn get_number_of_dice() -> (r: u8)
    ensures
        1 <= r <= 2,
{
    (random_below(2) + 1) as u8
}

/// Re-roll decision of the computer player: yes one time in four.
pub fn ask_reroll() -> bool {
    random_ratio(1, 4)
}

/// The trade chosen by the draws: the partner at `partner_draw`, their card
/// at `their_draw` and the owner's card at `own_draw`, each counted round
/// its list; `None` when there is no partner or nothing to give.
pub open spec fn spec_pick_trade(
    players: Seq<Player>,
    owner_turn: int,
    partner_draw: int,
    their_draw: int,
    own_draw: int,
) -> Option<(usize, CardKind, CardKind)> {
    let own = tradeable_list(players[owner_turn]);
    let partners = partner_list(players, owner_turn, players.len() as int);
    if own.len() == 0 || partners.len() == 0 {
        None
    } else {
        let other = partners[partner_draw % partners.len() as int];
        let theirs = tradeable_list(players[other as int]);
        Some((other, theirs[their_draw % theirs.len() as int], own[own_draw % own.len() as int]))
    }
}

/// The trade of the computer player for given draws.
pub fn pick_trade(
    players: &Vec<Player>,
    owner_turn: usize,
    partner_draw: usize,
    their_draw: usize,
    own_draw: usize,
) -> (r: Option<(usize, CardKind, CardKind)>)
    requires
        players_wf(players@),
        owner_turn < players@.len(),
    ensures
        r == spec_pick_trade(
            players@,
            owner_turn as int,
            partner_draw as int,
            their_draw as int,
            own_draw as int,
        ),
        computer_trade(players@, owner_turn as int, r),
{
    let own_cards = tradeable_cards(&players[owner_turn]);
    let partners = trade_partners(players, owner_turn);
    if own_cards.len() == 0 {
        assert forall|kind: CardKind| !tradeable(players@[owner_turn as int], kind) by {
            if tradeable(players@[owner_turn as int], kind) {
                assert(own_cards@.contains(kind));
            }
        }
        return None;
    }
    if partners.len() == 0 {
        assert forall|t: int|
            0 <= t < players@.len() && t != owner_turn implies !has_tradeable(#[trigger] players@[t]) by {
            if has_tradeable(players@[t]) {
                assert(partners@.contains(t as usize));
            }
        }
        return None;
    }
    let other = partners[partner_draw % partners.len()];
    let their_cards = tradeable_cards(&players[other]);
    proof {
        let kind = choose_kind(players@[other as int]);
        assert(their_cards@.contains(kind));
    }
    let their_card = their_cards[their_draw % their_cards.len()];
    let own_card = own_cards[own_draw % own_cards.len()];
    Some((other, their_card, own_card))
}

/// Trade of the computer player: a random partner among the others that
/// hold a tradeable card, a random tradeable card of theirs and a random
/// tradeable card of `player`'s own. `None` exactly when no trade is possible.
pub fn get_trade_establishments(players: &Vec<Player>, owner_turn: usize, player: &Player) -> (r:
    Option<(usize, CardKind, CardKind)>)
    requires
        players_wf(players@),
        owner_turn < players@.len(),
        players@[owner_turn as int] == *player,
    ensures
        computer_trade(players@, owner_turn as int, r),
        exists|partner_draw: int, their_draw: int, own_draw: int|
            r == #[trigger] spec_pick_trade(
                players@,
                owner_turn as int,
                partner_draw,
                their_draw,
                own_draw,
            ),
{
    let own_cards = tradeable_cards(player);
    let partners = trade_partners(players, owner_turn);
    if own_cards.len() == 0 || partners.len() == 0 {
        return pick_trade(players, owner_turn, 0, 0, 0);
    }
    let partner_draw = random_below(partners.len());
    let their_cards = tradeable_cards(&players[partners[partner_draw]]);
    let their_draw = if their_cards.len() > 0 {
        random_below(their_cards.len())
    } else {
        0
    };
    let own_draw = random_below(own_cards.len());
    pick_trade(players, owner_turn, partner_draw, their_draw, own_draw)
}

/// A tradeable card of a player that has one.
proof fn choose_kind(p: Player) -> (kind: CardKind)
    requires
        has_tradeable(p),
    ensures
        tradeable(p, kind),
{
    choose|kind: CardKind| tradeable(p, kind)
}

/// Steal target of the computer player: the other player with the most
/// coins, the lowest turn among equals.
pub fn get_player_to_steal_coins_from(players: &Vec<Player>, owner_turn: usize) -> (r: usize)
    requires
        players@.len() >= 2,
        owner_turn < players@.len(),
    ensures
        richest_other(players@, owner_turn as int, r as int),
{
    let mut best: usize = if owner_turn == 0 {
        1
    } else {
        0
    };
    let mut t: usize = best + 1;
    while t < players.len()
        invariant
            players@.len() >= 2,
            owner_turn < players@.len(),
            best < t <= players@.len(),
            best != owner_turn,
            forall|u: int|
                0 <= u < t && u != owner_turn ==> #[trigger] players@[u].coins
                    <= players@[best as int].coins,
            forall|u: int|
                0 <= u < best && u != owner_turn ==> #[trigger] players@[u].coins
                    < players@[best as int].coins,
        decreases players@.len() - t,
    {
        if t != owner_turn && players[t].coins > players[best].coins {
            best = t;
        }
        t += 1;
    }
    best
}

/// The purchase chosen by the draws: the affordable landmark at
/// `landmark_draw` when there is one; otherwise nothing when `skip`, else
/// the affordable card at `card_draw`, or nothing when none is affordable.
/// Draws count round their list.
pub open spec fn spec_pick_purchase(
    player: Player,
    market: Deck,
    landmark_draw: int,
    skip: bool,
    card_draw: int,
) -> Option<(Option<CardKind>, Option<LandmarkKind>)> {
    let landmarks = affordable_landmark_list(player, LANDMARK_KIND_COUNT as int);
    let cards = affordable_list(player, market);
    if landmarks.len() > 0 {
        Some((None, Some(landmarks[landmark_draw % landmarks.len() as int])))
    } else if skip || cards.len() == 0 {
        None
    } else {
        Some((Some(cards[card_draw % cards.len() as int]), None))
    }
}

/// The purchase of the computer player for given draws.
pub fn pick_purchase(
    player: &Player,
    card_deck: &Deck,
    landmark_draw: usize,
    skip: bool,
    card_draw: usize,
) -> (r: Option<(Option<CardKind>, Option<LandmarkKind>)>)
    requires
        deck_wf(*card_deck),
    ensures
        r == spec_pick_purchase(*player, *card_deck, landmark_draw as int, skip, card_draw as int),
        computer_purchase(*player, *card_deck, r),
        purchase_violation(*player, *card_deck, r) is None,
{
    let landmarks = affordable_landmarks(player);
    let cards = affordable_cards(player, card_deck);
    if landmarks.len() > 0 {
        return Some((None, Some(landmarks[landmark_draw % landmarks.len()])));
    }
    assert forall|l: LandmarkKind| !landmark_affordable(*player, l) by {
        if landmark_affordable(*player, l) {
            assert(landmarks@.contains(l));
        }
    }
    if skip || cards.len() == 0 {
        return None;
    }
    Some((Some(cards[card_draw % cards.len()]), None))
}

/// Purchase of the computer player. A random affordable landmark when there
/// is one; otherwise, three times in twenty nothing, else a random affordable
/// card of the market, or nothing when none is affordable.
pub fn buy_a_card(player: &Player, card_deck: &Deck) -> (r: Option<
    (Option<CardKind>, Option<LandmarkKind>),
>)
    requires
        deck_wf(*card_deck),
    ensures
        computer_purchase(*player, *card_deck, r),
        purchase_violation(*player, *card_deck, r) is None,
        exists|landmark_draw: int, skip: bool, card_draw: int|
            r == #[trigger] spec_pick_purchase(*player, *card_deck, landmark_draw, skip, card_draw),
{
    let landmarks = affordable_landmarks(player);
    if landmarks.len() > 0 {
        let landmark_draw = random_below(landmarks.len());
        return pick_purchase(player, card_deck, landmark_draw, false, 0);
    }
    let skip = random_ratio(3, 20);
    let cards = affordable_cards(player, card_deck);
    let card_draw = if cards.len() > 0 {
        random_below(cards.len())
    } else {
        0
    };
    pick_purchase(player, card_deck, 0, skip, card_draw)
}

/// The computer player: random choices among the moves that the rules allow.
#[derive(Clone, Copy, Debug)]
pub struct RandomAI;

impl Actor for RandomAI {
    fn get_number_of_dice(&mut self, player: &Player) -> (r: u8)
        ensures
            1 <= r <= 2,
    {
        get_number_of_dice()
    }

    fn ask_reroll(&mut self, player: &Player) -> bool {
        ask_reroll()
    }

    fn get_trade_establishments(&mut self, players: &Vec<Player>, owner_turn: usize) -> (r: Option<
        (usize, CardKind, CardKind),
    >)
        ensures
            computer_trade(players@, owner_turn as int, r),
    {
        get_trade_establishments(players, owner_turn, &players[owner_turn])
    }

    fn get_player_to_steal_coins_from(
        &mut self,
        players: &Vec<Player>,
        owner_turn: usize,
        amount: u8,
    ) -> (r: usize)
        ensures
            richest_other(players@, owner_turn as int, r as int),
    {
        get_player_to_steal_coins_from(players, owner_turn)
    }

    fn buy_a_card(&mut self, player: &Player, card_deck: &Deck) -> (r: Option<
        (Option<CardKind>, Option<LandmarkKind>),
    >)
        ensures
            computer_purchase(*player, *card_deck, r),
            purchase_violation(*player, *card_deck, r) is None,
    {
        buy_a_card(player, card_deck)
    }
}

} // verus!
