use vstd::prelude::*;

use crate::cards::{
    kind_at, kind_index, spec_cost, spec_icon, CardIcon, CardKind, CardStack, CARD_KIND_COUNT,
};
use crate::landmarks::{
    get_landmark_cost, landmark_at, landmark_index, landmark_kind_at, spec_landmark_cost,
    LandmarkKind, LANDMARK_KIND_COUNT,
};
use crate::controller::PlayerCardStack;
use crate::player::{deck_count, deck_wf, hand_count, owns_landmark, players_wf, Deck, Player};

verus! {

/// A card the player could hand over in a trade: held, and not Major.
pub open spec fn tradeable(p: Player, kind: CardKind) -> bool {
    hand_count(p, kind) > 0 && spec_icon(kind) != CardIcon::Major
}

pub open spec fn has_tradeable(p: Player) -> bool {
    exists|kind: CardKind| #[trigger] tradeable(p, kind)
}

/// A landmark the player has not built and can pay for.
pub open spec fn landmark_affordable(p: Player, landmark: LandmarkKind) -> bool {
    !owns_landmark(p, landmark) && spec_landmark_cost(landmark) <= p.coins
}

/// A card that the market holds and the player can pay for.
pub open spec fn card_affordable(p: Player, market: Deck, kind: CardKind) -> bool {
    deck_count(market, kind) > 0 && spec_cost(kind) <= p.coins
}

/// The elements are strictly increasing under `index`.
pub open spec fn strictly_ordered_kinds(kinds: Seq<CardKind>) -> bool {
    forall|a: int, b: int|
        0 <= a < b < kinds.len() ==> kind_index(#[trigger] kinds[a]) < kind_index(#[trigger] kinds[b])
}

/// The kinds of `kinds` are exactly those that satisfy `wanted`, in
/// catalog order.
pub open spec fn lists_exactly_kinds(kinds: Seq<CardKind>, wanted: spec_fn(CardKind) -> bool) -> bool {
    &&& forall|j: int| 0 <= j < kinds.len() ==> wanted(#[trigger] kinds[j])
    &&& forall|kind: CardKind| wanted(kind) ==> #[trigger] kinds.contains(kind)
    &&& strictly_ordered_kinds(kinds)
}

/// Among the first `n` kinds of the catalog, those that `kind_selected`
/// keeps, in catalog order.
pub open spec fn selected_kinds(cards: Deck, budget: Option<u8>, allow_major: bool, n: int) -> Seq<
    CardKind,
>
    decreases n,
{
    if n <= 0 {
        Seq::empty()
    } else {
        let rest = selected_kinds(cards, budget, allow_major, n - 1);
        if kind_selected(cards, budget, allow_major, kind_at(n - 1)) {
            rest.push(kind_at(n - 1))
        } else {
            rest
        }
    }
}

/// The cards `player` may trade away, in catalog order.
pub open spec fn tradeable_list(player: Player) -> Seq<CardKind> {
    selected_kinds(player.cards, None, false, CARD_KIND_COUNT as int)
}

/// The market cards `player` can buy, in catalog order.
pub open spec fn affordable_list(player: Player, market: Deck) -> Seq<CardKind> {
    selected_kinds(market, Some(player.coins), true, CARD_KIND_COUNT as int)
}

/// Kinds of `player`'s hand that may be traded, in catalog order.
pub fn tradeable_cards(player: &Player) -> (r: Vec<CardKind>)
    requires
        deck_wf(player.cards),
    ensures
        lists_exactly_kinds(r@, |kind: CardKind| tradeable(*player, kind)),
        r@ == tradeable_list(*player),
{
    kinds_where(&player.cards, None, false)
}

/// Kinds of the market that `player` can afford, in catalog order.
pub fn affordable_cards(player: &Player, card_deck: &Deck) -> (r: Vec<CardKind>)
    requires
        deck_wf(*card_deck),
    ensures
        lists_exactly_kinds(r@, |kind: CardKind| card_affordable(*player, *card_deck, kind)),
        r@ == affordable_list(*player, *card_deck),
{
    kinds_where(card_deck, Some(player.coins), true)
}

/// `cards` holds `kind`; with `budget`, it costs at most that; with
/// `allow_major` false, it is not Major.
pub open spec fn kind_selected(cards: Deck, budget: Option<u8>, allow_major: bool, kind: CardKind) -> bool {
    &&& deck_count(cards, kind) > 0
    &&& (allow_major || spec_icon(kind) != CardIcon::Major)
    &&& match budget {
        Some(b) => spec_cost(kind) <= b,
        None => true,
    }
}

/// Kinds with at least one card in `cards`: with `budget`, only those that
/// cost at most that; with `allow_major` false, only non-Major ones.
fn kinds_where(cards: &Deck, budget: Option<u8>, allow_major: bool) -> (r: Vec<CardKind>)
    requires
        deck_wf(*cards),
    ensures
        lists_exactly_kinds(r@, |kind: CardKind| kind_selected(*cards, budget, allow_major, kind)),
        r@ == selected_kinds(*cards, budget, allow_major, CARD_KIND_COUNT as int),
{
    let ghost wanted = |kind: CardKind| kind_selected(*cards, budget, allow_major, kind);
    let mut kinds: Vec<CardKind> = Vec::new();
    let mut i: usize = 0;
    proof {
        crate::cards::lemma_kind_index_bijective();
    }
    while i < CARD_KIND_COUNT
        invariant
            i <= CARD_KIND_COUNT,
            deck_wf(*cards),
            wanted == (|kind: CardKind| kind_selected(*cards, budget, allow_major, kind)),
            forall|j: int| 0 <= j < kinds@.len() ==> wanted(#[trigger] kinds@[j]),
            forall|j: int| 0 <= j < kinds@.len() ==> kind_index(#[trigger] kinds@[j]) < i,
            forall|kind: CardKind|
                wanted(kind) && kind_index(kind) < i ==> #[trigger] kinds@.contains(kind),
            strictly_ordered_kinds(kinds@),
            kinds@ == selected_kinds(*cards, budget, allow_major, i as int),
            forall|k: CardKind| #[trigger] kind_at(kind_index(k)) == k,
            forall|k: CardKind| 0 <= #[trigger] kind_index(k) < CARD_KIND_COUNT,
            forall|j: int| 0 <= j < CARD_KIND_COUNT ==> #[trigger] kind_index(kind_at(j)) == j,
        decreases CARD_KIND_COUNT - i,
    {
        let card: CardStack = cards[i];
        assert(card.kind == kind_at(i as int));
        let affordable = match budget {
            Some(b) => card.get_cost() <= b,
            None => true,
        };
        if card.count > 0 && (allow_major || card.get_icon() != CardIcon::Major) && affordable {
            let ghost before = kinds@;
            assert(kind_selected(*cards, budget, allow_major, card.kind));
            kinds.push(card.kind);
            assert forall|kind: CardKind| wanted(kind) && kind_index(kind) < i + 1 implies #[trigger] kinds@.contains(kind) by {
                if kind_index(kind) < i {
                    assert(before.contains(kind));
                    let j = choose|j: int| 0 <= j < before.len() && before[j] == kind;
                    assert(kinds@[j] == kind);
                } else {
                    assert(kinds@[before.len() as int] == kind);
                }
            }
        }
        i += 1;
    }
    kinds
}

/// Among the first `n` turns, those other than `owner_turn` whose player
/// holds a tradeable card, in turn order.
pub open spec fn partner_list(players: Seq<Player>, owner_turn: int, n: int) -> Seq<usize>
    decreases n,
{
    if n <= 0 {
        Seq::empty()
    } else {
        let rest = partner_list(players, owner_turn, n - 1);
        if n - 1 != owner_turn && has_tradeable(players[n - 1]) {
            rest.push((n - 1) as usize)
        } else {
            rest
        }
    }
}

/// Turns of the players other than `owner_turn` that hold a tradeable card,
/// in turn order.
pub fn trade_partners(players: &Vec<Player>, owner_turn: usize) -> (r: Vec<usize>)
    requires
        players_wf(players@),
    ensures
        forall|j: int|
            0 <= j < r@.len() ==> {
                &&& #[trigger] r@[j] < players@.len()
                &&& r@[j] != owner_turn
                &&& has_tradeable(players@[r@[j] as int])
            },
        forall|t: int|
            0 <= t < players@.len() && t != owner_turn && has_tradeable(players@[t]) ==> #[trigger] r@.contains(
                t as usize,
            ),
        forall|a: int, b: int| 0 <= a < b < r@.len() ==> #[trigger] r@[a] < #[trigger] r@[b],
        r@ == partner_list(players@, owner_turn as int, players@.len() as int),
{
    let mut partners: Vec<usize> = Vec::new();
    let mut t: usize = 0;
    while t < players.len()
        invariant
            t <= players@.len(),
            players_wf(players@),
            forall|j: int|
                0 <= j < partners@.len() ==> {
                    &&& #[trigger] partners@[j] < t
                    &&& partners@[j] != owner_turn
                    &&& has_tradeable(players@[partners@[j] as int])
                },
            forall|u: int|
                0 <= u < t && u != owner_turn && has_tradeable(players@[u]) ==> #[trigger] partners@.contains(
                    u as usize,
                ),
            forall|a: int, b: int|
                0 <= a < b < partners@.len() ==> #[trigger] partners@[a] < #[trigger] partners@[b],
            partners@ == partner_list(players@, owner_turn as int, t as int),
        decreases players@.len() - t,
    {
        if t != owner_turn {
            let cards = tradeable_cards(&players[t]);
            if cards.len() > 0 {
                assert(tradeable(players@[t as int], cards@[0]));
                let ghost before = partners@;
                partners.push(t);
                assert forall|u: int|
                    0 <= u < t + 1 && u != owner_turn && has_tradeable(players@[u]) implies #[trigger] partners@.contains(
                    u as usize,
                ) by {
                    if u < t {
                        assert(before.contains(u as usize));
                        let j = choose|j: int| 0 <= j < before.len() && before[j] == u as usize;
                        assert(partners@[j] == u as usize);
                    } else {
                        assert(partners@[before.len() as int] == u as usize);
                    }
                }
            } else {
                assert forall|kind: CardKind| !tradeable(players@[t as int], kind) by {
                    if tradeable(players@[t as int], kind) {
                        assert(cards@.contains(kind));
                    }
                }
            }
        }
        t += 1;
    }
    partners
}

/// A trade that `trade_establishments` accepts: `other` is another player,
/// and each side gives a non-Major card that it holds.
pub open spec fn trade_legal(
    players: Seq<Player>,
    owner_turn: int,
    other: int,
    their_card: CardKind,
    own_card: CardKind,
) -> bool {
    &&& 0 <= other < players.len()
    &&& other != owner_turn
    &&& tradeable(players[other], their_card)
    &&& tradeable(players[owner_turn], own_card)
}

/// Among the first `n` landmarks of the catalog, those that `player` has
/// not built and can pay for, in catalog order.
pub open spec fn affordable_landmark_list(player: Player, n: int) -> Seq<LandmarkKind>
    decreases n,
{
    if n <= 0 {
        Seq::empty()
    } else {
        let rest = affordable_landmark_list(player, n - 1);
        if landmark_affordable(player, landmark_at(n - 1)) {
            rest.push(landmark_at(n - 1))
        } else {
            rest
        }
    }
}

/// Landmarks that `player` has not built and can pay for, in catalog order.
pub fn affordable_landmarks(player: &Player) -> (r: Vec<LandmarkKind>)
    ensures
        forall|j: int| 0 <= j < r@.len() ==> landmark_affordable(*player, #[trigger] r@[j]),
        forall|landmark: LandmarkKind|
            landmark_affordable(*player, landmark) ==> #[trigger] r@.contains(landmark),
        forall|a: int, b: int|
            0 <= a < b < r@.len() ==> landmark_index(#[trigger] r@[a]) < landmark_index(
                #[trigger] r@[b],
            ),
        r@ == affordable_landmark_list(*player, LANDMARK_KIND_COUNT as int),
{
    let mut landmarks: Vec<LandmarkKind> = Vec::new();
    let mut i: usize = 0;
    while i < LANDMARK_KIND_COUNT
        invariant
            i <= LANDMARK_KIND_COUNT,
            landmarks@ == affordable_landmark_list(*player, i as int),
            forall|j: int|
                0 <= j < landmarks@.len() ==> landmark_affordable(*player, #[trigger] landmarks@[j]),
            forall|j: int| 0 <= j < landmarks@.len() ==> landmark_index(#[trigger] landmarks@[j]) < i,
            forall|landmark: LandmarkKind|
                landmark_affordable(*player, landmark) && landmark_index(landmark) < i
                    ==> #[trigger] landmarks@.contains(landmark),
            forall|a: int, b: int|
                0 <= a < b < landmarks@.len() ==> landmark_index(#[trigger] landmarks@[a])
                    < landmark_index(#[trigger] landmarks@[b]),
        decreases LANDMARK_KIND_COUNT - i,
    {
        let landmark = landmark_kind_at(i);
        if !player.has_landmark(landmark) && get_landmark_cost(&landmark) <= player.coins {
            let ghost before = landmarks@;
            landmarks.push(landmark);
            assert forall|l: LandmarkKind|
                landmark_affordable(*player, l) && landmark_index(l) < i + 1 implies #[trigger] landmarks@.contains(
                l,
            ) by {
                if landmark_index(l) < i {
                    assert(before.contains(l));
                    let j = choose|j: int| 0 <= j < before.len() && before[j] == l;
                    assert(landmarks@[j] == l);
                } else {
                    assert(landmarks@[before.len() as int] == l);
                }
            }
        }
        i += 1;
    }
    landmarks
}

/// Turns of every player but `except`, in turn order.
pub fn other_players(players: &Vec<Player>, except: usize) -> (r: Vec<usize>)
    ensures
        forall|j: int| 0 <= j < r@.len() ==> #[trigger] r@[j] < players@.len() && r@[j] != except,
        forall|t: int|
            0 <= t < players@.len() && t != except ==> #[trigger] r@.contains(t as usize),
        forall|a: int, b: int| 0 <= a < b < r@.len() ==> #[trigger] r@[a] < #[trigger] r@[b],
{
    let mut turns: Vec<usize> = Vec::new();
    let mut t: usize = 0;
    while t < players.len()
        invariant
            t <= players@.len(),
            forall|j: int| 0 <= j < turns@.len() ==> #[trigger] turns@[j] < t && turns@[j] != except,
            forall|u: int| 0 <= u < t && u != except ==> #[trigger] turns@.contains(u as usize),
            forall|a: int, b: int|
                0 <= a < b < turns@.len() ==> #[trigger] turns@[a] < #[trigger] turns@[b],
        decreases players@.len() - t,
    {
        if t != except {
            let ghost before = turns@;
            turns.push(t);
            assert forall|u: int| 0 <= u < t + 1 && u != except implies #[trigger] turns@.contains(
                u as usize,
            ) by {
                if u < t {
                    assert(before.contains(u as usize));
                    let j = choose|j: int| 0 <= j < before.len() && before[j] == u as usize;
                    assert(turns@[j] == u as usize);
                } else {
                    assert(turns@[before.len() as int] == u as usize);
                }
            }
        }
        t += 1;
    }
    turns
}

/// Landmarks that `player` has not built, in catalog order.
pub fn unbuilt_landmarks(player: &Player) -> (r: Vec<LandmarkKind>)
    ensures
        forall|j: int| 0 <= j < r@.len() ==> !owns_landmark(*player, #[trigger] r@[j]),
        forall|landmark: LandmarkKind|
            !owns_landmark(*player, landmark) ==> #[trigger] r@.contains(landmark),
        forall|a: int, b: int|
            0 <= a < b < r@.len() ==> landmark_index(#[trigger] r@[a]) < landmark_index(
                #[trigger] r@[b],
            ),
{
    let mut landmarks: Vec<LandmarkKind> = Vec::new();
    let mut i: usize = 0;
    while i < LANDMARK_KIND_COUNT
        invariant
            i <= LANDMARK_KIND_COUNT,
            forall|j: int| 0 <= j < landmarks@.len() ==> !owns_landmark(*player, #[trigger] landmarks@[j]),
            forall|j: int| 0 <= j < landmarks@.len() ==> landmark_index(#[trigger] landmarks@[j]) < i,
            forall|landmark: LandmarkKind|
                !owns_landmark(*player, landmark) && landmark_index(landmark) < i
                    ==> #[trigger] landmarks@.contains(landmark),
            forall|a: int, b: int|
                0 <= a < b < landmarks@.len() ==> landmark_index(#[trigger] landmarks@[a])
                    < landmark_index(#[trigger] landmarks@[b]),
        decreases LANDMARK_KIND_COUNT - i,
    {
        let landmark = landmark_kind_at(i);
        if !player.has_landmark(landmark) {
            let ghost before = landmarks@;
            landmarks.push(landmark);
            assert forall|l: LandmarkKind|
                !owns_landmark(*player, l) && landmark_index(l) < i + 1 implies #[trigger] landmarks@.contains(
                l,
            ) by {
                if landmark_index(l) < i {
                    assert(before.contains(l));
                    let j = choose|j: int| 0 <= j < before.len() && before[j] == l;
                    assert(landmarks@[j] == l);
                } else {
                    assert(landmarks@[before.len() as int] == l);
                }
            }
        }
        i += 1;
    }
    landmarks
}

/// Why an entry of the purchase menu cannot be taken.
#[derive(Clone, Copy, Debug, PartialEq, Eq, Structural)]
pub enum MenuError {
    /// No entry has this number.
    NoSuchOption,
    /// The market has none of this card left.
    SoldOut,
    /// The player cannot pay for it.
    TooExpensive,
}

/// The purchase menu lists the fifteen establishments in catalog order,
/// then the landmarks not yet built. What entry `index` buys, or why it
/// cannot be bought.
pub open spec fn spec_purchase_option(player: Player, market: Deck, index: int, unbuilt: Seq<
    LandmarkKind,
>) -> Result<(Option<CardKind>, Option<LandmarkKind>), MenuError> {
    if index < CARD_KIND_COUNT {
        let kind = kind_at(index);
        if deck_count(market, kind) == 0 {
            Err(MenuError::SoldOut)
        } else if spec_cost(kind) > player.coins {
            Err(MenuError::TooExpensive)
        } else {
            Ok((Some(kind), None))
        }
    } else if index - CARD_KIND_COUNT < unbuilt.len() {
        let landmark = unbuilt[index - CARD_KIND_COUNT];
        if spec_landmark_cost(landmark) > player.coins {
            Err(MenuError::TooExpensive)
        } else {
            Ok((None, Some(landmark)))
        }
    } else {
        Err(MenuError::NoSuchOption)
    }
}

/// What entry `index` of the purchase menu buys, or why it cannot be
/// bought. An entry that is returned is a purchase the rules accept.
pub fn purchase_option(player: &Player, card_deck: &Deck, index: usize) -> (r: Result<
    (Option<CardKind>, Option<LandmarkKind>),
    MenuError,
>)
    requires
        deck_wf(*card_deck),
    ensures
        exists|unbuilt: Seq<LandmarkKind>|
            {
                &&& forall|j: int| 0 <= j < unbuilt.len() ==> !owns_landmark(*player, #[trigger] unbuilt[j])
                &&& forall|l: LandmarkKind| !owns_landmark(*player, l) ==> #[trigger] unbuilt.contains(l)
                &&& forall|a: int, b: int|
                    0 <= a < b < unbuilt.len() ==> landmark_index(#[trigger] unbuilt[a])
                        < landmark_index(#[trigger] unbuilt[b])
                &&& r == spec_purchase_option(*player, *card_deck, index as int, unbuilt)
            },
        r is Ok ==> crate::controller::purchase_violation(*player, *card_deck, Some(r->Ok_0)) is None,
{
    let unbuilt = unbuilt_landmarks(player);
    proof {
        crate::cards::lemma_kind_index_bijective();
    }
    let r = if index < CARD_KIND_COUNT {
        let card = card_deck[index];
        if card.count == 0 {
            Err(MenuError::SoldOut)
        } else if card.get_cost() > player.coins {
            Err(MenuError::TooExpensive)
        } else {
            Ok((Some(card.kind), None))
        }
    } else if index - CARD_KIND_COUNT < unbuilt.len() {
        let landmark = unbuilt[index - CARD_KIND_COUNT];
        if get_landmark_cost(&landmark) > player.coins {
            Err(MenuError::TooExpensive)
        } else {
            Ok((None, Some(landmark)))
        }
    } else {
        Err(MenuError::NoSuchOption)
    };
    assert(r == spec_purchase_option(*player, *card_deck, index as int, unbuilt@));
    r
}

/// The kinds that appear among the activations, each once, in catalog
/// order.
pub fn activated_kinds(cards: &Vec<PlayerCardStack>) -> (r: Vec<CardKind>)
    ensures
        lists_exactly_kinds(
            r@,
            |kind: CardKind| exists|j: int| 0 <= j < cards@.len() && #[trigger] cards@[j].card.kind == kind,
        ),
{
    let ghost wanted = |kind: CardKind|
        exists|j: int| 0 <= j < cards@.len() && #[trigger] cards@[j].card.kind == kind;
    let mut kinds: Vec<CardKind> = Vec::new();
    let mut i: usize = 0;
    proof {
        crate::cards::lemma_kind_index_bijective();
    }
    while i < CARD_KIND_COUNT
        invariant
            i <= CARD_KIND_COUNT,
            wanted == (|kind: CardKind|
                exists|j: int| 0 <= j < cards@.len() && #[trigger] cards@[j].card.kind == kind),
            forall|j: int| 0 <= j < kinds@.len() ==> wanted(#[trigger] kinds@[j]),
            forall|j: int| 0 <= j < kinds@.len() ==> kind_index(#[trigger] kinds@[j]) < i,
            forall|kind: CardKind|
                wanted(kind) && kind_index(kind) < i ==> #[trigger] kinds@.contains(kind),
            strictly_ordered_kinds(kinds@),
            forall|k: CardKind| #[trigger] kind_at(kind_index(k)) == k,
            forall|k: CardKind| 0 <= #[trigger] kind_index(k) < CARD_KIND_COUNT,
            forall|j: int| 0 <= j < CARD_KIND_COUNT ==> #[trigger] kind_index(kind_at(j)) == j,
        decreases CARD_KIND_COUNT - i,
    {
        let kind = CardKind::at(i);
        let mut found = false;
        let mut j: usize = 0;
        while j < cards.len()
            invariant
                j <= cards@.len(),
                found <==> exists|m: int| 0 <= m < j && #[trigger] cards@[m].card.kind == kind,
            decreases cards@.len() - j,
        {
            if cards[j].card.kind == kind {
                found = true;
            }
            j += 1;
        }
        if found {
            let ghost before = kinds@;
            kinds.push(kind);
            assert forall|k: CardKind| wanted(k) && kind_index(k) < i + 1 implies #[trigger] kinds@.contains(k) by {
                if kind_index(k) < i {
                    assert(before.contains(k));
                    let m = choose|m: int| 0 <= m < before.len() && before[m] == k;
                    assert(kinds@[m] == k);
                } else {
                    assert(kinds@[before.len() as int] == k);
                }
            }
        }
        i += 1;
    }
    kinds
}

} // verus!
