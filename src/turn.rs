use vstd::prelude::*;

use crate::cards::{spec_icon, CardIcon, CardKind, CardStack};
use crate::choices::trade_legal;
use crate::controller::{
    award_coins, award_coins_combo, check_trade, combo_total, has_player_won, has_won, sat_add,
    steal_coins, steal_coins_from_all, steal_from_all_result, steal_result, taken,
    trade_establishments, trade_result, trade_violation, DiceRoll, PlayerCardStack, RuleViolation,
};
use crate::landmarks::LandmarkKind;
use crate::player::{owns_landmark, players_wf, with_coins, Actor, Player};

verus! {

/// Two dice are rolled only when the player asks for two and has built the
/// Train Station; otherwise one.
pub fn rolls_two_dice(player: &Player, requested_dice: u8) -> (r: bool)
    ensures
        r == (requested_dice == 2 && owns_landmark(*player, LandmarkKind::TrainStation)),
{
    requested_dice == 2 && player.has_landmark(LandmarkKind::TrainStation)
}

/// Asks the acting player how many dice to roll, when a Train Station lets
/// them choose. Returns whether two dice are rolled.
pub fn choose_two_dice<A: Actor>(player: &Player, human: &mut A) -> (r: bool)
    ensures
        r ==> owns_landmark(*player, LandmarkKind::TrainStation),
{
    if !player.has_landmark(LandmarkKind::TrainStation) {
        return false;
    }
    let requested = player.get_number_of_dice(human);
    rolls_two_dice(player, requested)
}

/// Asks the acting player whether to roll again, when a Radio Tower allows
/// it.
pub fn choose_reroll<A: Actor>(player: &Player, human: &mut A) -> (r: bool)
    ensures
        r ==> owns_landmark(*player, LandmarkKind::RadioTower),
{
    player.has_landmark(LandmarkKind::RadioTower) && player.ask_reroll(human)
}

/// The Amusement Park grants another turn when two dice were rolled and
/// showed the same face.
pub open spec fn spec_takes_extra_turn(player: Player, roll: DiceRoll) -> bool {
    owns_landmark(player, LandmarkKind::AmusementPark) && roll.1 == Some(roll.0)
}

pub fn takes_extra_turn(player: &Player, roll: DiceRoll) -> (r: bool)
    ensures
        r == spec_takes_extra_turn(*player, roll),
{
    match roll.1 {
        Some(second) => second == roll.0 && player.has_landmark(LandmarkKind::AmusementPark),
        None => false,
    }
}

/// What happens once the acting player has bought (or not).
#[derive(Clone, Copy, Debug, PartialEq, Eq, Structural)]
pub enum TurnEnd {
    /// The acting player owns every landmark: the game is over.
    Won,
    /// The acting player plays again.
    ExtraTurn,
    /// The given player acts next.
    Next(usize),
}

/// Ends the turn of `current_turn`: a win ends the game, doubles with an
/// Amusement Park keep the turn, otherwise the next seat acts.
pub fn finish_turn(players: &Vec<Player>, current_turn: usize, roll: DiceRoll) -> (r: TurnEnd)
    requires
        current_turn < players@.len(),
    ensures
        r == if has_won(players@[current_turn as int]) {
            TurnEnd::Won
        } else if spec_takes_extra_turn(players@[current_turn as int], roll) {
            TurnEnd::ExtraTurn
        } else {
            TurnEnd::Next(((current_turn + 1) as int % players@.len() as int) as usize)
        },
{
    let player = &players[current_turn];
    if has_player_won(player) {
        TurnEnd::Won
    } else if takes_extra_turn(player, roll) {
        TurnEnd::ExtraTurn
    } else if current_turn == players.len() - 1 {
        proof {
            vstd::arithmetic::div_mod::lemma_mod_self_0(players@.len() as int);
        }
        TurnEnd::Next(0)
    } else {
        proof {
            vstd::arithmetic::div_mod::lemma_small_mod((current_turn + 1) as nat, players@.len());
        }
        TurnEnd::Next(current_turn + 1)
    }
}

/// The Shopping Mall adds a coin to every Bread and Cup activation of its
/// owner.
pub open spec fn mall_bonus(players: Seq<Player>, owner: int, kind: CardKind) -> int {
    if (spec_icon(kind) == CardIcon::Bread || spec_icon(kind) == CardIcon::Cup) && owns_landmark(
        players[owner],
        LandmarkKind::ShoppingMall,
    ) {
        1
    } else {
        0
    }
}

/// The roster after `amount` coins are awarded to player `t`.
pub open spec fn award_result(players: Seq<Player>, t: int, amount: int) -> Seq<Player> {
    players.update(t, with_coins(players[t], sat_add(players[t].coins as int, amount) as u8))
}

/// Cards whose effect needs a choice of the acting player.
pub open spec fn needs_choice(kind: CardKind) -> bool {
    kind == CardKind::TvStation || kind == CardKind::BusinessCenter
}

/// The roster after one card of `kind` owned by `owner` fires, `acting`
/// having rolled. Cards that need a choice are left to the caller.
pub open spec fn card_effect(players: Seq<Player>, acting: int, owner: int, kind: CardKind) -> Seq<
    Player,
> {
    let bonus = mall_bonus(players, owner, kind);
    match kind {
        CardKind::WheatField | CardKind::Ranch | CardKind::Forest => award_result(
            players,
            owner,
            1,
        ),
        CardKind::Bakery => award_result(players, owner, 1 + bonus),
        CardKind::ConvenienceStore => award_result(players, owner, 3 + bonus),
        CardKind::AppleOrchard => award_result(players, owner, 3),
        CardKind::Mine => award_result(players, owner, 5),
        CardKind::Cafe => steal_result(
            players,
            acting,
            owner,
            taken(players[acting].coins as int, 1 + bonus),
        ),
        CardKind::FamilyRestaurant => steal_result(
            players,
            acting,
            owner,
            taken(players[acting].coins as int, 2 + bonus),
        ),
        CardKind::CheeseFactory => award_result(
            players,
            owner,
            combo_total(players[owner], CardIcon::Cow, 3),
        ),
        CardKind::FurnitureFactory => award_result(
            players,
            owner,
            combo_total(players[owner], CardIcon::Gear, 3),
        ),
        CardKind::FruitAndVegetableMarket => award_result(
            players,
            owner,
            combo_total(players[owner], CardIcon::Wheat, 2),
        ),
        CardKind::Stadium => steal_from_all_result(players, owner, 2, players.len() as int),
        CardKind::TvStation | CardKind::BusinessCenter => players,
    }
}

/// The roster after `times` cards of `kind` owned by `owner` fire one after
/// the other.
pub open spec fn repeated_effect(
    players: Seq<Player>,
    acting: int,
    owner: int,
    kind: CardKind,
    times: nat,
) -> Seq<Player>
    decreases times,
{
    if times == 0 {
        players
    } else {
        card_effect(repeated_effect(players, acting, owner, kind, (times - 1) as nat), acting, owner, kind)
    }
}

/// The roster after the first `n` entries resolve in order, each stack
/// firing once per card.
pub open spec fn resolved(
    players: Seq<Player>,
    acting: int,
    entries: Seq<PlayerCardStack>,
    n: int,
) -> Seq<Player>
    decreases n,
{
    if n <= 0 {
        players
    } else {
        let e = entries[n - 1];
        repeated_effect(
            resolved(players, acting, entries, n - 1),
            acting,
            e.owner_turn as int,
            e.card.kind,
            e.card.count as nat,
        )
    }
}

/// Fires one card of `kind` owned by `owner_turn`, `acting_turn` having
/// rolled, for a card that needs no choice.
pub fn apply_card_effect(
    players: &mut Vec<Player>,
    acting_turn: usize,
    owner_turn: usize,
    kind: CardKind,
)
    requires
        acting_turn < old(players)@.len(),
        owner_turn < old(players)@.len(),
        players_wf(old(players)@),
        !needs_choice(kind),
    ensures
        players_wf(final(players)@),
        final(players)@ == card_effect(old(players)@, acting_turn as int, owner_turn as int, kind),
{
    let stack = CardStack { kind, count: 0 };
    let icon = stack.get_icon();
    let bonus: u8 = if (icon == CardIcon::Bread || icon == CardIcon::Cup)
        && players[owner_turn].has_landmark(LandmarkKind::ShoppingMall) {
        1
    } else {
        0
    };
    match kind {
        CardKind::WheatField | CardKind::Ranch | CardKind::Forest => {
            award_coins(players, owner_turn, 1);
        },
        CardKind::Bakery => {
            award_coins(players, owner_turn, 1 + bonus);
        },
        CardKind::ConvenienceStore => {
            award_coins(players, owner_turn, 3 + bonus);
        },
        CardKind::AppleOrchard => {
            award_coins(players, owner_turn, 3);
        },
        CardKind::Mine => {
            award_coins(players, owner_turn, 5);
        },
        CardKind::Cafe => {
            steal_coins(players, acting_turn, owner_turn, 1 + bonus);
        },
        CardKind::FamilyRestaurant => {
            steal_coins(players, acting_turn, owner_turn, 2 + bonus);
        },
        CardKind::CheeseFactory => {
            award_coins_combo(players, owner_turn, CardIcon::Cow, 3);
        },
        CardKind::FurnitureFactory => {
            award_coins_combo(players, owner_turn, CardIcon::Gear, 3);
        },
        CardKind::FruitAndVegetableMarket => {
            award_coins_combo(players, owner_turn, CardIcon::Wheat, 2);
        },
        CardKind::Stadium => {
            let player_count = players.len();
            steal_coins_from_all(players, owner_turn, player_count, 2);
        },
        CardKind::TvStation | CardKind::BusinessCenter => {},
    }
}

/// Whether `target` may lose coins to a TV Station of `owner_turn`: a
/// player of the roster other than the owner.
pub fn valid_steal_target(players: &Vec<Player>, owner_turn: usize, target: usize) -> (r: bool)
    ensures
        r == (target < players@.len() && target != owner_turn),
{
    target < players.len() && target != owner_turn
}

/// The rule, if any, that a Business Center answer `(other, their_card,
/// own_card)` of `owner_turn` breaks.
pub open spec fn trade_answer_violation(
    players: Seq<Player>,
    owner_turn: int,
    other: int,
    their_card: CardKind,
    own_card: CardKind,
) -> Option<RuleViolation> {
    if other < 0 || other >= players.len() {
        Some(RuleViolation::InvalidPlayer)
    } else {
        trade_violation(players, owner_turn, other, own_card, their_card)
    }
}

/// Checks a Business Center answer: `None` exactly when it names a legal
/// trade.
pub fn check_trade_answer(
    players: &Vec<Player>,
    owner_turn: usize,
    other: usize,
    their_card: CardKind,
    own_card: CardKind,
) -> (r: Option<RuleViolation>)
    requires
        players_wf(players@),
        owner_turn < players@.len(),
    ensures
        r == trade_answer_violation(players@, owner_turn as int, other as int, their_card, own_card),
        r is None <==> trade_legal(players@, owner_turn as int, other as int, their_card, own_card),
{
    if other >= players.len() {
        return Some(RuleViolation::InvalidPlayer);
    }
    check_trade(players, owner_turn, other, own_card, their_card)
}

/// One TV Station card of `owner` fired: some other player gave up to 5
/// coins to the owner.
pub open spec fn tv_station_unit(before: Seq<Player>, after: Seq<Player>, owner: int) -> bool {
    exists|target: int|
        0 <= target < before.len() && target != owner && #[trigger] steal_result(
            before,
            target,
            owner,
            taken(before[target].coins as int, 5),
        ) == after
}

/// One Business Center card of `owner` fired: a legal trade with another
/// player, or none.
pub open spec fn business_center_unit(before: Seq<Player>, after: Seq<Player>, owner: int) -> bool {
    after == before || exists|other: int, their_card: CardKind, own_card: CardKind|
        trade_legal(before, owner, other, their_card, own_card) && #[trigger] trade_result(
            before,
            after,
            owner,
            other,
            own_card,
            their_card,
        )
}

/// One card of `kind` owned by `owner` fired, `acting` having rolled.
pub open spec fn unit_effect(
    before: Seq<Player>,
    after: Seq<Player>,
    acting: int,
    owner: int,
    kind: CardKind,
) -> bool {
    match kind {
        CardKind::TvStation => tv_station_unit(before, after, owner),
        CardKind::BusinessCenter => business_center_unit(before, after, owner),
        _ => after == card_effect(before, acting, owner, kind),
    }
}

/// Each roster of `states` follows from the one before by one card of
/// `kind` owned by `owner` firing.
pub open spec fn unit_chain(states: Seq<Seq<Player>>, acting: int, owner: int, kind: CardKind) -> bool {
    forall|i: int|
        0 <= i < states.len() - 1 ==> unit_effect(#[trigger] states[i], states[i + 1], acting, owner, kind)
}

/// `after` follows from `before` by the stack `e` firing once per card.
pub open spec fn entry_effect(
    before: Seq<Player>,
    after: Seq<Player>,
    acting: int,
    e: PlayerCardStack,
) -> bool {
    exists|states: Seq<Seq<Player>>|
        {
            &&& states.len() == e.card.count + 1
            &&& states[0] == before
            &&& #[trigger] states[e.card.count as int] == after
            &&& unit_chain(states, acting, e.owner_turn as int, e.card.kind)
        }
}

/// Each roster of `states` follows from the one before by the next entry
/// firing.
pub open spec fn entry_chain(states: Seq<Seq<Player>>, acting: int, entries: Seq<PlayerCardStack>) -> bool {
    forall|j: int|
        0 <= j < states.len() - 1 ==> entry_effect(#[trigger] states[j], states[j + 1], acting, entries[j])
}

/// The violations an answer of the acting player can bring.
pub open spec fn answer_violation(e: RuleViolation) -> bool {
    e == RuleViolation::InvalidPlayer || e == RuleViolation::MajorTrade || e
        == RuleViolation::SelfTrade || e == RuleViolation::CardNotOwned
}

/// Fires a resolved stack once per card. A TV Station asks the acting
/// player whom to take 5 coins from; a Business Center asks for a trade.
/// An answer that the rules refuse stops with the violation.
pub fn apply_activation<A: Actor>(
    players: &mut Vec<Player>,
    acting_turn: usize,
    entry: PlayerCardStack,
    human: &mut A,
) -> (r: Result<(), RuleViolation>)
    requires
        acting_turn < old(players)@.len(),
        entry.owner_turn < old(players)@.len(),
        old(players)@.len() >= 2,
        players_wf(old(players)@),
    ensures
        players_wf(final(players)@),
        final(players)@.len() == old(players)@.len(),
        r is Ok ==> entry_effect(old(players)@, final(players)@, acting_turn as int, entry),
        r matches Err(e) ==> needs_choice(entry.card.kind) && answer_violation(e),
        !needs_choice(entry.card.kind) ==> r is Ok && final(players)@ == repeated_effect(
            old(players)@,
            acting_turn as int,
            entry.owner_turn as int,
            entry.card.kind,
            entry.card.count as nat,
        ),
{
    let owner_turn = entry.owner_turn;
    let kind = entry.card.kind;
    let ghost start = players@;
    let ghost mut states: Seq<Seq<Player>> = seq![players@];
    let mut i: u8 = 0;
    while i < entry.card.count
        invariant
            i <= entry.card.count,
            acting_turn < players@.len(),
            owner_turn < players@.len(),
            owner_turn == entry.owner_turn,
            kind == entry.card.kind,
            start == old(players)@,
            players@.len() == start.len(),
            players@.len() >= 2,
            players_wf(players@),
            states.len() == i + 1,
            states[0] == start,
            states[i as int] == players@,
            unit_chain(states, acting_turn as int, owner_turn as int, kind),
            !needs_choice(kind) ==> players@ == repeated_effect(
                start,
                acting_turn as int,
                owner_turn as int,
                kind,
                i as nat,
            ),
        decreases entry.card.count - i,
    {
        let ghost before = players@;
        match kind {
            CardKind::TvStation => {
                let target = players[acting_turn].get_player_to_steal_coins_from(
                    players,
                    owner_turn,
                    5,
                    human,
                );
                if !valid_steal_target(players, owner_turn, target) {
                    return Err(RuleViolation::InvalidPlayer);
                }
                steal_coins(players, target, owner_turn, 5);
                assert(steal_result(
                    before,
                    target as int,
                    owner_turn as int,
                    taken(before[target as int].coins as int, 5),
                ) == players@);
            },
            CardKind::BusinessCenter => {
                let choice = players[acting_turn].get_trade_establishments(
                    players,
                    owner_turn,
                    human,
                );
                match choice {
                    None => {},
                    Some((other, their_card, own_card)) => {
                        match check_trade_answer(players, owner_turn, other, their_card, own_card) {
                            Some(e) => {
                                return Err(e);
                            },
                            None => {},
                        }
                        trade_establishments(players, owner_turn, other, own_card, their_card);
                        assert(trade_result(
                            before,
                            players@,
                            owner_turn as int,
                            other as int,
                            own_card,
                            their_card,
                        ));
                    },
                }
            },
            _ => {
                apply_card_effect(players, acting_turn, owner_turn, kind);
            },
        }
        proof {
            let old_states = states;
            states = states.push(players@);
            assert(unit_effect(old_states[i as int], players@, acting_turn as int, owner_turn as int, kind));
            assert forall|k: int| 0 <= k < states.len() - 1 implies unit_effect(
                #[trigger] states[k],
                states[k + 1],
                acting_turn as int,
                owner_turn as int,
                kind,
            ) by {
                if k < i {
                    assert(states[k] == old_states[k]);
                    assert(states[k + 1] == old_states[k + 1]);
                }
            }
        }
        i += 1;
    }
    assert(states[entry.card.count as int] == players@);
    Ok(())
}

/// Resolves the activations of a roll in the order given, stopping at the
/// first answer of the acting player that the rules refuse.
pub fn resolve_activations<A: Actor>(
    players: &mut Vec<Player>,
    acting_turn: usize,
    cards: &Vec<PlayerCardStack>,
    human: &mut A,
) -> (r: Result<(), RuleViolation>)
    requires
        acting_turn < old(players)@.len(),
        old(players)@.len() >= 2,
        players_wf(old(players)@),
        forall|j: int| 0 <= j < cards@.len() ==> #[trigger] cards@[j].owner_turn < old(players)@.len(),
    ensures
        players_wf(final(players)@),
        final(players)@.len() == old(players)@.len(),
        r is Ok ==> exists|states: Seq<Seq<Player>>|
            {
                &&& states.len() == cards@.len() + 1
                &&& states[0] == old(players)@
                &&& #[trigger] states[cards@.len() as int] == final(players)@
                &&& entry_chain(states, acting_turn as int, cards@)
            },
        r matches Err(e) ==> answer_violation(e) && exists|j: int|
            0 <= j < cards@.len() && needs_choice(#[trigger] cards@[j].card.kind),
        (forall|j: int| 0 <= j < cards@.len() ==> !needs_choice(#[trigger] cards@[j].card.kind))
            ==> r is Ok && final(players)@ == resolved(
            old(players)@,
            acting_turn as int,
            cards@,
            cards@.len() as int,
        ),
{
    let ghost start = players@;
    let ghost mut states: Seq<Seq<Player>> = seq![players@];
    let mut i: usize = 0;
    while i < cards.len()
        invariant
            i <= cards@.len(),
            acting_turn < players@.len(),
            start == old(players)@,
            players@.len() == start.len(),
            players@.len() >= 2,
            players_wf(players@),
            forall|j: int| 0 <= j < cards@.len() ==> #[trigger] cards@[j].owner_turn < start.len(),
            states.len() == i + 1,
            states[0] == start,
            states[i as int] == players@,
            entry_chain(states, acting_turn as int, cards@),
            (forall|j: int| 0 <= j < cards@.len() ==> !needs_choice(#[trigger] cards@[j].card.kind))
                ==> players@ == resolved(start, acting_turn as int, cards@, i as int),
        decreases cards@.len() - i,
    {
        let entry = cards[i];
        let ghost before = players@;
        match apply_activation(players, acting_turn, entry, human) {
            Ok(()) => {},
            Err(e) => {
                assert(needs_choice(cards@[i as int].card.kind));
                return Err(e);
            },
        }
        proof {
            let old_states = states;
            states = states.push(players@);
            assert(entry_effect(old_states[i as int], players@, acting_turn as int, cards@[i as int]));
            assert forall|k: int| 0 <= k < states.len() - 1 implies entry_effect(
                #[trigger] states[k],
                states[k + 1],
                acting_turn as int,
                cards@[k],
            ) by {
                if k < i {
                    assert(states[k] == old_states[k]);
                    assert(states[k + 1] == old_states[k + 1]);
                }
            }
        }
        i += 1;
    }
    assert(states[cards@.len() as int] == players@);
    Ok(())
}

} // verus!
