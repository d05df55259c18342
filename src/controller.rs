use vstd::prelude::*;

use crate::cards::{
    activates, kind_at, kind_index, order_rank, spec_icon, spec_order, CardIcon, CardKind, CardStack,
    CARD_KIND_COUNT,
};
use crate::landmarks::{spec_landmark_cost, LandmarkKind, get_landmark_cost};
use crate::player::{
    deck_count, deck_wf, hand_count, owns_landmark, players_wf, with_coins, with_count,
    with_landmark, Deck, Player,
};

verus! {

/// `a + b`, capped at the 8-bit maximum.
pub open spec fn sat_add(a: int, b: int) -> int {
    if a + b > 255 {
        255
    } else {
        a + b
    }
}

/// What `take` removes from a purse of `coins`.
pub open spec fn taken(coins: int, amount: int) -> int {
    if coins < amount {
        coins
    } else {
        amount
    }
}

pub fn award_coins(players: &mut Vec<Player>, player_turn: usize, amount: u8) -> (r: u8)
    requires
        player_turn < old(players)@.len(),
    ensures
        r == amount,
        final(players)@[player_turn as int].coins >= old(players)@[player_turn as int].coins,
        players_wf(old(players)@) ==> players_wf(final(players)@),
        final(players)@ == old(players)@.update(
            player_turn as int,
            with_coins(
                old(players)@[player_turn as int],
                sat_add(old(players)@[player_turn as int].coins as int, amount as int) as u8,
            ),
        ),
{
    players[player_turn].coins = players[player_turn].coins.saturating_add(amount);
    amount
}

pub fn take_coins(players: &mut Vec<Player>, player_turn: usize, amount: u8) -> (r: u8)
    requires
        player_turn < old(players)@.len(),
    ensures
        r == taken(old(players)@[player_turn as int].coins as int, amount as int),
        r <= old(players)@[player_turn as int].coins,
        final(players)@[player_turn as int].coins <= old(players)@[player_turn as int].coins,
        players_wf(old(players)@) ==> players_wf(final(players)@),
        final(players)@ == old(players)@.update(
            player_turn as int,
            with_coins(old(players)@[player_turn as int], (old(players)@[player_turn as int].coins - r) as u8),
        ),
{
    let coins = players[player_turn].coins;
    let available_amount = if coins < amount {
        coins
    } else {
        amount
    };
    players[player_turn].coins = coins - available_amount;
    available_amount
}

/// Moves up to `amount` coins from one player to another. Returns what left
/// the giver, which the receiver is awarded (capped at the 8-bit maximum).
pub fn steal_coins(
    players: &mut Vec<Player>,
    from_player_turn: usize,
    to_player_turn: usize,
    amount: u8,
) -> (r: u8)
    requires
        from_player_turn < old(players)@.len(),
        to_player_turn < old(players)@.len(),
    ensures
        r == taken(old(players)@[from_player_turn as int].coins as int, amount as int),
        players_wf(old(players)@) ==> players_wf(final(players)@),
        final(players)@ == steal_result(
            old(players)@,
            from_player_turn as int,
            to_player_turn as int,
            r as int,
        ),
{
    let available_amount = take_coins(players, from_player_turn, amount);
    award_coins(players, to_player_turn, available_amount);
    available_amount
}

/// The roster after `moved` coins left `from` and were awarded to `to`.
pub open spec fn steal_result(players: Seq<Player>, from: int, to: int, moved: int) -> Seq<Player> {
    let after_take = players.update(
        from,
        with_coins(players[from], (players[from].coins - moved) as u8),
    );
    after_take.update(
        to,
        with_coins(after_take[to], sat_add(after_take[to].coins as int, moved) as u8),
    )
}

/// Coins that `steal_coins_from_all` moves from the first `n` players
/// (the beneficiary `to` is skipped).
pub open spec fn stolen_total(players: Seq<Player>, to: int, amount: int, n: int) -> int
    decreases n,
{
    if n <= 0 {
        0
    } else {
        stolen_total(players, to, amount, n - 1) + if n - 1 == to {
            0
        } else {
            taken(players[n - 1].coins as int, amount)
        }
    }
}

/// Coins of player `j` once the first `n` players have each given up to
/// `amount` coins to `to`.
pub open spec fn coins_after_steal_from_all(
    players: Seq<Player>,
    to: int,
    amount: int,
    n: int,
    j: int,
) -> u8 {
    if j == to {
        sat_add(players[to].coins as int, stolen_total(players, to, amount, n)) as u8
    } else if j < n {
        (players[j].coins - taken(players[j].coins as int, amount)) as u8
    } else {
        players[j].coins
    }
}

/// The roster once the first `n` players have each given up to `amount`
/// coins to `to`.
pub open spec fn steal_from_all_result(players: Seq<Player>, to: int, amount: int, n: int) -> Seq<
    Player,
> {
    Seq::new(
        players.len(),
        |j: int| with_coins(players[j], coins_after_steal_from_all(players, to, amount, n, j)),
    )
}

/// Every player of turn below `player_count` but `player_turn` gives up to
/// `amount` coins to `player_turn`, in turn order. Returns the sum moved,
/// capped at the 8-bit maximum.
pub fn steal_coins_from_all(
    players: &mut Vec<Player>,
    player_turn: usize,
    player_count: usize,
    amount: u8,
) -> (r: u8)
    requires
        player_turn < old(players)@.len(),
        player_count <= old(players)@.len(),
    ensures
        r as int == sat_add(0, stolen_total(old(players)@, player_turn as int, amount as int, player_count as int)),
        players_wf(old(players)@) ==> players_wf(final(players)@),
        final(players)@ == steal_from_all_result(
            old(players)@,
            player_turn as int,
            amount as int,
            player_count as int,
        ),
{
    let ghost start = players@;
    let mut total_coins_stolen: u8 = 0;
    let mut i: usize = 0;
    while i < player_count
        invariant
            i <= player_count,
            player_count <= start.len(),
            player_turn < start.len(),
            total_coins_stolen as int == sat_add(0, stolen_total(start, player_turn as int, amount as int, i as int)),
            players@ == steal_from_all_result(start, player_turn as int, amount as int, i as int),
        decreases player_count - i,
    {
        if i != player_turn {
            let moved = steal_coins(players, i, player_turn, amount);
            total_coins_stolen = total_coins_stolen.saturating_add(moved);
        }
        i += 1;
        assert(players@ =~= steal_from_all_result(start, player_turn as int, amount as int, i as int));
    }
    total_coins_stolen
}

/// Cards among the first `n` stacks of `cards` that carry `icon`.
pub open spec fn icon_count(cards: Seq<CardStack>, icon: CardIcon, n: int) -> int
    decreases n,
{
    if n <= 0 {
        0
    } else {
        icon_count(cards, icon, n - 1) + if spec_icon(cards[n - 1].kind) == icon {
            cards[n - 1].count as int
        } else {
            0
        }
    }
}

/// What a combo pays: `per_card` for each card of the icon, capped at the
/// 8-bit maximum.
pub open spec fn combo_total(p: Player, icon: CardIcon, per_card: int) -> int {
    let product = icon_count(p.cards@, icon, CARD_KIND_COUNT as int) * per_card;
    if product > 255 {
        255
    } else {
        product
    }
}

/// Awards `amount` coins for each card of the player's hand that carries
/// `card_icon` (the product capped at the 8-bit maximum). Returns the award.
pub fn award_coins_combo(
    players: &mut Vec<Player>,
    player_turn: usize,
    card_icon: CardIcon,
    amount: u8,
) -> (r: u8)
    requires
        player_turn < old(players)@.len(),
    ensures
        r as int == combo_total(old(players)@[player_turn as int], card_icon, amount as int),
        players_wf(old(players)@) ==> players_wf(final(players)@),
        final(players)@ == old(players)@.update(
            player_turn as int,
            with_coins(
                old(players)@[player_turn as int],
                sat_add(old(players)@[player_turn as int].coins as int, r as int) as u8,
            ),
        ),
{
    let mut card_count: u32 = 0;
    let mut i: usize = 0;
    while i < CARD_KIND_COUNT
        invariant
            i <= CARD_KIND_COUNT,
            player_turn < players@.len(),
            card_count as int == icon_count(players@[player_turn as int].cards@, card_icon, i as int),
            card_count <= 255 * i,
        decreases CARD_KIND_COUNT - i,
    {
        let card = players[player_turn].cards[i];
        if card.get_icon() == card_icon {
            card_count = card_count + card.count as u32;
        }
        i += 1;
    }
    assert(card_count * amount as u32 <= 255 * 15 * 255) by (nonlinear_arith)
        requires
            card_count <= 255 * 15,
            amount <= 255,
    ;
    let product: u32 = card_count * amount as u32;
    let total_amount: u8 = if product > 255 {
        255
    } else {
        product as u8
    };
    award_coins(players, player_turn, total_amount);
    total_amount
}

/// A rule that a requested transaction would break. The game treats each as
/// fatal; callers are expected to rule them out beforehand.
#[derive(Clone, Copy, Debug, PartialEq, Eq, Structural)]
pub enum RuleViolation {
    /// The market holds no card of the requested kind.
    OutOfStock,
    /// The buyer cannot pay the price.
    NotEnoughCoins,
    /// The landmark is built already.
    LandmarkOwned,
    /// A Major establishment may not be traded.
    MajorTrade,
    /// A side of the trade does not hold the card it would give.
    CardNotOwned,
    /// Both sides of a trade are the same player.
    SelfTrade,
    /// A player index outside the roster, or the wrong player, was chosen.
    InvalidPlayer,
    /// A purchase names neither a card nor a landmark, or both.
    MalformedPurchase,
}

fn remove_card_from_stack(card: &mut CardStack, amount: u8)
    requires
        old(card).count >= amount,
    ensures
        *final(card) == (CardStack { kind: old(card).kind, count: (old(card).count - amount) as u8 }),
{
    card.count = card.count - amount;
}

/// Adds `amount` cards of `card_kind` to a hand, capped at the 8-bit maximum.
pub fn add_player_card(
    players: &mut Vec<Player>,
    player_turn: usize,
    card_kind: CardKind,
    amount: u8,
)
    requires
        player_turn < old(players)@.len(),
        deck_wf(old(players)@[player_turn as int].cards),
    ensures
        final(players)@.len() == old(players)@.len(),
        forall|j: int| 0 <= j < old(players)@.len() && j != player_turn ==> #[trigger] final(players)@[j] == old(players)@[j],
        with_count(
            old(players)@[player_turn as int],
            final(players)@[player_turn as int],
            card_kind,
            sat_add(hand_count(old(players)@[player_turn as int], card_kind) as int, amount as int) as u8,
        ),
{
    let i = card_kind.index();
    players[player_turn].cards[i].count = players[player_turn].cards[i].count.saturating_add(amount);
    assert(players@[player_turn as int].cards@ =~= old(players)@[player_turn as int].cards@.update(
        i as int,
        CardStack {
            kind: card_kind,
            count: sat_add(hand_count(old(players)@[player_turn as int], card_kind) as int, amount as int) as u8,
        },
    ));
}

/// Removes `amount` cards of `card_kind` from a hand that holds at least that
/// many.
pub fn remove_player_card(
    players: &mut Vec<Player>,
    player_turn: usize,
    card_kind: CardKind,
    amount: u8,
)
    requires
        player_turn < old(players)@.len(),
        deck_wf(old(players)@[player_turn as int].cards),
        hand_count(old(players)@[player_turn as int], card_kind) >= amount,
    ensures
        final(players)@.len() == old(players)@.len(),
        forall|j: int| 0 <= j < old(players)@.len() && j != player_turn ==> #[trigger] final(players)@[j] == old(players)@[j],
        with_count(
            old(players)@[player_turn as int],
            final(players)@[player_turn as int],
            card_kind,
            (hand_count(old(players)@[player_turn as int], card_kind) - amount) as u8,
        ),
{
    let i = card_kind.index();
    remove_card_from_stack(&mut players[player_turn].cards[i], amount);
    assert(players@[player_turn as int].cards@ =~= old(players)@[player_turn as int].cards@.update(
        i as int,
        CardStack {
            kind: card_kind,
            count: (hand_count(old(players)@[player_turn as int], card_kind) - amount) as u8,
        },
    ));
}

/// A hand's count of `kind` after giving one `give` and receiving one `get`.
pub open spec fn traded_count(count: u8, kind: CardKind, give: CardKind, get: CardKind) -> u8 {
    if kind == give && kind == get {
        count
    } else if kind == give {
        (count - 1) as u8
    } else if kind == get {
        sat_add(count as int, 1) as u8
    } else {
        count
    }
}

/// `q` is `p` after giving one `give` card and receiving one `get` card.
pub open spec fn traded(p: Player, q: Player, give: CardKind, get: CardKind) -> bool {
    &&& q.name == p.name
    &&& q.kind == p.kind
    &&& q.turn == p.turn
    &&& q.coins == p.coins
    &&& q.landmarks == p.landmarks
    &&& deck_wf(q.cards)
    &&& forall|k: CardKind| #[trigger] hand_count(q, k) == traded_count(hand_count(p, k), k, give, get)
}

/// When `trade_establishments` refuses a trade, and why.
pub open spec fn trade_violation(
    players: Seq<Player>,
    player_turn: int,
    other_player_turn: int,
    player_card_kind: CardKind,
    other_player_card_kind: CardKind,
) -> Option<RuleViolation> {
    if spec_icon(player_card_kind) == CardIcon::Major || spec_icon(other_player_card_kind)
        == CardIcon::Major {
        Some(RuleViolation::MajorTrade)
    } else if player_turn == other_player_turn {
        Some(RuleViolation::SelfTrade)
    } else if hand_count(players[player_turn], player_card_kind) == 0 || hand_count(
        players[other_player_turn],
        other_player_card_kind,
    ) == 0 {
        Some(RuleViolation::CardNotOwned)
    } else {
        None
    }
}

/// The roster after `a` gave one `give` card to `b` and received one `get`
/// card from them: both hands change as a trade says, nobody else changes.
pub open spec fn trade_result(
    before: Seq<Player>,
    after: Seq<Player>,
    a: int,
    b: int,
    give: CardKind,
    get: CardKind,
) -> bool {
    &&& after.len() == before.len()
    &&& forall|j: int| 0 <= j < before.len() && j != a && j != b ==> #[trigger] after[j] == before[j]
    &&& traded(before[a], after[a], give, get)
    &&& traded(before[b], after[b], get, give)
}

/// Which rule, if any, a trade would break.
pub fn check_trade(
    players: &Vec<Player>,
    player_turn: usize,
    other_player_turn: usize,
    player_card_kind: CardKind,
    other_player_card_kind: CardKind,
) -> (r: Option<RuleViolation>)
    requires
        player_turn < players@.len(),
        other_player_turn < players@.len(),
        players_wf(players@),
    ensures
        r == trade_violation(
            players@,
            player_turn as int,
            other_player_turn as int,
            player_card_kind,
            other_player_card_kind,
        ),
{
    let player_stack = CardStack { kind: player_card_kind, count: 0 };
    let other_stack = CardStack { kind: other_player_card_kind, count: 0 };
    if player_stack.get_icon() == CardIcon::Major || other_stack.get_icon() == CardIcon::Major {
        Some(RuleViolation::MajorTrade)
    } else if player_turn == other_player_turn {
        Some(RuleViolation::SelfTrade)
    } else if players[player_turn].card_count(player_card_kind) == 0
        || players[other_player_turn].card_count(other_player_card_kind) == 0 {
        Some(RuleViolation::CardNotOwned)
    } else {
        None
    }
}

/// Swaps one non-Major card of `player_turn` for one non-Major card of
/// `other_player_turn`. Trading a Major card, trading with oneself, or
/// giving a card one does not hold breaks the rules: callers rule it out
/// first (see `check_trade`).
pub fn trade_establishments(
    players: &mut Vec<Player>,
    player_turn: usize,
    other_player_turn: usize,
    player_card_kind: CardKind,
    other_player_card_kind: CardKind,
)
    requires
        player_turn < old(players)@.len(),
        other_player_turn < old(players)@.len(),
        players_wf(old(players)@),
        trade_violation(
            old(players)@,
            player_turn as int,
            other_player_turn as int,
            player_card_kind,
            other_player_card_kind,
        ) is None,
    ensures
        players_wf(final(players)@),
        trade_result(
            old(players)@,
            final(players)@,
            player_turn as int,
            other_player_turn as int,
            player_card_kind,
            other_player_card_kind,
        ),
{
    let ghost start = players@;
    remove_player_card(players, player_turn, player_card_kind, 1);
    remove_player_card(players, other_player_turn, other_player_card_kind, 1);
    add_player_card(players, player_turn, other_player_card_kind, 1);
    add_player_card(players, other_player_turn, player_card_kind, 1);
    assert forall|k: CardKind| #[trigger]
        hand_count(players@[player_turn as int], k) == traded_count(
            hand_count(start[player_turn as int], k),
            k,
            player_card_kind,
            other_player_card_kind,
        ) by {
        crate::cards::lemma_kind_index_bijective();
    }
    assert forall|k: CardKind| #[trigger]
        hand_count(players@[other_player_turn as int], k) == traded_count(
            hand_count(start[other_player_turn as int], k),
            k,
            other_player_card_kind,
            player_card_kind,
        ) by {
        crate::cards::lemma_kind_index_bijective();
    }
}

/// Which rule, if any, buying one `kind` from the market would break.
pub open spec fn card_purchase_violation(player: Player, market: Deck, kind: CardKind) -> Option<
    RuleViolation,
> {
    if deck_count(market, kind) == 0 {
        Some(RuleViolation::OutOfStock)
    } else if player.coins < crate::cards::spec_cost(kind) {
        Some(RuleViolation::NotEnoughCoins)
    } else {
        None
    }
}

/// Roster and market after `t` bought one `kind`: the market holds one
/// fewer, the buyer paid the cost and holds one more (capped at the 8-bit
/// maximum), nobody else changed.
pub open spec fn card_bought(
    players: Seq<Player>,
    market: Deck,
    after: Seq<Player>,
    market_after: Deck,
    t: int,
    kind: CardKind,
) -> bool {
    &&& after.len() == players.len()
    &&& market_after@ == market@.update(
        kind_index(kind),
        CardStack { kind, count: (deck_count(market, kind) - 1) as u8 },
    )
    &&& deck_count(market_after, kind) == deck_count(market, kind) - 1
    &&& forall|j: int| 0 <= j < players.len() && j != t ==> #[trigger] after[j] == players[j]
    &&& with_count(
        with_coins(players[t], (players[t].coins - crate::cards::spec_cost(kind)) as u8),
        after[t],
        kind,
        sat_add(hand_count(players[t], kind) as int, 1) as u8,
    )
    &&& after[t].coins == players[t].coins - crate::cards::spec_cost(kind)
    &&& hand_count(after[t], kind) == sat_add(hand_count(players[t], kind) as int, 1)
    &&& hand_count(players[t], kind) < 255 ==> hand_count(after[t], kind) == hand_count(players[t], kind) + 1
}

/// Which rule, if any, buying one `card_kind` would break.
pub fn check_card_purchase(player: &Player, card_deck: &Deck, card_kind: CardKind) -> (r: Option<
    RuleViolation,
>)
    requires
        deck_wf(*card_deck),
    ensures
        r == card_purchase_violation(*player, *card_deck, card_kind),
{
    let card = card_deck[card_kind.index()];
    proof {
        crate::cards::lemma_kind_index_bijective();
    }
    if card.count == 0 {
        Some(RuleViolation::OutOfStock)
    } else if player.coins < card.get_cost() {
        Some(RuleViolation::NotEnoughCoins)
    } else {
        None
    }
}

/// Buys one `card_kind` from the market: the market loses one, the buyer pays
/// the card's cost and gains one. The card must be in stock and affordable
/// (see `check_card_purchase`).
pub fn buy_card_from_deck(
    players: &mut Vec<Player>,
    player_turn: usize,
    card_deck: &mut Deck,
    card_kind: CardKind,
)
    requires
        player_turn < old(players)@.len(),
        players_wf(old(players)@),
        deck_wf(*old(card_deck)),
        card_purchase_violation(old(players)@[player_turn as int], *old(card_deck), card_kind) is None,
    ensures
        players_wf(final(players)@),
        deck_wf(*final(card_deck)),
        card_bought(
            old(players)@,
            *old(card_deck),
            final(players)@,
            *final(card_deck),
            player_turn as int,
            card_kind,
        ),
{
    let i = card_kind.index();
    let cost = card_deck[i].get_cost();
    let ghost deck_before = *card_deck;
    remove_card_from_stack(&mut card_deck[i], 1);
    assert(card_deck@ =~= deck_before@.update(
        kind_index(card_kind),
        CardStack { kind: card_kind, count: (deck_count(deck_before, card_kind) - 1) as u8 },
    ));
    take_coins(players, player_turn, cost);
    add_player_card(players, player_turn, card_kind, 1);
    proof {
        crate::cards::lemma_kind_index_bijective();
    }
}

/// Which rule, if any, building `landmark` would break.
pub open spec fn landmark_purchase_violation(player: Player, landmark: LandmarkKind) -> Option<
    RuleViolation,
> {
    if owns_landmark(player, landmark) {
        Some(RuleViolation::LandmarkOwned)
    } else if player.coins < spec_landmark_cost(landmark) {
        Some(RuleViolation::NotEnoughCoins)
    } else {
        None
    }
}

/// The roster after `t` built `landmark`: they paid its cost and own it,
/// nobody else changed.
pub open spec fn landmark_bought(
    players: Seq<Player>,
    after: Seq<Player>,
    t: int,
    landmark: LandmarkKind,
) -> bool {
    &&& after.len() == players.len()
    &&& forall|j: int| 0 <= j < players.len() && j != t ==> #[trigger] after[j] == players[j]
    &&& with_landmark(
        with_coins(players[t], (players[t].coins - spec_landmark_cost(landmark)) as u8),
        after[t],
        landmark,
    )
}

/// Which rule, if any, building `landmark` would break.
pub fn check_landmark_purchase(player: &Player, landmark: LandmarkKind) -> (r: Option<
    RuleViolation,
>)
    ensures
        r == landmark_purchase_violation(*player, landmark),
{
    if player.has_landmark(landmark) {
        Some(RuleViolation::LandmarkOwned)
    } else if player.coins < get_landmark_cost(&landmark) {
        Some(RuleViolation::NotEnoughCoins)
    } else {
        None
    }
}

/// Builds `landmark` for a player who has not built it and can pay its cost
/// (see `check_landmark_purchase`).
pub fn buy_landmark(players: &mut Vec<Player>, player_turn: usize, landmark: LandmarkKind)
    requires
        player_turn < old(players)@.len(),
        players_wf(old(players)@),
        landmark_purchase_violation(old(players)@[player_turn as int], landmark) is None,
    ensures
        players_wf(final(players)@),
        landmark_bought(old(players)@, final(players)@, player_turn as int, landmark),
{
    let cost = get_landmark_cost(&landmark);
    let ghost start = players@;
    players[player_turn].coins = players[player_turn].coins - cost;
    players[player_turn].landmarks.push(landmark);
    proof {
        let l = players@[player_turn as int].landmarks@;
        assert(l == start[player_turn as int].landmarks@.push(landmark));
        assert forall|a: int, b: int| 0 <= a < l.len() && 0 <= b < l.len() && a != b implies l[a] != l[b] by {
            if b == l.len() - 1 {
                assert(start[player_turn as int].landmarks@[a] == l[a]);
            } else if a == l.len() - 1 {
                assert(start[player_turn as int].landmarks@[b] == l[b]);
            }
        }
    }
}

/// The win condition: every landmark is built.
pub open spec fn has_won(player: Player) -> bool {
    forall|landmark: LandmarkKind| #[trigger] owns_landmark(player, landmark)
}

pub fn has_player_won(player: &Player) -> (r: bool)
    ensures
        r == has_won(*player),
{
    let r = player.has_landmark(LandmarkKind::TrainStation) && player.has_landmark(
        LandmarkKind::ShoppingMall,
    ) && player.has_landmark(LandmarkKind::AmusementPark) && player.has_landmark(
        LandmarkKind::RadioTower,
    );
    proof {
        if r {
            assert forall|landmark: LandmarkKind| #[trigger] owns_landmark(*player, landmark) by {
                match landmark {
                    LandmarkKind::TrainStation => {},
                    LandmarkKind::ShoppingMall => {},
                    LandmarkKind::AmusementPark => {},
                    LandmarkKind::RadioTower => {},
                }
            }
        }
    }
    r
}

/// Copies of each establishment in a fresh market.
pub open spec fn market_start_count(kind: CardKind) -> u8 {
    match kind {
        CardKind::BusinessCenter | CardKind::Stadium | CardKind::TvStation => 4,
        _ => 6,
    }
}

/// Copies of each establishment in a starting hand.
pub open spec fn hand_start_count(kind: CardKind) -> u8 {
    match kind {
        CardKind::WheatField | CardKind::Bakery => 1,
        _ => 0,
    }
}

/// The shared market at the start of a game.
pub fn create_deck() -> (r: Deck)
    ensures
        deck_wf(r),
        forall|kind: CardKind| #[trigger] deck_count(r, kind) == market_start_count(kind),
{
    let mut deck = [CardStack { kind: CardKind::AppleOrchard, count: 0 };CARD_KIND_COUNT];
    let mut i: usize = 0;
    while i < CARD_KIND_COUNT
        invariant
            i <= CARD_KIND_COUNT,
            forall|j: int|
                0 <= j < i ==> #[trigger] deck@[j] == (CardStack {
                    kind: kind_at(j),
                    count: market_start_count(kind_at(j)),
                }),
        decreases CARD_KIND_COUNT - i,
    {
        let kind = CardKind::at(i);
        let count: u8 = match kind {
            CardKind::BusinessCenter | CardKind::Stadium | CardKind::TvStation => 4,
            _ => 6,
        };
        deck[i] = CardStack { kind, count };
        i += 1;
    }
    proof {
        crate::cards::lemma_kind_index_bijective();
    }
    deck
}

/// A player's hand at the start of a game.
pub fn create_player_deck() -> (r: Deck)
    ensures
        deck_wf(r),
        forall|kind: CardKind| #[trigger] deck_count(r, kind) == hand_start_count(kind),
{
    let mut deck = [CardStack { kind: CardKind::AppleOrchard, count: 0 };CARD_KIND_COUNT];
    let mut i: usize = 0;
    while i < CARD_KIND_COUNT
        invariant
            i <= CARD_KIND_COUNT,
            forall|j: int|
                0 <= j < i ==> #[trigger] deck@[j] == (CardStack {
                    kind: kind_at(j),
                    count: hand_start_count(kind_at(j)),
                }),
        decreases CARD_KIND_COUNT - i,
    {
        let kind = CardKind::at(i);
        let count: u8 = match kind {
            CardKind::WheatField | CardKind::Bakery => 1,
            _ => 0,
        };
        deck[i] = CardStack { kind, count };
        i += 1;
    }
    proof {
        crate::cards::lemma_kind_index_bijective();
    }
    deck
}

/// A stack of cards together with the turn of the player who owns it.
#[derive(Clone, Copy, Debug, PartialEq, Eq, Structural)]
pub struct PlayerCardStack {
    pub owner_turn: usize,
    pub card: CardStack,
}

/// Seats from the acting player forward to `owner`, in a roster of `n`.
pub open spec fn cyclic_distance(n: int, acting: int, owner: int) -> int {
    if owner >= acting {
        owner - acting
    } else {
        owner + n - acting
    }
}

/// Where a stack resolves: by class rank first, then from the seat just
/// before the acting player backwards round to the acting player, then in
/// catalog order.
pub open spec fn resolve_key(n: int, acting: int, owner: int, kind: CardKind) -> (int, int, int) {
    (order_rank(spec_order(kind)), n - 1 - cyclic_distance(n, acting, owner), kind_index(kind))
}

pub open spec fn key_lt(a: (int, int, int), b: (int, int, int)) -> bool {
    a.0 < b.0 || (a.0 == b.0 && (a.1 < b.1 || (a.1 == b.1 && a.2 < b.2)))
}

pub open spec fn entry_key(n: int, acting: int, e: PlayerCardStack) -> (int, int, int) {
    resolve_key(n, acting, e.owner_turn as int, e.card.kind)
}

/// Player `owner` holds a stack of `kind` that fires on this roll.
pub open spec fn is_activation(
    players: Seq<Player>,
    roll: int,
    acting: int,
    owner: int,
    kind: CardKind,
) -> bool {
    &&& 0 <= owner < players.len()
    &&& hand_count(players[owner], kind) > 0
    &&& activates(kind, roll, owner == acting)
}

/// The entry is a stack of the roster that fires on this roll.
pub open spec fn is_activation_entry(
    players: Seq<Player>,
    roll: int,
    acting: int,
    e: PlayerCardStack,
) -> bool {
    &&& is_activation(players, roll, acting, e.owner_turn as int, e.card.kind)
    &&& e.card == players[e.owner_turn as int].cards@[kind_index(e.card.kind)]
}

/// The entries are strictly ordered by their resolution key.
pub open spec fn resolution_ordered(n: int, acting: int, entries: Seq<PlayerCardStack>) -> bool {
    forall|a: int, b: int|
        0 <= a < b < entries.len() ==> key_lt(
            #[trigger] entry_key(n, acting, entries[a]),
            #[trigger] entry_key(n, acting, entries[b]),
        )
}

/// The stacks that fire for `roll_total` when `player_turn` rolled, in the
/// order in which they resolve: Restaurants, then Secondary Industry, then
/// Primary Industry, then Major Establishments; within a class from the
/// player just before the roller backwards round to the roller; within a
/// player in catalog order.
pub fn get_activatable_cards(roll_total: u8, player_turn: usize, players: &Vec<Player>) -> (r: Vec<
    PlayerCardStack,
>)
    requires
        players_wf(players@),
        player_turn < players@.len(),
    ensures
        forall|j: int|
            0 <= j < r@.len() ==> is_activation_entry(
                players@,
                roll_total as int,
                player_turn as int,
                #[trigger] r@[j],
            ),
        forall|owner: int, kind: CardKind|
            is_activation(players@, roll_total as int, player_turn as int, owner, kind) ==> exists|
                j: int,
            |
                0 <= j < r@.len() && #[trigger] r@[j].owner_turn == owner && r@[j].card.kind == kind,
        resolution_ordered(players@.len() as int, player_turn as int, r@),
{
    let n = players.len();
    let ghost ps = players@;
    let ghost acting = player_turn as int;
    let mut activatable_cards: Vec<PlayerCardStack> = Vec::new();
    let mut class: u8 = 0;
    while class < 4
        invariant
            class <= 4,
            n == ps.len(),
            ps == players@,
            players_wf(ps),
            acting == player_turn,
            player_turn < n,
            forall|j: int|
                0 <= j < activatable_cards@.len() ==> is_activation_entry(
                    ps,
                    roll_total as int,
                    acting,
                    #[trigger] activatable_cards@[j],
                ),
            resolution_ordered(n as int, acting, activatable_cards@),
            forall|j: int|
                0 <= j < activatable_cards@.len() ==> key_lt(
                    #[trigger] entry_key(n as int, acting, activatable_cards@[j]),
                    (class as int, 0, 0),
                ),
            forall|owner: int, kind: CardKind|
                is_activation(ps, roll_total as int, acting, owner, kind) && key_lt(
                    resolve_key(n as int, acting, owner, kind),
                    (class as int, 0, 0),
                ) ==> exists|j: int|
                    0 <= j < activatable_cards@.len() && #[trigger] activatable_cards@[j].owner_turn
                        == owner && activatable_cards@[j].card.kind == kind,
        decreases 4 - class,
    {
        let mut step: usize = 0;
        while step < n
            invariant
                class < 4,
                step <= n,
                n == ps.len(),
                ps == players@,
                players_wf(ps),
                acting == player_turn,
                player_turn < n,
                forall|j: int|
                    0 <= j < activatable_cards@.len() ==> is_activation_entry(
                        ps,
                        roll_total as int,
                        acting,
                        #[trigger] activatable_cards@[j],
                    ),
                resolution_ordered(n as int, acting, activatable_cards@),
                forall|j: int|
                    0 <= j < activatable_cards@.len() ==> key_lt(
                        #[trigger] entry_key(n as int, acting, activatable_cards@[j]),
                        (class as int, step as int, 0),
                    ),
                forall|owner: int, kind: CardKind|
                    is_activation(ps, roll_total as int, acting, owner, kind) && key_lt(
                        resolve_key(n as int, acting, owner, kind),
                        (class as int, step as int, 0),
                    ) ==> exists|j: int|
                        0 <= j < activatable_cards@.len() && #[trigger] activatable_cards@[j].owner_turn
                            == owner && activatable_cards@[j].card.kind == kind,
            decreases n - step,
        {
            // The seat `distance` places after the acting player.
            let distance = n - 1 - step;
            let owner = if distance < n - player_turn {
                player_turn + distance
            } else {
                distance - (n - player_turn)
            };
            assert(cyclic_distance(n as int, acting, owner as int) == distance);
            let mut i: usize = 0;
            while i < CARD_KIND_COUNT
                invariant
                    class < 4,
                    step < n,
                    i <= CARD_KIND_COUNT,
                    n == ps.len(),
                    ps == players@,
                    players_wf(ps),
                    acting == player_turn,
                    player_turn < n,
                    owner < n,
                    cyclic_distance(n as int, acting, owner as int) == n - 1 - step,
                    forall|j: int|
                        0 <= j < activatable_cards@.len() ==> is_activation_entry(
                            ps,
                            roll_total as int,
                            acting,
                            #[trigger] activatable_cards@[j],
                        ),
                    resolution_ordered(n as int, acting, activatable_cards@),
                    forall|j: int|
                        0 <= j < activatable_cards@.len() ==> key_lt(
                            #[trigger] entry_key(n as int, acting, activatable_cards@[j]),
                            (class as int, step as int, i as int),
                        ),
                    forall|o: int, kind: CardKind|
                        is_activation(ps, roll_total as int, acting, o, kind) && key_lt(
                            resolve_key(n as int, acting, o, kind),
                            (class as int, step as int, i as int),
                        ) ==> exists|j: int|
                            0 <= j < activatable_cards@.len() && #[trigger] activatable_cards@[j].owner_turn
                                == o && activatable_cards@[j].card.kind == kind,
                decreases CARD_KIND_COUNT - i,
            {
                let card = players[owner].cards[i];
                proof {
                    crate::cards::lemma_kind_index_bijective();
                }
                assert(card.kind == kind_at(i as int));
                if card.get_order().rank() == class && card.count > 0 && card.test_activation(
                    roll_total,
                    owner == player_turn,
                ) {
                    let entry = PlayerCardStack { owner_turn: owner, card };
                    let ghost before = activatable_cards@;
                    activatable_cards.push(entry);
                    assert(entry_key(n as int, acting, entry) == (class as int, step as int, i as int));
                    assert forall|a: int, b: int|
                        0 <= a < b < activatable_cards@.len() implies key_lt(
                        #[trigger] entry_key(n as int, acting, activatable_cards@[a]),
                        #[trigger] entry_key(n as int, acting, activatable_cards@[b]),
                    ) by {
                        if b < before.len() {
                            assert(activatable_cards@[a] == before[a]);
                            assert(activatable_cards@[b] == before[b]);
                        } else {
                            assert(activatable_cards@[a] == before[a]);
                        }
                    }
                    assert forall|o: int, kind: CardKind|
                        is_activation(ps, roll_total as int, acting, o, kind) && key_lt(
                            resolve_key(n as int, acting, o, kind),
                            (class as int, step as int, i + 1),
                        ) implies exists|j: int|
                        0 <= j < activatable_cards@.len() && #[trigger] activatable_cards@[j].owner_turn
                            == o && activatable_cards@[j].card.kind == kind by {
                        if key_lt(resolve_key(n as int, acting, o, kind), (class as int, step as int, i as int)) {
                            let j = choose|j: int|
                                0 <= j < before.len() && #[trigger] before[j].owner_turn == o
                                    && before[j].card.kind == kind;
                            assert(activatable_cards@[j] == before[j]);
                        } else {
                            assert(o == owner);
                            assert(kind == card.kind);
                            assert(activatable_cards@[before.len() as int] == entry);
                        }
                    }
                } else {
                    assert forall|o: int, kind: CardKind|
                        is_activation(ps, roll_total as int, acting, o, kind) && key_lt(
                            resolve_key(n as int, acting, o, kind),
                            (class as int, step as int, i + 1),
                        ) implies exists|j: int|
                        0 <= j < activatable_cards@.len() && #[trigger] activatable_cards@[j].owner_turn
                            == o && activatable_cards@[j].card.kind == kind by {
                        if !key_lt(resolve_key(n as int, acting, o, kind), (class as int, step as int, i as int)) {
                            assert(o == owner);
                            assert(kind == card.kind);
                        }
                    }
                }
                i += 1;
            }
            step += 1;
        }
        class += 1;
    }
    activatable_cards
}

/// The faces shown by one die and, when two were rolled, by the second.
pub type DiceRoll = (u8, Option<u8>);

/// Each face shown lies in `1..=6`.
pub open spec fn dice_roll_valid(roll: DiceRoll) -> bool {
    &&& 1 <= roll.0 <= 6
    &&& match roll.1 {
        Some(second) => 1 <= second <= 6,
        None => true,
    }
}

/// The dice total: the second die counts as 0 when it was not rolled.
pub open spec fn spec_roll_total(roll: DiceRoll) -> int {
    roll.0 + match roll.1 {
        Some(second) => second as int,
        None => 0,
    }
}

/// Rolls one die, or two when asked to.
pub fn roll_dice(roll_two_dice: bool) -> (r: DiceRoll)
    ensures
        dice_roll_valid(r),
        r.1 is Some <==> roll_two_dice,
{
    let first = (crate::chance::random_below(6) + 1) as u8;
    let second = if roll_two_dice {
        Some((crate::chance::random_below(6) + 1) as u8)
    } else {
        None
    };
    (first, second)
}

pub fn roll_total(roll: DiceRoll) -> (r: u8)
    requires
        dice_roll_valid(roll),
    ensures
        r as int == spec_roll_total(roll),
{
    match roll.1 {
        Some(second) => roll.0 + second,
        None => roll.0,
    }
}

/// Which rule, if any, a purchase decision would break.
pub open spec fn purchase_violation(
    player: Player,
    market: Deck,
    decision: Option<(Option<CardKind>, Option<LandmarkKind>)>,
) -> Option<RuleViolation> {
    match decision {
        None => None,
        Some((Some(kind), None)) => card_purchase_violation(player, market, kind),
        Some((None, Some(landmark))) => landmark_purchase_violation(player, landmark),
        Some(_) => Some(RuleViolation::MalformedPurchase),
    }
}

/// Carries out a purchase decision: nothing, one card from the market, or one
/// landmark. A decision that the rules refuse changes nothing.
pub fn apply_purchase(
    players: &mut Vec<Player>,
    player_turn: usize,
    card_deck: &mut Deck,
    decision: Option<(Option<CardKind>, Option<LandmarkKind>)>,
) -> (r: Result<(), RuleViolation>)
    requires
        player_turn < old(players)@.len(),
        players_wf(old(players)@),
        deck_wf(*old(card_deck)),
    ensures
        players_wf(final(players)@),
        deck_wf(*final(card_deck)),
        match purchase_violation(old(players)@[player_turn as int], *old(card_deck), decision) {
            Some(e) => {
                &&& r == Err::<(), RuleViolation>(e)
                &&& final(players)@ == old(players)@
                &&& *final(card_deck) == *old(card_deck)
            },
            None => {
                &&& r is Ok
                &&& match decision {
                    Some((Some(kind), _)) => card_bought(
                        old(players)@,
                        *old(card_deck),
                        final(players)@,
                        *final(card_deck),
                        player_turn as int,
                        kind,
                    ),
                    Some((None, Some(landmark))) => {
                        &&& landmark_bought(old(players)@, final(players)@, player_turn as int, landmark)
                        &&& *final(card_deck) == *old(card_deck)
                    },
                    _ => final(players)@ == old(players)@ && *final(card_deck) == *old(card_deck),
                }
            },
        },
{
    match decision {
        None => Ok(()),
        Some((Some(kind), None)) => match check_card_purchase(&players[player_turn], card_deck, kind) {
            Some(e) => Err(e),
            None => {
                buy_card_from_deck(players, player_turn, card_deck, kind);
                Ok(())
            },
        },
        Some((None, Some(landmark))) => match check_landmark_purchase(&players[player_turn], landmark) {
            Some(e) => Err(e),
            None => {
                buy_landmark(players, player_turn, landmark);
                Ok(())
            },
        },
        Some(_) => Err(RuleViolation::MalformedPurchase),
    }
}

/// Coins held by the first `k` players.
pub open spec fn coin_sum(players: Seq<Player>, k: int) -> int
    decreases k,
{
    if k <= 0 {
        0
    } else {
        coin_sum(players, k - 1) + players[k - 1].coins
    }
}

/// Coins held by the whole roster.
pub open spec fn total_coins(players: Seq<Player>) -> int {
    coin_sum(players, players.len() as int)
}

proof fn lemma_coin_sum_update(players: Seq<Player>, i: int, p: Player, k: int)
    requires
        0 <= i < players.len(),
        0 <= k <= players.len(),
    ensures
        coin_sum(players.update(i, p), k) == coin_sum(players, k) + if i < k {
            p.coins - players[i].coins
        } else {
            0
        },
    decreases k,
{
    if k > 0 {
        lemma_coin_sum_update(players, i, p, k - 1);
    }
}

/// Stealing moves coins without creating or destroying any, unless the
/// receiver hits the 8-bit cap: the total of all coins is unchanged exactly
/// when giver and receiver are the same player or the receiver's new purse
/// does not pass 255.
pub proof fn lemma_steal_conserves_coins(players: Seq<Player>, from: int, to: int, amount: int)
    requires
        0 <= from < players.len(),
        0 <= to < players.len(),
        amount >= 0,
    ensures
        ({
            let moved = taken(players[from].coins as int, amount);
            total_coins(steal_result(players, from, to, moved)) == total_coins(players) <==> (from
                == to || players[to].coins + moved <= 255)
        }),
{
    let moved = taken(players[from].coins as int, amount);
    let after_take = players.update(
        from,
        with_coins(players[from], (players[from].coins - moved) as u8),
    );
    lemma_coin_sum_update(
        players,
        from,
        with_coins(players[from], (players[from].coins - moved) as u8),
        players.len() as int,
    );
    lemma_coin_sum_update(
        after_take,
        to,
        with_coins(after_take[to], sat_add(after_take[to].coins as int, moved) as u8),
        players.len() as int,
    );
}

proof fn lemma_steal_from_all_sum(players: Seq<Player>, to: int, amount: int, n: int, k: int)
    requires
        0 <= to < players.len(),
        0 <= n <= players.len(),
        0 <= k <= players.len(),
        amount >= 0,
    ensures
        coin_sum(steal_from_all_result(players, to, amount, n), k) == coin_sum(players, k)
            - stolen_total(players, to, amount, if k < n {
            k
        } else {
            n
        }) + if to < k {
            coins_after_steal_from_all(players, to, amount, n, to) - players[to].coins
        } else {
            0
        },
    decreases k,
{
    if k > 0 {
        lemma_steal_from_all_sum(players, to, amount, n, k - 1);
    }
}

/// `steal_coins_from_all` conserves the total of all coins exactly when the
/// receiver's purse does not pass the 8-bit cap.
pub proof fn lemma_steal_from_all_conserves_coins(
    players: Seq<Player>,
    to: int,
    amount: int,
    player_count: int,
)
    requires
        0 <= to < players.len(),
        0 <= player_count <= players.len(),
        amount >= 0,
    ensures
        total_coins(steal_from_all_result(players, to, amount, player_count)) == total_coins(players)
            <==> players[to].coins + stolen_total(players, to, amount, player_count) <= 255,
{
    lemma_steal_from_all_sum(players, to, amount, player_count, players.len() as int);
    lemma_stolen_total_nonnegative(players, to, amount, player_count);
}

proof fn lemma_stolen_total_nonnegative(players: Seq<Player>, to: int, amount: int, n: int)
    requires
        amount >= 0,
        n <= players.len(),
    ensures
        stolen_total(players, to, amount, n) >= 0,
    decreases n,
{
    if n > 0 {
        lemma_stolen_total_nonnegative(players, to, amount, n - 1);
    }
}

/// A player without coins gives nothing: `take` removes 0 coins from them,
/// and stealing from them moves 0 coins and leaves every purse as it was.
pub proof fn lemma_empty_purse_gives_nothing(players: Seq<Player>, from: int, to: int, amount: int)
    requires
        0 <= from < players.len(),
        0 <= to < players.len(),
        players[from].coins == 0,
        amount >= 0,
    ensures
        taken(players[from].coins as int, amount) == 0,
        steal_result(players, from, to, 0) =~= players,
{
    let after_take = players.update(from, with_coins(players[from], (players[from].coins - 0) as u8));
    assert(with_coins(players[from], players[from].coins) == players[from]);
    assert(after_take =~= players);
    assert(with_coins(players[to], players[to].coins) == players[to]);
}

/// In a list ordered for resolution the classes never go down; within one
/// class the owners run backwards round the table (their distance after
/// the acting player never grows), so the acting player's own stacks of a
/// class come last.
pub proof fn lemma_resolution_order(n: int, acting: int, entries: Seq<PlayerCardStack>)
    requires
        0 <= acting < n,
        forall|j: int| 0 <= j < entries.len() ==> #[trigger] entries[j].owner_turn < n,
        resolution_ordered(n, acting, entries),
    ensures
        forall|a: int, b: int|
            0 <= a < b < entries.len() ==> order_rank(spec_order(#[trigger] entries[a].card.kind))
                <= order_rank(spec_order(#[trigger] entries[b].card.kind)),
        forall|a: int, b: int|
            0 <= a < b < entries.len() && order_rank(spec_order(entries[a].card.kind)) == order_rank(
                spec_order(entries[b].card.kind),
            ) ==> cyclic_distance(n, acting, #[trigger] entries[a].owner_turn as int)
                >= cyclic_distance(n, acting, #[trigger] entries[b].owner_turn as int),
        forall|a: int, b: int|
            0 <= a < b < entries.len() && order_rank(spec_order(entries[a].card.kind)) == order_rank(
                spec_order(entries[b].card.kind),
            ) && #[trigger] entries[a].owner_turn == acting ==> #[trigger] entries[b].owner_turn
                == acting,
{
    assert forall|a: int, b: int|
        0 <= a < b < entries.len() && order_rank(spec_order(entries[a].card.kind)) == order_rank(
            spec_order(entries[b].card.kind),
        ) && #[trigger] entries[a].owner_turn == acting implies #[trigger] entries[b].owner_turn
        == acting by {
        assert(key_lt(entry_key(n, acting, entries[a]), entry_key(n, acting, entries[b])));
    }
    assert forall|a: int, b: int|
        0 <= a < b < entries.len() && order_rank(spec_order(entries[a].card.kind)) == order_rank(
            spec_order(entries[b].card.kind),
        ) implies cyclic_distance(n, acting, #[trigger] entries[a].owner_turn as int)
        >= cyclic_distance(n, acting, #[trigger] entries[b].owner_turn as int) by {
        assert(key_lt(entry_key(n, acting, entries[a]), entry_key(n, acting, entries[b])));
    }
    assert forall|a: int, b: int|
        0 <= a < b < entries.len() implies order_rank(spec_order(#[trigger] entries[a].card.kind))
        <= order_rank(spec_order(#[trigger] entries[b].card.kind)) by {
        assert(key_lt(entry_key(n, acting, entries[a]), entry_key(n, acting, entries[b])));
    }
}

} // verus!
