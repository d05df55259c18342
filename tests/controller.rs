use dice_valley::cards::{CardIcon, CardKind};
use dice_valley::controller::{
    award_coins_combo, buy_card_from_deck, create_deck, get_activatable_cards, steal_coins,
    steal_coins_from_all, trade_establishments,
};
use dice_valley::player::{Deck, Player, PlayerKind};

fn hand(counts: &[(CardKind, u8)]) -> Deck {
    let mut deck = dice_valley::controller::create_player_deck();
    for stack in deck.iter_mut() {
        stack.count = 0;
    }
    for (kind, count) in counts {
        deck[kind.index()].count = *count;
    }
    deck
}

fn player(turn: usize, coins: u8, cards: Deck) -> Player {
    Player {
        cards,
        name: String::from(""),
        kind: PlayerKind::Human,
        turn,
        coins,
        landmarks: Vec::new(),
    }
}

fn get_players() -> Vec<Player> {
    vec![
        player(
            0,
            1,
            hand(&[(CardKind::WheatField, 1), (CardKind::Bakery, 1), (CardKind::Mine, 2)]),
        ),
        player(
            1,
            0,
            hand(&[
                (CardKind::WheatField, 1),
                (CardKind::Bakery, 1),
                (CardKind::FamilyRestaurant, 1),
                (CardKind::Cafe, 1),
            ]),
        ),
        player(2, 3, hand(&[(CardKind::Bakery, 1), (CardKind::WheatField, 3)])),
    ]
}

#[test]
fn test_card_activation_order_primary_industry() {
    let card_activations = get_activatable_cards(9, 0, &get_players());
    assert_eq!(card_activations[0].card.kind, CardKind::FamilyRestaurant);
    assert_eq!(card_activations[0].card.count, 1);
    assert_eq!(card_activations[0].owner_turn, 1);
    assert_eq!(card_activations[1].card.kind, CardKind::Mine);
    assert_eq!(card_activations[1].card.count, 2);
    assert_eq!(card_activations[1].owner_turn, 0);
}

#[test]
fn test_card_activation_order_secondary_industry() {
    let card_activations = get_activatable_cards(3, 0, &get_players());
    assert_eq!(card_activations[0].card.kind, CardKind::Cafe);
    assert_eq!(card_activations[0].card.count, 1);
    assert_eq!(card_activations[0].owner_turn, 1);
    assert_eq!(card_activations[1].card.kind, CardKind::Bakery);
    assert_eq!(card_activations[1].card.count, 1);
    assert_eq!(card_activations[1].owner_turn, 0);
}

#[test]
fn test_steal_exact_coins() {
    let mut players = get_players();
    let total_stolen = steal_coins(&mut players, 2, 0, 3);
    assert_eq!(total_stolen, 3);
    assert_eq!(players[2].coins, 0);
    assert_eq!(players[0].coins, 4);
}

#[test]
fn test_steal_more_coins() {
    let mut players = get_players();
    let total_stolen = steal_coins(&mut players, 2, 0, 1);
    assert_eq!(total_stolen, 1);
    assert_eq!(players[2].coins, 2);
    assert_eq!(players[0].coins, 2);
}

#[test]
fn test_steal_less_coins() {
    let mut players = get_players();
    let total_stolen = steal_coins(&mut players, 0, 1, 2);
    assert_eq!(total_stolen, 1);
    assert_eq!(players[0].coins, 0);
    assert_eq!(players[1].coins, 1);
}

#[test]
fn test_steal_no_coins() {
    let mut players = get_players();
    let total_stolen = steal_coins(&mut players, 1, 0, 2);
    assert_eq!(total_stolen, 0);
    assert_eq!(players[1].coins, 0);
    assert_eq!(players[0].coins, 1);
}

#[test]
fn test_steal_coins_from_all() {
    let mut players = get_players();
    let player_count = players.iter().count();
    let total_stolen = steal_coins_from_all(&mut players, 0, player_count, 1);
    assert_eq!(total_stolen, 1);
    assert_eq!(players[0].coins, 2);
    assert_eq!(players[1].coins, 0);
    assert_eq!(players[2].coins, 2);
}

#[test]
fn test_award_coins_combo() {
    let mut players = get_players();
    let total_earned = award_coins_combo(&mut players, 2, CardIcon::Wheat, 2);
    assert_eq!(total_earned, 6);
    assert_eq!(players[2].coins, 9);
}

#[test]
fn test_trade_establishments() {
    let mut players = get_players();
    trade_establishments(
        &mut players,
        2,
        1,
        CardKind::Bakery,
        CardKind::FamilyRestaurant,
    );
    assert_eq!(players[2].cards[6].count, 1);
    assert_eq!(players[2].cards[1].count, 0);
    assert_eq!(players[1].cards[6].count, 0);
    assert_eq!(players[1].cards[1].count, 2);
}

#[test]
fn test_buy_card_from_deck() {
    let mut players = get_players();
    let mut card_deck = create_deck();
    buy_card_from_deck(&mut players, 2, &mut card_deck, CardKind::AppleOrchard);
    assert_eq!(players[2].cards[0].count, 1);
    assert_eq!(players[2].cards[0].kind, CardKind::AppleOrchard);
    assert_eq!(players[2].coins, 0);
    assert_eq!(card_deck[0].count, 5);
}

#[test]
fn test_buy_another_card_from_deck() {
    let mut players = get_players();
    let mut card_deck = create_deck();
    buy_card_from_deck(&mut players, 2, &mut card_deck, CardKind::WheatField);
    assert_eq!(players[2].cards[14].count, 4);
    assert_eq!(players[2].cards[14].kind, CardKind::WheatField);
    assert_eq!(players[2].coins, 2);
    assert_eq!(card_deck[14].count, 5);
}
