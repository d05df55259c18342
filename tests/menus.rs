use dice_valley::cards::{CardKind, CardStack};
use dice_valley::choices::{
    activated_kinds, other_players, purchase_option, unbuilt_landmarks, MenuError,
};
use dice_valley::controller::{create_deck, PlayerCardStack};
use dice_valley::landmarks::LandmarkKind;
use dice_valley::player::{Player, PlayerKind};

#[test]
fn new_players_start_with_wheat_and_bakery() {
    let player = Player::new(2, String::from("Bo"), PlayerKind::RandomAI);
    assert_eq!(player.turn, 2);
    assert_eq!(player.name, "Bo");
    assert_eq!(player.coins, 0);
    assert!(player.landmarks.is_empty());
    assert_eq!(player.card_count(CardKind::WheatField), 1);
    assert_eq!(player.card_count(CardKind::Bakery), 1);
    assert_eq!(player.card_count(CardKind::Mine), 0);
}

#[test]
fn other_players_skip_the_excluded_turn() {
    let players: Vec<Player> =
        (0..4).map(|t| Player::new(t, format!("P{}", t), PlayerKind::Human)).collect();
    assert_eq!(other_players(&players, 2), vec![0, 1, 3]);
    assert_eq!(other_players(&players, 0), vec![1, 2, 3]);
}

#[test]
fn purchase_menu_maps_numbers_to_choices() {
    let mut player = Player::new(0, String::from("Al"), PlayerKind::Human);
    player.coins = 5;
    player.landmarks.push(LandmarkKind::TrainStation);
    let mut market = create_deck();
    market[CardKind::Cafe.index()].count = 0;
    assert_eq!(
        unbuilt_landmarks(&player),
        vec![LandmarkKind::ShoppingMall, LandmarkKind::AmusementPark, LandmarkKind::RadioTower]
    );
    assert_eq!(purchase_option(&player, &market, 0), Ok((Some(CardKind::AppleOrchard), None)));
    assert_eq!(purchase_option(&player, &market, 3), Err(MenuError::SoldOut));
    assert_eq!(purchase_option(&player, &market, 10), Err(MenuError::TooExpensive));
    assert_eq!(purchase_option(&player, &market, 15), Err(MenuError::TooExpensive));
    assert_eq!(purchase_option(&player, &market, 18), Err(MenuError::NoSuchOption));
    player.coins = 10;
    assert_eq!(
        purchase_option(&player, &market, 15),
        Ok((None, Some(LandmarkKind::ShoppingMall)))
    );
}

#[test]
fn activated_kinds_are_distinct_in_catalog_order() {
    let entry = |owner_turn: usize, kind: CardKind| PlayerCardStack {
        owner_turn,
        card: CardStack { kind, count: 1 },
    };
    let cards = vec![
        entry(1, CardKind::Cafe),
        entry(2, CardKind::Cafe),
        entry(0, CardKind::Bakery),
        entry(0, CardKind::WheatField),
        entry(2, CardKind::WheatField),
    ];
    assert_eq!(
        activated_kinds(&cards),
        vec![CardKind::Bakery, CardKind::Cafe, CardKind::WheatField]
    );
    assert!(activated_kinds(&Vec::new()).is_empty());
}
