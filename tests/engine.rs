use dice_valley::cards::{CardKind, CardStack};
use dice_valley::controller::{
    apply_purchase, award_coins, buy_landmark, check_card_purchase, check_landmark_purchase,
    check_trade, create_deck, create_player_deck, get_activatable_cards, has_player_won,
    roll_dice, roll_total, steal_coins, take_coins, PlayerCardStack, RuleViolation,
};
use dice_valley::landmarks::LandmarkKind;
use dice_valley::player::{Actor, Deck, Player, PlayerKind};
use dice_valley::turn::{
    apply_activation, check_trade_answer, choose_reroll, choose_two_dice, finish_turn,
    resolve_activations, rolls_two_dice, takes_extra_turn, valid_steal_target, TurnEnd,
};

/// Answers every question the same scripted way.
struct Script {
    dice: u8,
    reroll: bool,
    trade: Option<(usize, CardKind, CardKind)>,
    target: usize,
    purchase: Option<(Option<CardKind>, Option<LandmarkKind>)>,
}

impl Actor for Script {
    fn get_number_of_dice(&mut self, _player: &Player) -> u8 {
        self.dice
    }

    fn ask_reroll(&mut self, _player: &Player) -> bool {
        self.reroll
    }

    fn get_trade_establishments(
        &mut self,
        _players: &Vec<Player>,
        _owner_turn: usize,
    ) -> Option<(usize, CardKind, CardKind)> {
        self.trade
    }

    fn get_player_to_steal_coins_from(
        &mut self,
        _players: &Vec<Player>,
        _owner_turn: usize,
        _amount: u8,
    ) -> usize {
        self.target
    }

    fn buy_a_card(
        &mut self,
        _player: &Player,
        _card_deck: &Deck,
    ) -> Option<(Option<CardKind>, Option<LandmarkKind>)> {
        self.purchase
    }
}

fn script() -> Script {
    Script { dice: 2, reroll: true, trade: None, target: 1, purchase: None }
}

fn cards_of(counts: &[(CardKind, u8)]) -> Deck {
    let mut deck = create_player_deck();
    for stack in deck.iter_mut() {
        stack.count = 0;
    }
    for (kind, count) in counts {
        deck[kind.index()].count = *count;
    }
    deck
}

fn seat(turn: usize, coins: u8, counts: &[(CardKind, u8)]) -> Player {
    Player {
        name: format!("P{}", turn),
        kind: PlayerKind::Human,
        turn,
        cards: cards_of(counts),
        coins,
        landmarks: Vec::new(),
    }
}

fn total(players: &Vec<Player>) -> u32 {
    players.iter().map(|p| p.coins as u32).sum()
}

#[test]
fn roll_nine_restaurant_before_mines() {
    let mut players = vec![
        seat(0, 3, &[(CardKind::Mine, 2)]),
        seat(1, 0, &[(CardKind::FamilyRestaurant, 1)]),
    ];
    let cards = get_activatable_cards(9, 0, &players);
    assert_eq!(
        cards,
        vec![
            PlayerCardStack {
                owner_turn: 1,
                card: CardStack { kind: CardKind::FamilyRestaurant, count: 1 }
            },
            PlayerCardStack { owner_turn: 0, card: CardStack { kind: CardKind::Mine, count: 2 } },
        ]
    );
    let mut human = script();
    assert_eq!(resolve_activations(&mut players, 0, &cards, &mut human), Ok(()));
    assert_eq!(players[1].coins, 2);
    assert_eq!(players[0].coins, 1 + 10);
}

#[test]
fn roll_three_cafes_reverse_turn_order() {
    let mut players = vec![
        seat(0, 1, &[(CardKind::Cafe, 1)]),
        seat(1, 0, &[(CardKind::Cafe, 1)]),
        seat(2, 0, &[]),
        seat(3, 0, &[(CardKind::Cafe, 1)]),
    ];
    let cards = get_activatable_cards(3, 0, &players);
    let owners: Vec<usize> = cards.iter().map(|c| c.owner_turn).collect();
    assert_eq!(owners, vec![3, 1]);
    let mut human = script();
    assert_eq!(resolve_activations(&mut players, 0, &cards, &mut human), Ok(()));
    assert_eq!(players[0].coins, 0);
    assert_eq!(players[3].coins, 1);
    assert_eq!(players[1].coins, 0);
}

#[test]
fn reverse_order_wraps_round_the_table() {
    let players = vec![
        seat(0, 5, &[(CardKind::Cafe, 1)]),
        seat(1, 5, &[]),
        seat(2, 5, &[(CardKind::Cafe, 1)]),
        seat(3, 5, &[(CardKind::Cafe, 1)]),
    ];
    let cards = get_activatable_cards(3, 1, &players);
    let owners: Vec<usize> = cards.iter().map(|c| c.owner_turn).collect();
    assert_eq!(owners, vec![0, 3, 2]);
}

#[test]
fn class_order_and_acting_player_last() {
    let players = vec![
        seat(0, 5, &[(CardKind::Bakery, 1), (CardKind::Ranch, 1)]),
        seat(1, 5, &[(CardKind::Ranch, 2)]),
        seat(2, 5, &[(CardKind::Ranch, 1), (CardKind::Bakery, 1)]),
    ];
    let cards = get_activatable_cards(2, 0, &players);
    let seen: Vec<(usize, CardKind)> = cards.iter().map(|c| (c.owner_turn, c.card.kind)).collect();
    assert_eq!(
        seen,
        vec![
            (0, CardKind::Bakery),
            (2, CardKind::Ranch),
            (1, CardKind::Ranch),
            (0, CardKind::Ranch),
        ]
    );
}

#[test]
fn saturating_steal_moves_what_is_there() {
    let mut players = vec![seat(0, 2, &[]), seat(1, 3, &[])];
    assert_eq!(steal_coins(&mut players, 0, 1, 5), 2);
    assert_eq!(players[0].coins, 0);
    assert_eq!(players[1].coins, 5);
}

#[test]
fn steal_keeps_total_unless_receiver_caps() {
    let mut players = vec![seat(0, 4, &[]), seat(1, 10, &[])];
    steal_coins(&mut players, 0, 1, 3);
    assert_eq!(total(&players), 14);
    let mut players = vec![seat(0, 4, &[]), seat(1, 254, &[])];
    assert_eq!(steal_coins(&mut players, 0, 1, 3), 3);
    assert_eq!(players[1].coins, 255);
    assert_eq!(total(&players), 256);
}

#[test]
fn award_saturates_and_take_never_underflows() {
    let mut players = vec![seat(0, 250, &[]), seat(1, 2, &[])];
    assert_eq!(award_coins(&mut players, 0, 10), 10);
    assert_eq!(players[0].coins, 255);
    assert_eq!(take_coins(&mut players, 1, 5), 2);
    assert_eq!(players[1].coins, 0);
    assert_eq!(take_coins(&mut players, 1, 5), 0);
    assert_eq!(players[1].coins, 0);
    assert_eq!(steal_coins(&mut players, 1, 0, 3), 0);
}

#[test]
fn market_combo_pays_per_wheat_card_and_per_copy() {
    let mut players = vec![
        seat(0, 0, &[(CardKind::WheatField, 2), (CardKind::AppleOrchard, 1), (CardKind::FruitAndVegetableMarket, 1)]),
        seat(1, 0, &[]),
    ];
    let cards = get_activatable_cards(11, 0, &players);
    assert_eq!(cards.len(), 1);
    let mut human = script();
    assert_eq!(apply_activation(&mut players, 0, cards[0], &mut human), Ok(()));
    assert_eq!(players[0].coins, 6);
    players[0].cards[CardKind::FruitAndVegetableMarket.index()].count = 2;
    players[0].coins = 0;
    let cards = get_activatable_cards(12, 0, &players);
    assert_eq!(apply_activation(&mut players, 0, cards[0], &mut human), Ok(()));
    assert_eq!(players[0].coins, 12);
}

#[test]
fn cheese_and_furniture_factories() {
    let mut players = vec![
        seat(0, 0, &[(CardKind::Ranch, 2), (CardKind::CheeseFactory, 1)]),
        seat(1, 0, &[]),
    ];
    let mut human = script();
    let cards = get_activatable_cards(7, 0, &players);
    assert_eq!(resolve_activations(&mut players, 0, &cards, &mut human), Ok(()));
    assert_eq!(players[0].coins, 6);
    let mut players = vec![
        seat(0, 0, &[(CardKind::Forest, 1), (CardKind::Mine, 1), (CardKind::FurnitureFactory, 1)]),
        seat(1, 0, &[]),
    ];
    let cards = get_activatable_cards(8, 0, &players);
    assert_eq!(resolve_activations(&mut players, 0, &cards, &mut human), Ok(()));
    assert_eq!(players[0].coins, 6);
}

#[test]
fn shopping_mall_adds_to_bread_and_cup() {
    let mut players = vec![
        seat(0, 0, &[(CardKind::Bakery, 2)]),
        seat(1, 5, &[(CardKind::Cafe, 1)]),
    ];
    players[0].landmarks.push(LandmarkKind::ShoppingMall);
    let mut human = script();
    let cards = get_activatable_cards(2, 0, &players);
    assert_eq!(resolve_activations(&mut players, 0, &cards, &mut human), Ok(()));
    assert_eq!(players[0].coins, 4);
    players[1].landmarks.push(LandmarkKind::ShoppingMall);
    let cards = get_activatable_cards(3, 0, &players);
    assert_eq!(resolve_activations(&mut players, 0, &cards, &mut human), Ok(()));
    assert_eq!(players[1].coins, 7);
    assert_eq!(players[0].coins, 4 - 2 + 4);
}

#[test]
fn stadium_takes_two_from_everyone_else() {
    let mut players = vec![
        seat(0, 1, &[]),
        seat(1, 0, &[(CardKind::Stadium, 1)]),
        seat(2, 5, &[]),
    ];
    let mut human = script();
    let cards = get_activatable_cards(6, 1, &players);
    assert_eq!(resolve_activations(&mut players, 1, &cards, &mut human), Ok(()));
    assert_eq!(players[0].coins, 0);
    assert_eq!(players[1].coins, 3);
    assert_eq!(players[2].coins, 3);
}

#[test]
fn tv_station_takes_from_the_chosen_player() {
    let mut players = vec![
        seat(0, 0, &[(CardKind::TvStation, 1)]),
        seat(1, 9, &[]),
        seat(2, 3, &[]),
    ];
    let mut human = script();
    human.target = 2;
    let cards = get_activatable_cards(6, 0, &players);
    assert_eq!(resolve_activations(&mut players, 0, &cards, &mut human), Ok(()));
    assert_eq!(players[0].coins, 3);
    assert_eq!(players[2].coins, 0);
    assert_eq!(players[1].coins, 9);
    human.target = 0;
    assert_eq!(
        resolve_activations(&mut players, 0, &cards, &mut human),
        Err(RuleViolation::InvalidPlayer)
    );
    human.target = 7;
    assert_eq!(
        resolve_activations(&mut players, 0, &cards, &mut human),
        Err(RuleViolation::InvalidPlayer)
    );
}

#[test]
fn business_center_trades_the_chosen_cards() {
    let mut players = vec![
        seat(0, 0, &[(CardKind::BusinessCenter, 1), (CardKind::WheatField, 1)]),
        seat(1, 0, &[(CardKind::Mine, 1)]),
    ];
    let mut human = script();
    human.trade = Some((1, CardKind::Mine, CardKind::WheatField));
    let cards = get_activatable_cards(6, 0, &players);
    assert_eq!(resolve_activations(&mut players, 0, &cards, &mut human), Ok(()));
    assert_eq!(players[0].cards[CardKind::Mine.index()].count, 1);
    assert_eq!(players[0].cards[CardKind::WheatField.index()].count, 0);
    assert_eq!(players[1].cards[CardKind::WheatField.index()].count, 1);
    assert_eq!(players[1].cards[CardKind::Mine.index()].count, 0);
    human.trade = Some((1, CardKind::WheatField, CardKind::BusinessCenter));
    assert_eq!(
        resolve_activations(&mut players, 0, &cards, &mut human),
        Err(RuleViolation::MajorTrade)
    );
}

#[test]
fn trade_refuses_major_cards() {
    let players = vec![
        seat(0, 0, &[(CardKind::BusinessCenter, 1)]),
        seat(1, 0, &[(CardKind::WheatField, 1)]),
    ];
    assert_eq!(
        check_trade(&players, 0, 1, CardKind::BusinessCenter, CardKind::WheatField),
        Some(RuleViolation::MajorTrade)
    );
    assert_eq!(
        check_trade(&players, 1, 0, CardKind::WheatField, CardKind::BusinessCenter),
        Some(RuleViolation::MajorTrade)
    );
}

#[test]
fn trade_refuses_self_and_missing_cards() {
    let players = vec![
        seat(0, 0, &[(CardKind::Bakery, 1)]),
        seat(1, 0, &[(CardKind::WheatField, 1)]),
    ];
    assert_eq!(
        check_trade(&players, 0, 0, CardKind::Bakery, CardKind::Bakery),
        Some(RuleViolation::SelfTrade)
    );
    assert_eq!(
        check_trade(&players, 0, 1, CardKind::Ranch, CardKind::WheatField),
        Some(RuleViolation::CardNotOwned)
    );
    assert_eq!(
        check_trade(&players, 0, 1, CardKind::Bakery, CardKind::Ranch),
        Some(RuleViolation::CardNotOwned)
    );
    assert_eq!(check_trade(&players, 0, 1, CardKind::Bakery, CardKind::WheatField), None);
    assert_eq!(
        check_trade_answer(&players, 0, 5, CardKind::WheatField, CardKind::Bakery),
        Some(RuleViolation::InvalidPlayer)
    );
    assert_eq!(check_trade_answer(&players, 0, 1, CardKind::WheatField, CardKind::Bakery), None);
}

#[test]
fn steal_targets_must_be_other_players() {
    let players = vec![seat(0, 0, &[]), seat(1, 0, &[]), seat(2, 0, &[])];
    assert!(valid_steal_target(&players, 0, 2));
    assert!(!valid_steal_target(&players, 0, 0));
    assert!(!valid_steal_target(&players, 0, 3));
}

#[test]
fn buying_refuses_empty_stock_and_short_purse() {
    let mut players = vec![seat(0, 3, &[]), seat(1, 0, &[])];
    let mut market = create_deck();
    market[CardKind::Ranch.index()].count = 0;
    assert_eq!(
        check_card_purchase(&players[0], &market, CardKind::Ranch),
        Some(RuleViolation::OutOfStock)
    );
    assert_eq!(
        check_card_purchase(&players[0], &market, CardKind::Mine),
        Some(RuleViolation::NotEnoughCoins)
    );
    assert_eq!(check_card_purchase(&players[0], &market, CardKind::Forest), None);
    assert_eq!(
        apply_purchase(&mut players, 0, &mut market, Some((Some(CardKind::Ranch), None))),
        Err(RuleViolation::OutOfStock)
    );
    assert_eq!(
        apply_purchase(&mut players, 0, &mut market, Some((Some(CardKind::Mine), None))),
        Err(RuleViolation::NotEnoughCoins)
    );
    assert_eq!(players[0].coins, 3);
    assert_eq!(market[CardKind::Mine.index()].count, 6);
}

#[test]
fn landmarks_cost_coins_and_are_built_once() {
    let mut players = vec![seat(0, 20, &[]), seat(1, 0, &[])];
    assert_eq!(check_landmark_purchase(&players[0], LandmarkKind::TrainStation), None);
    buy_landmark(&mut players, 0, LandmarkKind::TrainStation);
    assert_eq!(players[0].coins, 16);
    assert_eq!(players[0].landmarks, vec![LandmarkKind::TrainStation]);
    assert_eq!(
        check_landmark_purchase(&players[0], LandmarkKind::TrainStation),
        Some(RuleViolation::LandmarkOwned)
    );
    assert_eq!(
        check_landmark_purchase(&players[0], LandmarkKind::RadioTower),
        Some(RuleViolation::NotEnoughCoins)
    );
    assert_eq!(
        apply_purchase(&mut players, 0, &mut create_deck(), Some((None, Some(LandmarkKind::TrainStation)))),
        Err(RuleViolation::LandmarkOwned)
    );
    assert_eq!(players[0].coins, 16);
}

#[test]
fn human_answers_are_kept_within_the_rules() {
    let players = vec![seat(0, 3, &[]), seat(1, 0, &[])];
    let market = create_deck();
    let mut human = script();
    human.purchase = Some((Some(CardKind::Mine), None));
    assert_eq!(players[0].buy_a_card(&market, &mut human), None);
    human.purchase = Some((Some(CardKind::Forest), Some(LandmarkKind::TrainStation)));
    assert_eq!(players[0].buy_a_card(&market, &mut human), None);
    human.purchase = Some((Some(CardKind::Forest), None));
    assert_eq!(players[0].buy_a_card(&market, &mut human), Some((Some(CardKind::Forest), None)));
    human.dice = 7;
    assert_eq!(players[0].get_number_of_dice(&mut human), 1);
    human.dice = 2;
    assert_eq!(players[0].get_number_of_dice(&mut human), 2);
}

#[test]
fn purchase_decisions_are_carried_out() {
    let mut players = vec![seat(0, 12, &[]), seat(1, 0, &[])];
    let mut market = create_deck();
    assert_eq!(apply_purchase(&mut players, 0, &mut market, None), Ok(()));
    assert_eq!(players[0].coins, 12);
    assert_eq!(
        apply_purchase(&mut players, 0, &mut market, Some((None, None))),
        Err(RuleViolation::MalformedPurchase)
    );
    assert_eq!(
        apply_purchase(
            &mut players,
            0,
            &mut market,
            Some((Some(CardKind::Cafe), Some(LandmarkKind::TrainStation)))
        ),
        Err(RuleViolation::MalformedPurchase)
    );
    assert_eq!(
        apply_purchase(&mut players, 0, &mut market, Some((Some(CardKind::Cafe), None))),
        Ok(())
    );
    assert_eq!(players[0].coins, 10);
    assert_eq!(players[0].cards[CardKind::Cafe.index()].count, 1);
    assert_eq!(market[CardKind::Cafe.index()].count, 5);
    assert_eq!(
        apply_purchase(&mut players, 0, &mut market, Some((None, Some(LandmarkKind::ShoppingMall)))),
        Ok(())
    );
    assert_eq!(players[0].coins, 0);
    assert_eq!(players[0].landmarks, vec![LandmarkKind::ShoppingMall]);
}

#[test]
fn all_four_landmarks_win_and_end_the_game() {
    let mut players = vec![seat(0, 0, &[]), seat(1, 0, &[])];
    players[1].landmarks = vec![
        LandmarkKind::TrainStation,
        LandmarkKind::ShoppingMall,
        LandmarkKind::AmusementPark,
    ];
    assert!(!has_player_won(&players[1]));
    players[1].landmarks.push(LandmarkKind::RadioTower);
    assert!(has_player_won(&players[1]));
    assert_eq!(finish_turn(&players, 1, (4, Some(4))), TurnEnd::Won);
    assert_eq!(finish_turn(&players, 0, (4, None)), TurnEnd::Next(1));
}

#[test]
fn turns_advance_round_the_table() {
    let players = vec![seat(0, 0, &[]), seat(1, 0, &[]), seat(2, 0, &[])];
    assert_eq!(finish_turn(&players, 0, (3, None)), TurnEnd::Next(1));
    assert_eq!(finish_turn(&players, 2, (3, None)), TurnEnd::Next(0));
}

#[test]
fn amusement_park_needs_real_doubles() {
    let mut player = seat(0, 0, &[]);
    assert!(!takes_extra_turn(&player, (5, Some(5))));
    player.landmarks.push(LandmarkKind::AmusementPark);
    assert!(takes_extra_turn(&player, (5, Some(5))));
    assert!(!takes_extra_turn(&player, (5, Some(4))));
    assert!(!takes_extra_turn(&player, (5, None)));
    let players = vec![player, seat(1, 0, &[])];
    assert_eq!(finish_turn(&players, 0, (2, Some(2))), TurnEnd::ExtraTurn);
    assert_eq!(finish_turn(&players, 0, (2, None)), TurnEnd::Next(1));
}

#[test]
fn two_dice_need_a_train_station() {
    let mut player = seat(0, 0, &[]);
    let mut human = script();
    assert!(!rolls_two_dice(&player, 2));
    assert!(!choose_two_dice(&player, &mut human));
    assert!(!choose_reroll(&player, &mut human));
    player.landmarks.push(LandmarkKind::TrainStation);
    player.landmarks.push(LandmarkKind::RadioTower);
    assert!(rolls_two_dice(&player, 2));
    assert!(!rolls_two_dice(&player, 1));
    assert!(choose_two_dice(&player, &mut human));
    assert!(choose_reroll(&player, &mut human));
    human.dice = 1;
    assert!(!choose_two_dice(&player, &mut human));
}

#[test]
fn dice_show_faces_one_to_six() {
    for _ in 0..200 {
        let (first, second) = roll_dice(true);
        assert!((1..=6).contains(&first));
        let second = second.unwrap();
        assert!((1..=6).contains(&second));
        assert_eq!(roll_total((first, Some(second))), first + second);
        let (single, none) = roll_dice(false);
        assert!((1..=6).contains(&single));
        assert_eq!(none, None);
    }
    assert_eq!(roll_total((6, Some(6))), 12);
    assert_eq!(roll_total((4, None)), 4);
}
