use dice_valley::cards::CardKind;
use dice_valley::controller::{create_deck, create_player_deck};
use dice_valley::landmarks::LandmarkKind;
use dice_valley::player::{Actor, Deck, Player, PlayerKind};
use dice_valley::choices::{affordable_cards, affordable_landmarks, trade_partners, tradeable_cards};
use dice_valley::random::{
    buy_a_card, get_number_of_dice, get_player_to_steal_coins_from, get_trade_establishments,
    pick_purchase, pick_trade, RandomAI,
};

fn computer(turn: usize, coins: u8, counts: &[(CardKind, u8)]) -> Player {
    let mut cards: Deck = create_player_deck();
    for stack in cards.iter_mut() {
        stack.count = 0;
    }
    for (kind, count) in counts {
        cards[kind.index()].count = *count;
    }
    Player {
        name: format!("C{}", turn),
        kind: PlayerKind::RandomAI,
        turn,
        cards,
        coins,
        landmarks: Vec::new(),
    }
}

#[test]
fn steal_target_is_richest_other_lowest_turn_first() {
    let players = vec![
        computer(0, 9, &[]),
        computer(1, 4, &[]),
        computer(2, 7, &[]),
        computer(3, 7, &[]),
    ];
    assert_eq!(get_player_to_steal_coins_from(&players, 0), 2);
    assert_eq!(get_player_to_steal_coins_from(&players, 2), 0);
    let even = vec![computer(0, 1, &[]), computer(1, 1, &[]), computer(2, 1, &[])];
    assert_eq!(get_player_to_steal_coins_from(&even, 0), 1);
    assert_eq!(get_player_to_steal_coins_from(&even, 1), 0);
}

#[test]
fn computer_dice_count_is_one_or_two() {
    for _ in 0..100 {
        let n = get_number_of_dice();
        assert!(n == 1 || n == 2);
    }
}

#[test]
fn tradeable_cards_skip_major_and_empty() {
    let player = computer(
        0,
        0,
        &[(CardKind::Stadium, 1), (CardKind::Ranch, 2), (CardKind::Bakery, 1)],
    );
    assert_eq!(tradeable_cards(&player), vec![CardKind::Bakery, CardKind::Ranch]);
}

#[test]
fn trade_partners_hold_tradeable_cards() {
    let players = vec![
        computer(0, 0, &[(CardKind::Bakery, 1)]),
        computer(1, 0, &[(CardKind::TvStation, 1)]),
        computer(2, 0, &[(CardKind::Mine, 1)]),
    ];
    assert_eq!(trade_partners(&players, 0), vec![2]);
    for _ in 0..20 {
        assert_eq!(
            get_trade_establishments(&players, 0, &players[0]),
            Some((2, CardKind::Mine, CardKind::Bakery))
        );
    }
    let lonely = vec![computer(0, 0, &[(CardKind::Bakery, 1)]), computer(1, 0, &[])];
    assert_eq!(get_trade_establishments(&lonely, 0, &lonely[0]), None);
}

#[test]
fn computer_prefers_an_affordable_landmark() {
    let player = computer(0, 11, &[]);
    assert_eq!(
        affordable_landmarks(&player),
        vec![LandmarkKind::TrainStation, LandmarkKind::ShoppingMall]
    );
    let market = create_deck();
    for _ in 0..50 {
        match buy_a_card(&player, &market) {
            Some((None, Some(landmark))) => {
                assert!(landmark == LandmarkKind::TrainStation || landmark == LandmarkKind::ShoppingMall)
            }
            other => panic!("expected a landmark, got {:?}", other),
        }
    }
}

#[test]
fn computer_buys_only_affordable_stocked_cards() {
    let player = computer(0, 2, &[]);
    let mut market = create_deck();
    market[CardKind::Ranch.index()].count = 0;
    assert_eq!(
        affordable_cards(&player, &market),
        vec![CardKind::Bakery, CardKind::Cafe, CardKind::ConvenienceStore, CardKind::FruitAndVegetableMarket, CardKind::WheatField]
    );
    let mut ai = RandomAI;
    for _ in 0..50 {
        match ai.buy_a_card(&player, &market) {
            None => {}
            Some((Some(kind), None)) => {
                assert!(affordable_cards(&player, &market).contains(&kind))
            }
            other => panic!("unexpected purchase {:?}", other),
        }
    }
    let broke = computer(1, 0, &[]);
    assert_eq!(buy_a_card(&broke, &market), None);
}

#[test]
fn computer_player_methods_dispatch_on_kind() {
    let players = vec![computer(0, 1, &[]), computer(1, 6, &[])];
    let mut unused = RandomAI;
    assert_eq!(players[0].get_player_to_steal_coins_from(&players, 0, 5, &mut unused), 1);
    let dice = players[0].get_number_of_dice(&mut unused);
    assert!(dice == 1 || dice == 2);
}

#[test]
fn draws_pick_entries_round_their_lists() {
    let players = vec![
        computer(0, 0, &[(CardKind::Bakery, 1), (CardKind::Ranch, 1)]),
        computer(1, 0, &[(CardKind::Mine, 1)]),
        computer(2, 0, &[(CardKind::Forest, 1), (CardKind::WheatField, 2)]),
    ];
    assert_eq!(pick_trade(&players, 0, 0, 0, 0), Some((1, CardKind::Mine, CardKind::Bakery)));
    assert_eq!(pick_trade(&players, 0, 1, 1, 1), Some((2, CardKind::WheatField, CardKind::Ranch)));
    assert_eq!(pick_trade(&players, 0, 3, 2, 2), Some((2, CardKind::Forest, CardKind::Bakery)));
    let lonely = vec![computer(0, 0, &[]), computer(1, 0, &[(CardKind::Mine, 1)])];
    assert_eq!(pick_trade(&lonely, 0, 0, 0, 0), None);

    let market = create_deck();
    let rich = computer(0, 10, &[]);
    assert_eq!(pick_purchase(&rich, &market, 1, true, 0), Some((None, Some(LandmarkKind::ShoppingMall))));
    assert_eq!(pick_purchase(&rich, &market, 2, true, 0), Some((None, Some(LandmarkKind::TrainStation))));
    let poor = computer(0, 1, &[]);
    assert_eq!(pick_purchase(&poor, &market, 0, true, 0), None);
    assert_eq!(pick_purchase(&poor, &market, 0, false, 1), Some((Some(CardKind::Ranch), None)));
    assert_eq!(pick_purchase(&poor, &market, 0, false, 3), Some((Some(CardKind::Bakery), None)));
    let broke = computer(0, 0, &[]);
    assert_eq!(pick_purchase(&broke, &market, 0, false, 0), None);
}
