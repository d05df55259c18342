use vstd::prelude::*;

use crate::cards::{kind_at, kind_index, CardKind, CardStack, CARD_KIND_COUNT};
use crate::controller::{
    card_purchase_violation, check_card_purchase, check_landmark_purchase, create_player_deck,
    hand_start_count, landmark_purchase_violation, purchase_violation,
};
use crate::landmarks::LandmarkKind;
use crate::random::{computer_purchase, computer_trade, richest_other, RandomAI};

verus! {

/// A hand or a market: one stack per establishment kind, in catalog order.
pub type Deck = [CardStack; CARD_KIND_COUNT];

/// Which decision-maker sits behind a player.
#[derive(Clone, Copy, Debug, PartialEq, Eq, Structural)]
pub enum PlayerKind {
    RandomAI,
    Human,
}

#[derive(Clone, Debug)]
pub struct Player {
    pub name: String,
    pub kind: PlayerKind,
    pub turn: usize,
    pub cards: Deck,
    pub coins: u8,
    pub landmarks: Vec<LandmarkKind>,
}

/// Every kind sits at its own catalog position.
pub open spec fn deck_wf(d: Deck) -> bool {
    forall|i: int| 0 <= i < CARD_KIND_COUNT ==> (#[trigger] d@[i]).kind == kind_at(i)
}

/// How many cards of `kind` a deck holds.
pub open spec fn deck_count(d: Deck, kind: CardKind) -> u8 {
    d@[kind_index(kind)].count
}

/// How many cards of `kind` a player holds.
pub open spec fn hand_count(p: Player, kind: CardKind) -> u8 {
    deck_count(p.cards, kind)
}

pub open spec fn owns_landmark(p: Player, landmark: LandmarkKind) -> bool {
    p.landmarks@.contains(landmark)
}

/// A player's own invariant: a well-formed hand and no landmark twice.
pub open spec fn player_wf(p: Player) -> bool {
    &&& deck_wf(p.cards)
    &&& p.landmarks@.no_duplicates()
}

/// A roster: each player sits at the position given by its turn.
pub open spec fn players_wf(players: Seq<Player>) -> bool {
    forall|i: int| 0 <= i < players.len() ==> {
        &&& (#[trigger] players[i]).turn == i
        &&& player_wf(players[i])
    }
}

/// The player with only its coins replaced.
pub open spec fn with_coins(p: Player, coins: u8) -> Player {
    Player { coins, ..p }
}

/// `q` is `p` with the stack of `kind` holding `count` cards.
pub open spec fn with_count(p: Player, q: Player, kind: CardKind, count: u8) -> bool {
    &&& q.name == p.name
    &&& q.kind == p.kind
    &&& q.turn == p.turn
    &&& q.coins == p.coins
    &&& q.landmarks == p.landmarks
    &&& q.cards@ == p.cards@.update(kind_index(kind), CardStack { kind, count })
}

/// `q` is `p` with one more landmark.
pub open spec fn with_landmark(p: Player, q: Player, landmark: LandmarkKind) -> bool {
    &&& q.name == p.name
    &&& q.kind == p.kind
    &&& q.turn == p.turn
    &&& q.coins == p.coins
    &&& q.cards == p.cards
    &&& q.landmarks@ == p.landmarks@.push(landmark)
}

/// The decisions a player makes during a turn. Whoever implements it (a
/// console prompt, a script, the computer player) only answers; the turn
/// engine checks each answer against the rules before it acts on it.
pub trait Actor {
    /// One or two dice; asked only of a player with a Train Station.
    fn get_number_of_dice(&mut self, player: &Player) -> u8;

    /// Whether to roll again; asked only of a player with a Radio Tower.
    fn ask_reroll(&mut self, player: &Player) -> bool;

    /// For a Business Center of `owner_turn`: the other player, the card to
    /// take from them and the card to give them; `None` when no trade is
    /// possible.
    fn get_trade_establishments(&mut self, players: &Vec<Player>, owner_turn: usize) -> Option<
        (usize, CardKind, CardKind),
    >
        requires
            players_wf(players@),
            owner_turn < players@.len(),
    ;

    /// For a TV Station of `owner_turn`: the player to take `amount` coins
    /// from.
    fn get_player_to_steal_coins_from(
        &mut self,
        players: &Vec<Player>,
        owner_turn: usize,
        amount: u8,
    ) -> usize
        requires
            players_wf(players@),
            owner_turn < players@.len(),
            players@.len() >= 2,
    ;

    /// A card of the market, a landmark, or nothing.
    fn buy_a_card(&mut self, player: &Player, card_deck: &Deck) -> Option<
        (Option<CardKind>, Option<LandmarkKind>),
    >
        requires
            deck_wf(*card_deck),
    ;
}

impl Player {
    /// A player at the start of a game: the starting hand, no coins and no
    /// landmarks.
    pub fn new(turn: usize, name: String, kind: PlayerKind) -> (r: Player)
        ensures
            r.turn == turn,
            r.name == name,
            r.kind == kind,
            r.coins == 0,
            r.landmarks@ == Seq::<LandmarkKind>::empty(),
            deck_wf(r.cards),
            forall|k: CardKind| #[trigger] hand_count(r, k) == hand_start_count(k),
    {
        Player { name, kind, turn, cards: create_player_deck(), coins: 0, landmarks: Vec::new() }
    }

    /// How many dice the player asks for: the computer player decides
    /// itself, a human player is asked through `human`. Any answer but two
    /// counts as one.
    pub fn get_number_of_dice<A: Actor>(&self, human: &mut A) -> (r: u8)
        ensures
            r == 1 || r == 2,
    {
        let requested = match self.kind {
            PlayerKind::RandomAI => RandomAI.get_number_of_dice(self),
            PlayerKind::Human => human.get_number_of_dice(self),
        };
        if requested == 2 {
            2
        } else {
            1
        }
    }

    pub fn ask_reroll<A: Actor>(&self, human: &mut A) -> bool {
        match self.kind {
            PlayerKind::RandomAI => RandomAI.ask_reroll(self),
            PlayerKind::Human => human.ask_reroll(self),
        }
    }

    /// The trade a Business Center of `owner_turn` makes; the engine checks
    /// a human player's answer before acting on it.
    pub fn get_trade_establishments<A: Actor>(
        &self,
        players: &Vec<Player>,
        owner_turn: usize,
        human: &mut A,
    ) -> (r: Option<(usize, CardKind, CardKind)>)
        requires
            players_wf(players@),
            owner_turn < players@.len(),
        ensures
            self.kind == PlayerKind::RandomAI ==> computer_trade(players@, owner_turn as int, r),
    {
        match self.kind {
            PlayerKind::RandomAI => RandomAI.get_trade_establishments(players, owner_turn),
            PlayerKind::Human => human.get_trade_establishments(players, owner_turn),
        }
    }

    /// The player a TV Station of `owner_turn` takes `amount` coins from;
    /// the engine checks a human player's answer before acting on it.
    pub fn get_player_to_steal_coins_from<A: Actor>(
        &self,
        players: &Vec<Player>,
        owner_turn: usize,
        amount: u8,
        human: &mut A,
    ) -> (r: usize)
        requires
            players_wf(players@),
            owner_turn < players@.len(),
            players@.len() >= 2,
        ensures
            self.kind == PlayerKind::RandomAI ==> richest_other(players@, owner_turn as int, r as int),
    {
        match self.kind {
            PlayerKind::RandomAI => RandomAI.get_player_to_steal_coins_from(
                players,
                owner_turn,
                amount,
            ),
            PlayerKind::Human => human.get_player_to_steal_coins_from(players, owner_turn, amount),
        }
    }

    /// The player's purchase: one card, one landmark, or nothing, and always
    /// one that the rules accept. A human answer that the rules refuse
    /// counts as no purchase.
    pub fn buy_a_card<A: Actor>(&self, card_deck: &Deck, human: &mut A) -> (r: Option<
        (Option<CardKind>, Option<LandmarkKind>),
    >)
        requires
            deck_wf(*card_deck),
        ensures
            purchase_violation(*self, *card_deck, r) is None,
            match r {
                Some((Some(kind), None)) => card_purchase_violation(*self, *card_deck, kind) is None,
                Some((None, Some(landmark))) => landmark_purchase_violation(*self, landmark) is None,
                None => true,
                Some(_) => false,
            },
            self.kind == PlayerKind::RandomAI ==> computer_purchase(*self, *card_deck, r),
    {
        match self.kind {
            PlayerKind::RandomAI => RandomAI.buy_a_card(self, card_deck),
            PlayerKind::Human => {
                let answer = human.buy_a_card(self, card_deck);
                match answer {
                    None => None,
                    Some((Some(kind), None)) => match check_card_purchase(self, card_deck, kind) {
                        None => answer,
                        Some(_) => None,
                    },
                    Some((None, Some(landmark))) => match check_landmark_purchase(self, landmark) {
                        None => answer,
                        Some(_) => None,
                    },
                    Some(_) => None,
                }
            },
        }
    }

    pub fn get_kind_name(&self) -> (r: &'static str)
        ensures
            r@ == (match self.kind {
                PlayerKind::RandomAI => "Computer"@,
                PlayerKind::Human => "Human"@,
            }),
    {
        match self.kind {
            PlayerKind::RandomAI => "Computer",
            PlayerKind::Human => "Human",
        }
    }

    /// Whether this player has built `landmark`.
    pub fn has_landmark(&self, landmark: LandmarkKind) -> (r: bool)
        ensures
            r == owns_landmark(*self, landmark),
    {
        let mut i: usize = 0;
        while i < self.landmarks.len()
            invariant
                i <= self.landmarks@.len(),
                forall|j: int| 0 <= j < i ==> self.landmarks@[j] != landmark,
            decreases self.landmarks@.len() - i,
        {
            if self.landmarks[i] == landmark {
                return true;
            }
            i += 1;
        }
        false
    }

    /// How many cards of `kind` this player holds.
    pub fn card_count(&self, kind: CardKind) -> (r: u8)
        ensures
            r == hand_count(*self, kind),
    {
        self.cards[kind.index()].count
    }
}

} // verus!
