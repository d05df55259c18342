//! Rules and turn engine of a coin-collecting dice game for two to four
//! players: the card and landmark catalogs, coin movements, the order in
//! which cards fire on a roll, purchases and trades, and a computer player.

mod chance;

pub mod cards;
pub mod choices;
pub mod controller;
pub mod landmarks;
pub mod player;
pub mod random;
pub mod turn;
