//! The data that the card page templates are filled with.

pub mod components;

pub use components::card::CardTemplate;

use vstd::prelude::*;

verus! {

/// The page of printable cards: its title, the number of songs, and every card side in
/// print order.
#[derive(Debug)]
pub struct CardsTemplate {
    pub title: String,
    pub total_cards: usize,
    pub cards: Vec<CardTemplate>,
}

} // verus!
