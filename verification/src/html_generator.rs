//! The card page of a playlist: a QR code front and a song back for each song.

use crate::html::{encode_text, html_escaped};
use crate::qr_generator::{generate_qr_data_url, qr_data_url};
use crate::spotify_service::SongCard;
use crate::templates::{CardTemplate, CardsTemplate};
use vstd::prelude::*;

verus! {

/// Fills the card page template from song cards.
#[derive(Debug, Clone)]
pub struct HtmlGenerator {}

/// The front of a song's card: its QR code link, or empty text when none can be made.
pub open spec fn is_front_of(t: CardTemplate, c: SongCard) -> bool {
    &&& t matches CardTemplate::Front { qr_data_url: q }
    &&& t->qr_data_url@ == match qr_data_url(c.spotify_url@) {
        Some(link) => link,
        None => Seq::empty(),
    }
}

/// The back of a song's card: title and artist escaped for HTML, the year as it is.
pub open spec fn is_back_of(t: CardTemplate, c: SongCard) -> bool {
    &&& t matches CardTemplate::Back { title, artist, year }
    &&& t->title@ == html_escaped(c.title@)
    &&& t->artist@ == html_escaped(c.artist@)
    &&& t->year@ == c.year@
}

/// The card sides of some songs, front and back alternating: side `2i` is the front of
/// song `i` and side `2i + 1` its back.
pub open spec fn is_card_sides(sides: Seq<CardTemplate>, cards: Seq<SongCard>) -> bool {
    &&& sides.len() == 2 * cards.len()
    &&& forall|i: int| 0 <= i < cards.len() ==> is_front_of(#[trigger] sides[2 * i], cards[i])
    &&& forall|i: int| 0 <= i < cards.len() ==> is_back_of(#[trigger] sides[2 * i + 1], cards[i])
}

impl HtmlGenerator {
    /// A generator; this never fails.
    pub fn new() -> (r: Result<Self, String>)
        ensures
            r is Ok,
    {
        Ok(HtmlGenerator {})
    }

    /// The filled card page: the title, the number of songs, and the card sides.
    pub fn build_html_content(&self, cards: Vec<SongCard>, title: &str) -> (r: CardsTemplate)
        ensures
            r.title@ == title@,
            r.total_cards == cards@.len(),
            is_card_sides(r.cards@, cards@),
    {
        let total_cards = cards.len();
        let sides = self.create_card_templates(&cards);
        CardsTemplate { title: String::from_str(title), total_cards, cards: sides }
    }

    /// The card sides of the songs, front and back alternating.
    fn create_card_templates(&self, cards: &Vec<SongCard>) -> (r: Vec<CardTemplate>)
        ensures
            is_card_sides(r@, cards@),
    {
        let n = cards.len();
        let mut all: Vec<CardTemplate> = Vec::new();
        let mut i: usize = 0;
        while i < n
            invariant
                n == cards@.len(),
                i <= n,
                all@.len() == 2 * i,
                forall|j: int| 0 <= j < i ==> is_front_of(#[trigger] all@[2 * j], cards@[j]),
                forall|j: int| 0 <= j < i ==> is_back_of(#[trigger] all@[2 * j + 1], cards@[j]),
            decreases n - i,
        {
            let card = &cards[i];
            let qr = match generate_qr_data_url(card.spotify_url.as_str()) {
                Ok(link) => link,
                Err(_) => String::new(),
            };
            all.push(CardTemplate::Front { qr_data_url: qr });
            all.push(CardTemplate::Back {
                title: encode_text(card.title.as_str()),
                artist: encode_text(card.artist.as_str()),
                year: card.year.clone(),
            });
            i = i + 1;
        }
        all
    }
}

impl Default for HtmlGenerator {
    fn default() -> (r: Self) {
        HtmlGenerator {}
    }
}

} // verus!
