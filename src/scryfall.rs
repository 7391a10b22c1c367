//! Card records as the bulk card dataset delivers them, and the rule that
//! decides which of them are fit for the corpus.

use vstd::prelude::*;
use vstd::string::*;

verus! {

/// Image links of a card record.
#[derive(Debug)]
pub struct CardImageData {
    pub art_crop: Option<String>,
}

/// One card of the bulk dataset, before it is checked.
#[derive(Debug)]
pub struct Card {
    pub name: String,
    pub images: Option<CardImageData>,
    pub set_name: String,
    pub flavor_text: Option<String>,
    pub artist: Option<String>,
}

/// Sets whose cards are never posted: the joke sets and promotional events.
pub open spec fn excluded_set(set_name: Seq<char>) -> bool {
    ||| set_name == "Unglued"@
    ||| set_name == "Unhinged"@
    ||| set_name == "Unsanctioned"@
    ||| set_name == "Unfinity"@
    ||| set_name == "Unstable"@
    ||| set_name == "Unknown Event"@
}

impl Card {
    /// A record is unfit when its set is excluded, when it lacks flavor text or
    /// an artist, or when it has no link to an art crop.
    pub open spec fn invalid(&self) -> bool {
        ||| excluded_set(self.set_name@)
        ||| self.flavor_text is None
        ||| self.artist is None
        ||| self.images is None
        ||| self.images->0.art_crop is None
    }

    pub fn is_invalid(&self) -> (r: bool)
        ensures
            r == self.invalid(),
    {
        if self.set_name == String::from_str("Unglued")
            || self.set_name == String::from_str("Unhinged")
            || self.set_name == String::from_str("Unsanctioned")
            || self.set_name == String::from_str("Unfinity")
            || self.set_name == String::from_str("Unstable")
        {
            return true;
        }
        if self.set_name == String::from_str("Unknown Event") {
            return true;
        }
        if self.flavor_text.is_none() || self.artist.is_none() {
            return true;
        }
        match &self.images {
            Some(images) => images.art_crop.is_none(),
            None => true,
        }
    }
}

/// True of the records that may enter the corpus.
pub open spec fn is_valid(c: Card) -> bool {
    !c.invalid()
}

/// Keeps the fit records, in their order.
pub fn valid_cards(cards: Vec<Card>) -> (r: Vec<Card>)
    ensures
        r@ == cards@.filter(|c: Card| is_valid(c)),
{
    let ghost all = cards@;
    let mut kept: Vec<Card> = Vec::new();
    for c in it: cards
        invariant
            it.seq() == all,
            kept@ == all.take(it.index() as int).filter(|c: Card| is_valid(c)),
    {
        let ghost i = it.index() as int;
        proof {
            reveal(Seq::filter);
            assert(all.take(i + 1).drop_last() =~= all.take(i));
            assert(all.take(i + 1).last() == all[i]);
            assert(c == all[i]);
        }
        if !c.is_invalid() {
            kept.push(c);
        }
    }
    proof {
        assert(all.take(all.len() as int) =~= all);
    }
    kept
}

} // verus!
