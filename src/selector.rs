//! Corpus cards and the texts of their posts.

use vstd::prelude::*;
use vstd::string::*;
use vstd::utf8::encode_utf8;

verus! {

/// Where a card's picture is found: the crop that shows its art alone.
#[derive(Clone, Debug)]
pub enum ImageUri {
    ArtCrop(String),
}

/// One card of the corpus, with every field a post needs.
#[derive(Clone, Debug)]
pub struct Card {
    pub name: String,
    pub image_uris: ImageUri,
    pub set_name: String,
    pub flavor_text: String,
    pub artist: String,
}

/// The caption: name and set, artist, a blank line, the flavor text, a
/// blank line, and two hashtags.
pub open spec fn caption(c: Card) -> Seq<char> {
    c.name@ + " ("@ + c.set_name@ + ")\nArtist: "@ + c.artist@ + "\n\n"@ + c.flavor_text@
        + "\n\n#magicthegathering #mtg"@
}

/// The length of the caption in UTF-8 bytes.
pub open spec fn caption_length(c: Card) -> nat {
    encode_utf8(caption(c)).len()
}

/// The caption, and so its length, is a function of the card's texts alone:
/// two cards that agree on name, set, artist and flavor text get the same
/// caption, of the same length.
pub proof fn lemma_caption_depends_on_texts(a: Card, b: Card)
    requires
        a.name@ == b.name@,
        a.set_name@ == b.set_name@,
        a.artist@ == b.artist@,
        a.flavor_text@ == b.flavor_text@,
    ensures
        caption(a) == caption(b),
        caption_length(a) == caption_length(b),
{
}

/// One sentence that describes the picture for those who cannot see it.
pub open spec fn alt_text(c: Card) -> Seq<char> {
    "Art for the Magic: the Gathering card '"@ + c.name@ + "' from the set '"@ + c.set_name@
        + "' by the artist '"@ + c.artist@ + "'"@
}

/// A short line that names the card, for logs.
pub open spec fn summary(c: Card) -> Seq<char> {
    c.name@ + " ("@ + c.set_name@ + ") - '"@ + c.flavor_text@ + "'"@
}

/// `t` occurs in `s` as a contiguous run of characters.
pub open spec fn contains(s: Seq<char>, t: Seq<char>) -> bool {
    exists|i: int| 0 <= i <= s.len() - t.len() && #[trigger] s.subrange(i, i + t.len()) == t
}

/// The alt text holds the card's name, its set and its artist, each word for
/// word.
pub proof fn lemma_alt_text_names_card(c: Card)
    ensures
        contains(alt_text(c), c.name@),
        contains(alt_text(c), c.set_name@),
        contains(alt_text(c), c.artist@),
{
    let s = alt_text(c);
    let before_name = "Art for the Magic: the Gathering card '"@;
    let before_set = before_name + c.name@ + "' from the set '"@;
    let before_artist = before_set + c.set_name@ + "' by the artist '"@;
    let i = before_name.len() as int;
    let j = before_set.len() as int;
    let k = before_artist.len() as int;
    assert(s.subrange(i, i + c.name@.len()) =~= c.name@);
    assert(s.subrange(j, j + c.set_name@.len()) =~= c.set_name@);
    assert(s.subrange(k, k + c.artist@.len()) =~= c.artist@);
}

impl Card {
    pub fn text(&self) -> (r: String)
        ensures
            r@ == caption(*self),
    {
        let mut s = String::new();
        s.append(self.name.as_str());
        s.append(" (");
        s.append(self.set_name.as_str());
        s.append(")\nArtist: ");
        s.append(self.artist.as_str());
        s.append("\n\n");
        s.append(self.flavor_text.as_str());
        s.append("\n\n#magicthegathering #mtg");
        s
    }

    pub fn alt_text(&self) -> (r: String)
        ensures
            r@ == alt_text(*self),
    {
        let mut s = String::from_str("Art for the Magic: the Gathering card '");
        s.append(self.name.as_str());
        s.append("' from the set '");
        s.append(self.set_name.as_str());
        s.append("' by the artist '");
        s.append(self.artist.as_str());
        s.append("'");
        s
    }

    pub fn summary(&self) -> (r: String)
        ensures
            r@ == summary(*self),
    {
        let mut s = String::new();
        s.append(self.name.as_str());
        s.append(" (");
        s.append(self.set_name.as_str());
        s.append(") - '");
        s.append(self.flavor_text.as_str());
        s.append("'");
        s
    }

    /// The caption's length in UTF-8 bytes.
    pub fn caption_length(&self) -> (r: usize)
        ensures
            r == caption_length(*self),
    {
        let text = self.text();
        text.as_str().as_bytes().len()
    }

    /// The link to the card's art crop.
    pub fn image_url(&self) -> (r: &String)
        ensures
            self.image_uris == ImageUri::ArtCrop(*r),
    {
        match &self.image_uris {
            ImageUri::ArtCrop(url) => url,
        }
    }
}

} // verus!
