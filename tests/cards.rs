use bsky_poster::scryfall::{self, CardImageData};
use bsky_poster::selector::{Card, ImageUri};

fn raw(set: &str, flavor: Option<&str>, artist: Option<&str>, images: Option<Option<&str>>) -> scryfall::Card {
    scryfall::Card {
        name: "Llanowar Elves".to_string(),
        images: images.map(|crop| CardImageData { art_crop: crop.map(|c| c.to_string()) }),
        set_name: set.to_string(),
        flavor_text: flavor.map(|f| f.to_string()),
        artist: artist.map(|a| a.to_string()),
    }
}

fn good_raw(set: &str) -> scryfall::Card {
    raw(set, Some("One bone broken"), Some("Anson Maddocks"), Some(Some("https://img/crop.jpg")))
}

fn card(name: &str, set: &str, flavor: &str, artist: &str) -> Card {
    Card {
        name: name.to_string(),
        image_uris: ImageUri::ArtCrop(format!("https://img/{name}.jpg")),
        set_name: set.to_string(),
        flavor_text: flavor.to_string(),
        artist: artist.to_string(),
    }
}

#[test]
fn complete_record_is_valid() {
    assert!(!good_raw("Alpha").is_invalid());
}

#[test]
fn joke_sets_are_invalid() {
    for set in ["Unglued", "Unhinged", "Unsanctioned", "Unfinity", "Unstable", "Unknown Event"] {
        assert!(good_raw(set).is_invalid(), "{set}");
    }
}

#[test]
fn set_names_must_match_exactly() {
    assert!(!good_raw("Unglued 2").is_invalid());
    assert!(!good_raw("unglued").is_invalid());
}

#[test]
fn missing_flavor_or_artist_is_invalid() {
    assert!(raw("Alpha", None, Some("A"), Some(Some("https://img/crop.jpg"))).is_invalid());
    assert!(raw("Alpha", Some("F"), None, Some(Some("https://img/crop.jpg"))).is_invalid());
}

#[test]
fn images_without_art_crop_are_invalid() {
    assert!(raw("Alpha", Some("F"), Some("A"), Some(None)).is_invalid());
}

#[test]
fn record_without_images_is_invalid() {
    assert!(raw("Alpha", Some("F"), Some("A"), None).is_invalid());
}

#[test]
fn valid_cards_keeps_fit_records_in_order() {
    let cards = vec![good_raw("Alpha"), good_raw("Unstable"), raw("Beta", None, Some("A"), None), good_raw("Gamma")];
    let kept = scryfall::valid_cards(cards);
    let sets: Vec<&str> = kept.iter().map(|c| c.set_name.as_str()).collect();
    assert_eq!(sets, vec!["Alpha", "Gamma"]);
}

#[test]
fn valid_cards_of_nothing_is_nothing() {
    assert!(scryfall::valid_cards(Vec::new()).is_empty());
}

#[test]
fn caption_layout() {
    let c = card("Fireball", "Core", "Burn.", "X");
    assert_eq!(c.text(), "Fireball (Core)\nArtist: X\n\nBurn.\n\n#magicthegathering #mtg");
}

#[test]
fn alt_text_sentence() {
    let c = card("Fireball", "Core", "Burn.", "X");
    assert_eq!(
        c.alt_text(),
        "Art for the Magic: the Gathering card 'Fireball' from the set 'Core' by the artist 'X'"
    );
}

#[test]
fn alt_text_holds_name_set_and_artist() {
    let c = card("Serra Angel", "Limited Edition Alpha", "Born with wings.", "Douglas Shuler");
    let alt = c.alt_text();
    assert!(alt.contains("Serra Angel"));
    assert!(alt.contains("Limited Edition Alpha"));
    assert!(alt.contains("Douglas Shuler"));
}

#[test]
fn summary_line() {
    let c = card("Fireball", "Core", "Burn.", "X");
    assert_eq!(c.summary(), "Fireball (Core) - 'Burn.'");
}

#[test]
fn caption_length_counts_bytes() {
    let c = card("Fireball", "Core", "Burn.", "X");
    assert_eq!(c.caption_length(), 57);
    assert_eq!(c.caption_length(), c.text().len());
    let accented = card("Éclair", "Core", "Burn.", "X");
    assert_eq!(accented.caption_length(), 56);
}

#[test]
fn caption_length_is_the_same_on_every_call() {
    let c = card("Fireball", "Core", "Burn.", "X");
    let twin = card("Fireball", "Core", "Burn.", "X");
    assert_eq!(c.caption_length(), c.caption_length());
    assert_eq!(c.caption_length(), twin.caption_length());
    assert_eq!(c.text(), twin.text());
}

#[test]
fn image_url_is_the_art_crop() {
    let c = card("Fireball", "Core", "Burn.", "X");
    assert_eq!(c.image_url(), "https://img/Fireball.jpg");
}
