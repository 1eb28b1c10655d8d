use scryfall_cards::card::{
    write_faces, write_normal, Card, CardFace, CardPrices, InvariantViolation, Layout,
};
use scryfall_cards::collection::CardCollection;
use scryfall_cards::scalar::{decode_float, FloatScalar};

fn face(name: &str, power: Option<&str>, toughness: Option<&str>) -> CardFace {
    CardFace {
        name: name.to_string(),
        type_line: "Creature".to_string(),
        oracle_text: "Flying".to_string(),
        mana_cost: "{1}{U}".to_string(),
        power: power.map(|p| p.to_string()),
        toughness: toughness.map(|t| t.to_string()),
    }
}

fn card(name: &str, layout: &str, faces: Option<Vec<CardFace>>, eur: Option<f64>) -> Card {
    Card {
        mana_cost: "{R}".to_string(),
        name: name.to_string(),
        type_line: "Instant".to_string(),
        layout: layout.to_string(),
        card_faces: faces,
        oracle_text: "Deal 3 damage.".to_string(),
        prices: CardPrices { eur: eur.map(f64::to_bits) },
        power: None,
        toughness: None,
    }
}

#[test]
fn face_with_power_and_toughness() {
    let f = face("Delver", Some("1"), Some("1"));
    assert_eq!(f.render(), "Delver\nCreature\n{1}{U}\nFlying\n1/1");
}

#[test]
fn face_with_power_only_has_no_stats_line() {
    let f = face("Delver", Some("2"), None);
    assert_eq!(f.render(), "Delver\nCreature\n{1}{U}\nFlying");
}

#[test]
fn face_with_toughness_only_has_no_stats_line() {
    let f = face("Delver", None, Some("3"));
    assert_eq!(f.render(), "Delver\nCreature\n{1}{U}\nFlying");
}

#[test]
fn face_without_stats_and_with_empty_texts() {
    let f = CardFace {
        name: "Land".to_string(),
        type_line: "Land".to_string(),
        oracle_text: String::new(),
        mana_cost: String::new(),
        power: None,
        toughness: None,
    };
    assert_eq!(f.render(), "Land\nLand\n\n");
}

#[test]
fn face_write_to_appends() {
    let mut out = "> ".to_string();
    face("A", Some("*"), Some("4")).write_to(&mut out);
    assert_eq!(out, "> A\nCreature\n{1}{U}\nFlying\n*/4");
}

#[test]
fn faces_are_written_in_order_with_a_blank_line_after_each() {
    let faces = vec![face("Front", Some("1"), Some("1")), face("Back", None, None)];
    let mut out = String::new();
    write_faces(&mut out, &faces);
    assert_eq!(
        out,
        "Front\nCreature\n{1}{U}\nFlying\n1/1\n\nBack\nCreature\n{1}{U}\nFlying"
    );
    let mut nothing = "x".to_string();
    write_faces(&mut nothing, &Vec::new());
    assert_eq!(nothing, "x");
    let mut one = "x".to_string();
    write_faces(&mut one, &vec![face("Only", None, None)]);
    assert_eq!(one, "xOnly\nCreature\n{1}{U}\nFlying");
}

#[test]
fn two_faces_are_joined_by_a_blank_line() {
    let a = CardFace {
        name: "A".to_string(),
        type_line: "Ta".to_string(),
        oracle_text: "Oa".to_string(),
        mana_cost: "{1}".to_string(),
        power: None,
        toughness: None,
    };
    let b = CardFace {
        name: "B".to_string(),
        type_line: "Tb".to_string(),
        oracle_text: "Ob".to_string(),
        mana_cost: "{2}".to_string(),
        power: Some("3".to_string()),
        toughness: Some("2".to_string()),
    };
    let mut out = String::new();
    write_faces(&mut out, &vec![a, b]);
    assert_eq!(out, "A\nTa\n{1}\nOa\n\nB\nTb\n{2}\nOb\n3/2");
    assert_eq!(out.chars().count(), 28);
}

#[test]
fn normal_body() {
    let mut c = card("Bolt", "normal", None, None);
    let mut out = String::new();
    write_normal(&mut out, &c);
    assert_eq!(out, "Instant\n{R}\nDeal 3 damage.");
    c.power = Some("3".to_string());
    c.toughness = Some("2".to_string());
    let mut out = "Bolt\n".to_string();
    write_normal(&mut out, &c);
    assert_eq!(out, "Bolt\nInstant\n{R}\nDeal 3 damage.\n3/2");
}

#[test]
fn normal_card_renders_four_lines_and_has_its_price() {
    let eur = decode_float(FloatScalar::Text("0.12".parse::<f64>().ok().map(f64::to_bits))).unwrap();
    let mut c = card("Bolt", "normal", None, None);
    c.prices = CardPrices { eur };
    assert_eq!(c.render(), Ok("Bolt\nInstant\n{R}\nDeal 3 damage.".to_string()));
    assert_eq!(f64::from_bits(c.price_eur_bits()), 0.12);
    assert_eq!(c.get_name(), "Bolt");
}

#[test]
fn card_without_price_counts_as_zero() {
    let c = card("Bolt", "normal", None, None);
    assert_eq!(c.price_eur_bits(), 0);
    assert_eq!(f64::from_bits(c.price_eur_bits()), 0.0);
}

#[test]
fn normal_card_never_looks_at_its_faces() {
    let without = card("Bolt", "normal", None, None);
    let with = card("Bolt", "normal", Some(vec![face("F", None, None)]), None);
    let empty = card("Bolt", "normal", Some(Vec::new()), None);
    assert_eq!(without.render(), Ok("Bolt\nInstant\n{R}\nDeal 3 damage.".to_string()));
    assert_eq!(with.render(), without.render());
    assert_eq!(empty.render(), without.render());
}

#[test]
fn unknown_layout_renders_as_a_single_face() {
    for layout in ["split", "", "Transform", "transform ", "saga"] {
        let c = card("Bolt", layout, None, None);
        assert!(!c.has_multi_face_layout());
        assert_eq!(c.render(), Ok("Bolt\nInstant\n{R}\nDeal 3 damage.".to_string()));
    }
}

#[test]
fn multi_face_card_without_faces_is_a_violation() {
    for layout in ["transform", "adventure", "modal_dfc"] {
        let c = card("Delver", layout, None, None);
        assert!(c.has_multi_face_layout());
        assert_eq!(c.render(), Err(InvariantViolation::MissingFaces));
        let e = card("Delver", layout, Some(Vec::new()), None);
        assert_eq!(e.render(), Err(InvariantViolation::MissingFaces));
    }
}

#[test]
fn multi_face_card_renders_its_faces() {
    for layout in ["transform", "adventure", "modal_dfc"] {
        let faces = vec![face("Front", Some("1"), Some("1")), face("Back", Some("3"), None)];
        let c = card("Delver", layout, Some(faces), None);
        assert_eq!(
            c.render(),
            Ok("Delver\nFront\nCreature\n{1}{U}\nFlying\n1/1\n\nBack\nCreature\n{1}{U}\nFlying"
                .to_string())
        );
    }
}

#[test]
fn clones_are_equal() {
    let faces = vec![face("Front", Some("1"), Some("1")), face("Back", None, None)];
    let c = card("Delver", "transform", Some(faces), Some(1.5));
    assert_eq!(c.clone(), c);
    let f = face("Front", Some("1"), None);
    assert_eq!(f.clone(), f);
}

#[test]
fn collection_renders_total_and_cards() {
    let page = CardCollection {
        total_cards: Some(2),
        data: vec![
            card("Bolt", "normal", None, Some(0.12)),
            card("Delver", "transform", Some(vec![face("Front", Some("1"), Some("1"))]), None),
        ],
        next_page: None,
    };
    assert_eq!(
        page.render(),
        Ok("2 cards\n\nBolt\nInstant\n{R}\nDeal 3 damage.\n\nDelver\nFront\nCreature\n{1}{U}\nFlying\n1/1\n\n"
            .to_string())
    );
}

#[test]
fn empty_collection_renders_a_zero_total() {
    let page = CardCollection { total_cards: None, data: Vec::new(), next_page: None };
    assert_eq!(page.render(), Ok("0 cards\n\n".to_string()));
    let big = CardCollection { total_cards: Some(1090), data: Vec::new(), next_page: None };
    assert_eq!(big.render(), Ok("1090 cards\n\n".to_string()));
}

#[test]
fn collection_with_a_broken_card_is_a_violation() {
    let page = CardCollection {
        total_cards: Some(2),
        data: vec![card("Bolt", "normal", None, None), card("Delver", "adventure", None, None)],
        next_page: None,
    };
    assert_eq!(page.render(), Err(InvariantViolation::MissingFaces));
}

#[test]
fn prices_sum_with_absent_as_zero() {
    let page = CardCollection {
        total_cards: Some(3),
        data: vec![
            card("A", "normal", None, Some(0.5)),
            card("B", "normal", None, None),
            card("C", "normal", None, Some(1.25)),
        ],
        next_page: None,
    };
    let bits = page.price_bits();
    assert_eq!(bits, vec![0.5f64.to_bits(), 0, 1.25f64.to_bits()]);
    let sum: f64 = bits.iter().map(|b| f64::from_bits(*b)).sum();
    assert_eq!(sum, 1.75);
    let empty = CardCollection { total_cards: None, data: Vec::new(), next_page: None };
    let none: f64 = empty.price_bits().iter().map(|b| f64::from_bits(*b)).sum();
    assert_eq!(none, 0.0);
    assert!(empty.price_bits().is_empty());
}

#[test]
fn layout_tags() {
    assert_eq!(card("C", "normal", None, None).layout_kind(), Layout::Normal);
    assert_eq!(card("C", "transform", None, None).layout_kind(), Layout::Transform);
    assert_eq!(card("C", "adventure", None, None).layout_kind(), Layout::Adventure);
    assert_eq!(card("C", "modal_dfc", None, None).layout_kind(), Layout::ModalDoubleFace);
    assert_eq!(card("C", "split", None, None).layout_kind(), Layout::Other);
    assert_eq!(card("C", "", None, None).layout_kind(), Layout::Other);
    assert_eq!(card("C", "NORMAL", None, None).layout_kind(), Layout::Other);
}

#[test]
fn well_formed_cards_are_those_that_render() {
    let cards = vec![
        card("C", "normal", None, None),
        card("C", "split", Some(Vec::new()), None),
        card("C", "transform", None, None),
        card("C", "adventure", Some(Vec::new()), None),
        card("C", "modal_dfc", Some(vec![face("F", None, None)]), None),
    ];
    let expected = [true, true, false, false, true];
    for (c, e) in cards.iter().zip(expected) {
        assert_eq!(c.is_well_formed(), e);
        assert_eq!(c.render().is_ok(), e);
    }
}
