use entitlement_core::catalog::{
    find_costume, Achievement, Catalog, Costume, DecodeError, EntryError,
};

fn costume(name: &str, price: usize) -> Costume {
    Costume {
        name: name.to_string(),
        display_name: format!("The {}", name),
        description: format!("A fine {}", name),
        price,
    }
}

fn achievement(name: &str) -> Achievement {
    Achievement {
        name: name.to_string(),
        display_name: format!("The {}", name),
        description: format!("Earned the {}", name),
    }
}

fn catalog() -> Catalog {
    Catalog::new()
        .with_costume(costume("default", 0))
        .with_costume(costume("wizard_hat", 10))
        .with_costume(costume("crown", 50))
        .with_achievement(achievement("first_win"))
}

#[test]
fn empty_catalog_lists_nothing() {
    let c = Catalog::new();
    assert!(!c.contains_key("default"));
    assert!(c.get("default").is_none());
    assert!(!c.has_achievement("first_win"));
    assert!(c.costumes().is_empty());
}

#[test]
fn catalog_finds_what_was_listed() {
    let c = catalog();
    assert!(c.contains_key("wizard_hat"));
    assert!(c.contains_key("default"));
    assert!(!c.contains_key("Wizard_hat"));
    assert!(!c.contains_key("first_win"));
    let hat = c.get("wizard_hat").unwrap();
    assert_eq!(hat.name, "wizard_hat");
    assert_eq!(hat.display_name, "The wizard_hat");
    assert_eq!(hat.description, "A fine wizard_hat");
    assert_eq!(hat.price, 10);
    assert_eq!(c.get("crown").unwrap().price, 50);
    assert!(c.get("cape").is_none());
}

#[test]
fn listing_again_replaces() {
    let c = catalog().with_costume(costume("wizard_hat", 99));
    assert_eq!(c.get("wizard_hat").unwrap().price, 99);
    assert_eq!(c.get("crown").unwrap().price, 50);
    assert_eq!(c.costumes().len(), 3);
}

#[test]
fn all_costumes_are_listed_once() {
    let all = catalog().costumes();
    let mut names: Vec<String> = all.iter().map(|c| c.name.clone()).collect();
    names.sort();
    assert_eq!(names, vec!["crown", "default", "wizard_hat"]);
}

#[test]
fn achievements_are_kept_apart() {
    let c = catalog();
    assert!(c.has_achievement("first_win"));
    assert!(!c.has_achievement("wizard_hat"));
    assert_eq!(c.achievement("first_win").unwrap().display_name, "The first_win");
    assert!(c.achievement("second_win").is_none());
    let c = c.with_achievement(Achievement {
        name: "first_win".to_string(),
        display_name: "Renamed".to_string(),
        description: String::new(),
    });
    assert_eq!(c.achievement("first_win").unwrap().display_name, "Renamed");
    assert!(c.contains_key("crown"));
}

#[test]
fn decode_reads_a_stored_key() {
    let c = catalog();
    assert_eq!(c.decode(Some("crown")).unwrap().price, 50);
    assert!(matches!(c.decode(None), Err(DecodeError::Empty)));
    match c.decode(Some("cape")) {
        Err(DecodeError::Unknown(key)) => assert_eq!(key, "cape"),
        other => panic!("unexpected {:?}", other),
    }
}

#[test]
fn decode_all_reads_in_order() {
    let c = catalog();
    let keys = vec!["crown".to_string(), "default".to_string()];
    let items = c.decode_all(&keys).unwrap();
    assert_eq!(items.len(), 2);
    assert_eq!(items[0].name, "crown");
    assert_eq!(items[1].name, "default");
    assert!(c.decode_all(&vec![]).unwrap().is_empty());
}

#[test]
fn decode_all_reports_the_first_unknown_key() {
    let c = catalog();
    let keys = vec!["crown".to_string(), "cape".to_string(), "boots".to_string()];
    match c.decode_all(&keys) {
        Err(DecodeError::Unknown(key)) => assert_eq!(key, "cape"),
        other => panic!("unexpected {:?}", other),
    }
}

#[test]
fn costume_from_entry() {
    let c = Costume::from_entry(
        "wizard_hat".to_string(),
        Some("Wizard Hat".to_string()),
        Some("Pointy".to_string()),
        Some(10),
    )
    .unwrap();
    assert_eq!(c.name, "wizard_hat");
    assert_eq!(c.display_name, "Wizard Hat");
    assert_eq!(c.description, "Pointy");
    assert_eq!(c.price, 10);
}

#[test]
fn costume_from_defective_entry() {
    let text = || Some("x".to_string());
    let key = || "k".to_string();
    assert_eq!(
        Costume::from_entry(key(), None, text(), Some(1)).unwrap_err(),
        EntryError::MissingName
    );
    assert_eq!(
        Costume::from_entry(key(), None, None, None).unwrap_err(),
        EntryError::MissingName
    );
    assert_eq!(
        Costume::from_entry(key(), text(), None, Some(1)).unwrap_err(),
        EntryError::MissingDescription
    );
    assert_eq!(
        Costume::from_entry(key(), text(), text(), None).unwrap_err(),
        EntryError::MissingPrice
    );
    assert_eq!(
        Costume::from_entry(key(), text(), text(), Some(-1)).unwrap_err(),
        EntryError::BadPrice
    );
    assert_eq!(
        Costume::from_entry(key(), text(), text(), Some(i64::MIN)).unwrap_err(),
        EntryError::BadPrice
    );
    assert_eq!(Costume::from_entry(key(), text(), text(), Some(0)).unwrap().price, 0);
    assert_eq!(
        Costume::from_entry(key(), text(), text(), Some(i64::MAX)).unwrap().price,
        i64::MAX as usize
    );
}

#[test]
fn achievement_from_entry() {
    let a = Achievement::from_entry(
        "first_win".to_string(),
        Some("First Win".to_string()),
        Some("Won once".to_string()),
    )
    .unwrap();
    assert_eq!(a.name, "first_win");
    assert_eq!(a.display_name, "First Win");
    assert_eq!(a.description, "Won once");
    assert_eq!(
        Achievement::from_entry("k".to_string(), None, Some("d".to_string())).unwrap_err(),
        EntryError::MissingName
    );
    assert_eq!(
        Achievement::from_entry("k".to_string(), Some("n".to_string()), None).unwrap_err(),
        EntryError::MissingDescription
    );
}

#[test]
fn clones_are_equal_field_by_field() {
    let c = costume("crown", 50);
    let d = c.clone();
    assert_eq!((d.name, d.display_name, d.description, d.price), (c.name, c.display_name, c.description, c.price));
    let a = achievement("first_win");
    let b = a.clone();
    assert_eq!((b.name, b.display_name, b.description), (a.name, a.display_name, a.description));
}

#[test]
fn finder_gives_the_first_place() {
    let items = vec![costume("a", 1), costume("b", 2), costume("a", 3)];
    assert_eq!(find_costume(&items, &"a".to_string()), Some(0));
    assert_eq!(find_costume(&items, &"b".to_string()), Some(1));
    assert_eq!(find_costume(&items, &"c".to_string()), None);
}

#[test]
fn decode_errors_describe_themselves() {
    assert_eq!(DecodeError::Empty.message(), "there is no value to read a costume from");
    assert_eq!(
        DecodeError::Unknown("cape".to_string()).message(),
        "no costume is listed under the key cape"
    );
}

#[test]
fn costumes_are_listed_in_the_order_of_listing() {
    let c = Catalog::new()
        .with_costume(costume("b", 2))
        .with_costume(costume("a", 1))
        .with_costume(costume("b", 3));
    let all = c.costumes();
    assert_eq!(all.len(), 2);
    assert_eq!(all[0].name, "b");
    assert_eq!(all[0].price, 3);
    assert_eq!(all[1].name, "a");
}
