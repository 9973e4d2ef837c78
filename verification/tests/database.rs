use wfinfo::database::{
    drop_name_for, lookup_part_price, price_table, set_query_for, Database, EquipmentEntry,
    EquipmentType, PartEntry,
};
use wfinfo::error::DatabaseError;

fn part(name: &str, ducats: usize) -> PartEntry {
    PartEntry {
        name: name.to_string(),
        ducats,
    }
}

fn names(list: &[&str]) -> Vec<String> {
    list.iter().map(|s| s.to_string()).collect()
}

fn sample() -> Database {
    let equipment = vec![
        EquipmentEntry {
            name: "Octavia Prime".to_string(),
            item_type: EquipmentType::Warframes,
            parts: vec![
                part("Octavia Prime Blueprint", 45),
                part("Octavia Prime Systems", 100),
                part("Octavia Prime Neuroptics", 45),
            ],
        },
        EquipmentEntry {
            name: "Akstiletto Prime".to_string(),
            item_type: EquipmentType::Other,
            parts: vec![part("Akstiletto Prime Receiver", 45), part("Akstiletto Prime Barrel", 15)],
        },
        EquipmentEntry {
            name: "Titania Prime".to_string(),
            item_type: EquipmentType::Warframes,
            parts: vec![part("Titania Prime Blueprint", 15), part("Titania Prime Chassis", 15)],
        },
    ];
    let prices = names(&[
        "Octavia Prime Blueprint",
        "Octavia Prime Systems Blueprint",
        "Octavia Prime Neuroptics",
        "Octavia Prime Set",
        "Akstiletto Prime Receiver",
        "Titania Prime Blueprint",
        "Titania Prime Chassis Blueprint",
    ]);
    Database::from_catalog(&equipment, &names(&["Forma Blueprint"]), &prices)
}

#[test]
fn catalogue_is_built_in_order() {
    let db = sample();
    let items = db.items();
    let listed: Vec<(&str, &str, usize, Option<usize>)> = items
        .iter()
        .map(|i| (i.name.as_str(), i.drop_name.as_str(), i.ducats, i.price))
        .collect();
    assert_eq!(
        listed,
        vec![
            ("Octavia Prime Blueprint", "Octavia Prime Blueprint", 45, Some(0)),
            ("Octavia Prime Systems", "Octavia Prime Systems Blueprint", 100, Some(1)),
            ("Octavia Prime Neuroptics", "Octavia Prime Neuroptics Blueprint", 45, Some(2)),
            ("Octavia Prime Set", "Octavia Prime Set", 0, Some(3)),
            ("Akstiletto Prime Receiver", "Akstiletto Prime Receiver", 45, Some(4)),
            ("Titania Prime Blueprint", "Titania Prime Blueprint", 15, Some(5)),
            ("Titania Prime Chassis", "Titania Prime Chassis Blueprint", 15, Some(6)),
            ("Forma Blueprint", "Forma Blueprint", 0, None),
        ]
    );
    assert_eq!(db.len(), 8);
}

#[test]
fn can_find_items() {
    let db = sample();
    let item = db
        .find_item("TitaniaPrimeBlueprint", Some(0))
        .expect("Failed to find Titania Prime Blueprint in database");
    assert_eq!(item.name, "Titania Prime Blueprint");

    let item = db
        .find_item("OctaviaPrimeBlueprint", Some(0))
        .expect("Failed to find Octavia Prime Blueprint in database");
    assert_eq!(item.name, "Octavia Prime Blueprint");
}

#[test]
fn can_find_fuzzy_items() {
    let db = sample();
    let item = db
        .find_item("Akstlett Prlme Recver", None)
        .expect("Failed to fuzzy find Akstiletto Prime Receiver in database");
    assert_eq!(item.name, "Akstiletto Prime Receiver");

    let item = db
        .find_item("ctavio Prlme Blueprnt", None)
        .expect("Failed to fuzzy find Octavia Prime Blueprint in database");
    assert_eq!(item.name, "Octavia Prime Blueprint");

    let item = db
        .find_item("Oclavia Prime Syslems\nBlueprint\n", None)
        .expect("Failed to fuzzy find Octavia Prime Blueprint in database");
    assert_eq!(item.name, "Octavia Prime Systems");
}

#[test]
fn far_text_matches_nothing() {
    let db = sample();
    assert!(db.find_item("Completely different text here", None).is_none());
    assert_eq!(db.find_item_index("zzzz", Some(1)), None);
}

#[test]
fn sets_only_match_set_text() {
    let db = sample();
    let item = db.find_item("OctaviaPrimeSet", None).unwrap();
    assert_eq!(item.name, "Octavia Prime Set");
    let item = db.find_item("Octavia Prime Se", Some(100)).unwrap();
    assert_ne!(item.name, "Octavia Prime Set");
}

#[test]
fn ties_go_to_the_first_item() {
    let equipment = vec![EquipmentEntry {
        name: "X".to_string(),
        item_type: EquipmentType::Other,
        parts: vec![part("ab", 1), part("ba", 2)],
    }];
    let db = Database::from_catalog(&equipment, &Vec::new(), &names(&["ab", "ba"]));
    assert_eq!(db.find_item_index("aa", Some(5)), Some(0));
}

#[test]
fn exact_lookup() {
    let db = sample();
    let item = db.find_item_exact("Forma Blueprint").unwrap();
    assert_eq!(item.price, None);
    assert_eq!(
        db.find_item_exact("Forma").unwrap_err(),
        DatabaseError::ItemNotFound("Forma".to_string())
    );
}

#[test]
fn set_lookup_uses_first_two_words() {
    assert_eq!(
        set_query_for("Octavia Prime Systems Blueprint").as_deref(),
        Some("Octavia Prime Set")
    );
    assert_eq!(set_query_for("  Forma \t Blueprint ").as_deref(), Some("Forma Blueprint Set"));
    assert_eq!(set_query_for("Forma"), None);
    assert_eq!(set_query_for("   "), None);
    let db = sample();
    assert_eq!(
        db.try_find_set("Octavia Prime Neuroptics Blueprint").unwrap().name,
        "Octavia Prime Set"
    );
    assert!(db.try_find_set("Forma").is_none());
}

#[test]
fn drop_names_of_frame_parts() {
    assert_eq!(
        drop_name_for("Itzal Prime Harness", EquipmentType::Archwing),
        "Itzal Prime Harness Blueprint"
    );
    assert_eq!(drop_name_for("Itzal Prime Wings", EquipmentType::Archwing), "Itzal Prime Wings Blueprint");
    assert_eq!(drop_name_for("Braton Prime Receiver", EquipmentType::Other), "Braton Prime Receiver");
    assert_eq!(drop_name_for("Ash Prime Chassis", EquipmentType::Other), "Ash Prime Chassis");
    assert_eq!(
        drop_name_for("Ash Prime Chassis Blueprint", EquipmentType::Warframes),
        "Ash Prime Chassis Blueprint"
    );
}

#[test]
fn price_table_keeps_last_duplicate_and_falls_back_to_blueprint() {
    let table = price_table(&names(&["A", "B Blueprint", "A"]));
    assert_eq!(lookup_part_price("A", &table), Some(2));
    assert_eq!(lookup_part_price("B", &table), Some(1));
    assert_eq!(lookup_part_price("C", &table), None);
}

#[test]
fn recognised_texts_are_normalised_before_matching() {
    let db = sample();
    let found = db.identify_items(&names(&[
        "Titania Prime\nBlueprint",
        "Forma Blueprint!",
        "###",
    ]));
    assert_eq!(found[0], Some(5));
    assert_eq!(found[1], Some(7));
    assert_eq!(found[2], None);
}
