use forzalife::locations::{location_kind, location_names, LocationKind};

#[test]
fn world_map_codes_name_the_three_kinds() {
    assert_eq!(location_kind("1"), Some(LocationKind::Gas));
    assert_eq!(location_kind("2"), Some(LocationKind::Workshop));
    assert_eq!(location_kind("3"), Some(LocationKind::ConvenienceStore));
    assert_eq!(location_kind("4"), None);
    assert_eq!(location_kind("0"), None);
    assert_eq!(location_kind(""), None);
    assert_eq!(location_kind("11"), None);
    assert_eq!(location_kind(" 1"), None);
}

#[test]
fn locations_are_numbered_per_kind_in_map_order() {
    let kinds = vec![
        LocationKind::Gas,
        LocationKind::Workshop,
        LocationKind::Gas,
        LocationKind::ConvenienceStore,
        LocationKind::Workshop,
        LocationKind::Gas,
    ];
    assert_eq!(
        location_names(&kinds),
        vec![
            "Gas station 1",
            "Workshop 1",
            "Gas station 2",
            "Konbini 1",
            "Workshop 2",
            "Gas station 3",
        ]
    );
    assert!(location_names(&Vec::new()).is_empty());
}

#[test]
fn numbering_continues_past_nine() {
    let kinds = vec![LocationKind::Gas; 12];
    let names = location_names(&kinds);
    assert_eq!(names[9], "Gas station 10");
    assert_eq!(names[11], "Gas station 12");
}

#[test]
fn every_location_gets_a_name_of_its_own() {
    let mut kinds = Vec::new();
    for i in 0..40 {
        kinds.push(match i % 3 {
            0 => LocationKind::Gas,
            1 => LocationKind::Workshop,
            _ => LocationKind::ConvenienceStore,
        });
    }
    let names = location_names(&kinds);
    for i in 0..names.len() {
        for j in i + 1..names.len() {
            assert_ne!(names[i], names[j]);
        }
    }
}
