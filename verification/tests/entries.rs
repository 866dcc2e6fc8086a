use material_log::catalog::Catalog;
use material_log::entry::{build_entry, submit_entry, Entry, EntryForm, LogRecord, Thickness};
use material_log::failure::Failure;
use material_log::material::{LogMaterial, Material};

fn oak_catalog() -> Catalog {
    let mut c = Catalog::new();
    c.append_material(
        Material { name: "Oak".to_string(), fullname: Some("Oak Plywood".to_string()) },
        "wood_oak".to_string(),
    )
    .unwrap();
    c
}

fn form(material: &str, timestamp: i64) -> EntryForm {
    EntryForm {
        timestamp,
        user: "bob".to_string(),
        material: material.to_string(),
        thickness: Thickness { bits: 12.5f32.to_bits() },
        comment: "test cut".to_string(),
    }
}

#[test]
fn submitted_entry_quotes_its_material() {
    let record = submit_entry(&oak_catalog(), &form("wood_oak", 1700000000)).unwrap();
    assert_eq!(
        record.entry.material,
        LogMaterial {
            slug: "wood_oak".to_string(),
            name: "Oak".to_string(),
            fullname: Some("Oak Plywood".to_string()),
        }
    );
    assert_eq!(f32::from_bits(record.entry.thickness.bits), 12.5);
}

#[test]
fn submitted_entry_in_full() {
    let record = submit_entry(&oak_catalog(), &form("wood_oak", 1700000000)).unwrap();
    assert_eq!(
        record,
        LogRecord {
            slug: "bob-1700000000".to_string(),
            entry: Entry {
                timestamp: "2023-11-14 22:13:20".to_string(),
                user: "bob".to_string(),
                thickness: Thickness { bits: 0x41480000 },
                comment: "test cut".to_string(),
                material: LogMaterial {
                    slug: "wood_oak".to_string(),
                    name: "Oak".to_string(),
                    fullname: Some("Oak Plywood".to_string()),
                },
            },
        }
    );
}

#[test]
fn unknown_material_is_rejected() {
    assert_eq!(submit_entry(&oak_catalog(), &form("wood_birch", 1700000000)), Err(Failure::UnknownMaterial));
    assert_eq!(submit_entry(&Catalog::new(), &form("wood_oak", 1700000000)), Err(Failure::UnknownMaterial));
}

#[test]
fn timestamp_at_the_epoch() {
    let record = submit_entry(&oak_catalog(), &form("wood_oak", 0)).unwrap();
    assert_eq!(record.entry.timestamp, "1970-01-01 00:00:00");
    assert_eq!(record.slug, "bob-0");
}

#[test]
fn timestamp_before_the_epoch() {
    let record = submit_entry(&oak_catalog(), &form("wood_oak", -1)).unwrap();
    assert_eq!(record.entry.timestamp, "1969-12-31 23:59:59");
    assert_eq!(record.slug, "bob-1");
}

#[test]
fn timestamp_out_of_range_is_rejected() {
    assert_eq!(submit_entry(&oak_catalog(), &form("wood_oak", i64::MAX)), Err(Failure::InvalidTimestamp));
    assert_eq!(submit_entry(&oak_catalog(), &form("wood_oak", i64::MIN)), Err(Failure::InvalidTimestamp));
}

#[test]
fn unknown_material_comes_before_the_timestamp() {
    assert_eq!(submit_entry(&oak_catalog(), &form("nothing", i64::MAX)), Err(Failure::UnknownMaterial));
}

#[test]
fn entry_is_built_from_what_it_is_given() {
    let record = build_entry(
        &oak_catalog(),
        &form("wood_oak", 5),
        Some("some time".to_string()),
        "some-key".to_string(),
    )
    .unwrap();
    assert_eq!(record.slug, "some-key");
    assert_eq!(record.entry.timestamp, "some time");
    assert_eq!(record.entry.user, "bob");
    assert_eq!(record.entry.comment, "test cut");
}

#[test]
fn entry_without_a_rendered_timestamp_is_rejected() {
    assert_eq!(
        build_entry(&oak_catalog(), &form("wood_oak", 5), None, "k".to_string()),
        Err(Failure::InvalidTimestamp)
    );
    assert_eq!(
        build_entry(&oak_catalog(), &form("other", 5), None, "k".to_string()),
        Err(Failure::UnknownMaterial)
    );
}

#[test]
fn material_without_fullname_is_quoted_without() {
    let mut c = Catalog::new();
    c.append_material(Material { name: "Birch".to_string(), fullname: None }, "birch".to_string()).unwrap();
    let record = submit_entry(&c, &form("birch", 1700000000)).unwrap();
    assert_eq!(
        record.entry.material,
        LogMaterial { slug: "birch".to_string(), name: "Birch".to_string(), fullname: None }
    );
}
