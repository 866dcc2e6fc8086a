use material_log::catalog::Catalog;
use material_log::failure::Failure;
use material_log::material::{LogMaterial, Material, MaterialForm};
use material_log::store::{frame_stanza, load_catalog, CatalogFile};

fn material(name: &str, fullname: Option<&str>) -> Material {
    Material { name: name.to_string(), fullname: fullname.map(|s| s.to_string()) }
}

fn form(name: &str, fullname: &str) -> MaterialForm {
    MaterialForm { name: name.to_string(), fullname: fullname.to_string() }
}

#[test]
fn empty_fullname_is_absent() {
    let m = Material::from_form(&form("Oak", ""));
    assert_eq!(m, material("Oak", None));
}

#[test]
fn fullname_is_kept() {
    let m = Material::from_form(&form("Oak", "Oak Plywood"));
    assert_eq!(m, material("Oak", Some("Oak Plywood")));
}

#[test]
fn blank_fullname_is_not_empty() {
    let m = Material::from_form(&form("Oak", " "));
    assert_eq!(m.fullname, Some(" ".to_string()));
}

#[test]
fn material_clone_is_equal() {
    let m = material("Oak", Some("Oak Plywood"));
    assert_eq!(m.clone(), m);
    let n = material("Oak", None);
    assert_eq!(n.clone(), n);
}

#[test]
fn quote_carries_slug_and_material() {
    let q = LogMaterial::quote("wood_oak", &material("Oak", Some("Oak Plywood")));
    assert_eq!(
        q,
        LogMaterial {
            slug: "wood_oak".to_string(),
            name: "Oak".to_string(),
            fullname: Some("Oak Plywood".to_string()),
        }
    );
}

#[test]
fn new_catalog_is_empty() {
    let c = Catalog::new();
    assert_eq!(c.len(), 0);
    assert!(!c.contains("oak"));
    assert_eq!(c.get("oak"), None);
    assert!(c.to_stanzas().is_empty());
}

#[test]
fn appended_material_is_found() {
    let mut c = Catalog::new();
    assert_eq!(c.append_material(material("Oak", None), "oak".to_string()), Ok(()));
    assert_eq!(c.len(), 1);
    assert!(c.contains("oak"));
    assert_eq!(c.get("oak"), Some(&material("Oak", None)));
    assert_eq!(c.get("birch"), None);
}

#[test]
fn taken_slug_is_a_conflict() {
    let mut c = Catalog::new();
    assert_eq!(c.append_material(material("Oak Wood", None), "oak-wood".to_string()), Ok(()));
    assert_eq!(
        c.append_material(material("oak-wood", Some("Other")), "oak-wood".to_string()),
        Err(Failure::SlugConflict)
    );
    assert_eq!(c.len(), 1);
    assert_eq!(c.get("oak-wood"), Some(&material("Oak Wood", None)));
}

#[test]
fn empty_slug_is_a_slug_like_any_other() {
    let mut c = Catalog::new();
    assert_eq!(c.append_material(material("!!!", None), String::new()), Ok(()));
    assert_eq!(c.get(""), Some(&material("!!!", None)));
    assert_eq!(c.append_material(material("???", None), String::new()), Err(Failure::SlugConflict));
}

#[test]
fn catalog_keeps_the_order_of_registration() {
    let mut c = Catalog::new();
    c.append_material(material("Oak", None), "oak".to_string()).unwrap();
    c.append_material(material("Birch", Some("Birch Plywood")), "birch".to_string()).unwrap();
    c.append_material(material("Acrylic", None), "acrylic".to_string()).unwrap();
    assert_eq!(c.len(), 3);
    assert_eq!(c.slug_at(0), "oak");
    assert_eq!(c.slug_at(1), "birch");
    assert_eq!(c.slug_at(2), "acrylic");
    assert_eq!(c.material_at(1), &material("Birch", Some("Birch Plywood")));
}

#[test]
fn stanzas_consolidate_last_write_wins() {
    let stanzas = vec![
        ("oak".to_string(), material("Oak", None)),
        ("birch".to_string(), material("Birch", None)),
        ("oak".to_string(), material("Oak", Some("Oak Plywood"))),
    ];
    let c = Catalog::from_stanzas(&stanzas);
    assert_eq!(c.len(), 2);
    assert_eq!(c.get("oak"), Some(&material("Oak", Some("Oak Plywood"))));
    assert_eq!(c.get("birch"), Some(&material("Birch", None)));
}

#[test]
fn stanzas_round_trip() {
    let mut c = Catalog::new();
    c.append_material(material("Oak", Some("Oak Plywood")), "oak".to_string()).unwrap();
    c.append_material(material("Birch", None), "birch".to_string()).unwrap();
    let stanzas = c.to_stanzas();
    assert_eq!(
        stanzas,
        vec![
            ("oak".to_string(), material("Oak", Some("Oak Plywood"))),
            ("birch".to_string(), material("Birch", None)),
        ]
    );
    let again = Catalog::from_stanzas(&stanzas);
    assert_eq!(again.to_stanzas(), stanzas);
}

#[test]
fn missing_file_is_an_empty_catalog() {
    let c = load_catalog(&CatalogFile::Absent).unwrap();
    assert_eq!(c.len(), 0);
}

#[test]
fn malformed_file_is_storage_unavailable() {
    assert_eq!(load_catalog(&CatalogFile::Malformed).unwrap_err(), Failure::StorageUnavailable);
}

#[test]
fn file_with_stanzas_is_loaded() {
    let file = CatalogFile::Stanzas(vec![("wood_oak".to_string(), material("Oak", Some("Oak Plywood")))]);
    let c = load_catalog(&file).unwrap();
    assert_eq!(c.len(), 1);
    assert_eq!(c.get("wood_oak"), Some(&material("Oak", Some("Oak Plywood"))));
}

#[test]
fn file_without_stanzas_is_an_empty_catalog() {
    let c = load_catalog(&CatalogFile::Stanzas(Vec::new())).unwrap();
    assert_eq!(c.len(), 0);
}

#[test]
fn stanza_is_framed_by_blank_lines() {
    assert_eq!(frame_stanza("[oak]\nname = \"Oak\"\n"), "\n[oak]\nname = \"Oak\"\n\n\n");
    assert_eq!(frame_stanza(""), "\n\n\n");
}

#[test]
fn failure_messages() {
    assert_eq!(Failure::StorageUnavailable.message(), "storage unavailable");
    assert_eq!(Failure::UnknownMaterial.message(), "unknown material, please select a valid one");
    assert_eq!(Failure::SlugConflict.message(), "a material with this name already exists");
    assert_eq!(Failure::InvalidTimestamp.message(), "timestamp out of range");
    assert_eq!(Failure::WriteFailed.message(), "the record could not be saved");
}

#[test]
fn failure_statuses() {
    assert_eq!(Failure::StorageUnavailable.status(), 503);
    assert_eq!(Failure::UnknownMaterial.status(), 422);
    assert_eq!(Failure::SlugConflict.status(), 409);
    assert_eq!(Failure::InvalidTimestamp.status(), 422);
    assert_eq!(Failure::WriteFailed.status(), 500);
}
