use std::io::Write;
use weave_launcher::config::{read_mod_config, ModConfig};
use weave_launcher::error::Error;

fn archive_with(entries: &[(&str, &[u8])]) -> Vec<u8> {
    let mut w = zip::ZipWriter::new(std::io::Cursor::new(Vec::new()));
    for (name, content) in entries {
        w.start_file(*name, zip::write::SimpleFileOptions::default()).unwrap();
        w.write_all(content).unwrap();
    }
    w.finish().unwrap().into_inner()
}

fn assert_default(cfg: &ModConfig) {
    assert_eq!(cfg.name, "undefined");
    assert_eq!(cfg.version, "undefined");
    assert_eq!(cfg.description, "undefined");
    assert!(cfg.authors.is_empty());
}

#[test]
fn missing_entry_yields_the_default_config() {
    let bytes = archive_with(&[("other.txt", b"hello")]);
    let cfg = read_mod_config(&bytes).unwrap().unwrap();
    assert_default(&cfg);
}

#[test]
fn empty_archive_yields_the_default_config() {
    let bytes = archive_with(&[]);
    let cfg = read_mod_config(&bytes).unwrap().unwrap();
    assert_default(&cfg);
}

#[test]
fn well_formed_entry_is_decoded() {
    let json = br#"{"name":"example","version":"1.2.3","description":"a mod","authors":["a","b"]}"#;
    let bytes = archive_with(&[("weave.mod.json", json)]);
    let cfg = read_mod_config(&bytes).unwrap().unwrap();
    assert_eq!(cfg.name, "example");
    assert_eq!(cfg.version, "1.2.3");
    assert_eq!(cfg.description, "a mod");
    assert_eq!(cfg.authors, vec!["a".to_string(), "b".to_string()]);
}

#[test]
fn extra_fields_are_tolerated() {
    let json = br#"{"name":"n","version":"v","description":"d","authors":[],"homepage":"x"}"#;
    let bytes = archive_with(&[("weave.mod.json", json)]);
    let cfg = read_mod_config(&bytes).unwrap().unwrap();
    assert_eq!(cfg.name, "n");
    assert!(cfg.authors.is_empty());
}

#[test]
fn malformed_entry_falls_back_to_the_default_config() {
    let bytes = archive_with(&[("weave.mod.json", b"{ not json at all")]);
    let cfg = read_mod_config(&bytes).unwrap().unwrap();
    assert_default(&cfg);
}

#[test]
fn entry_with_missing_fields_falls_back_to_the_default_config() {
    let json = br#"{"name":"only a name"}"#;
    let bytes = archive_with(&[("weave.mod.json", json)]);
    let cfg = read_mod_config(&bytes).unwrap().unwrap();
    assert_default(&cfg);
}

#[test]
fn entry_with_wrongly_typed_fields_falls_back_to_the_default_config() {
    let json = br#"{"name":1,"version":2,"description":3,"authors":"x"}"#;
    let bytes = archive_with(&[("weave.mod.json", json)]);
    let cfg = read_mod_config(&bytes).unwrap().unwrap();
    assert_default(&cfg);
}

#[test]
fn corrupt_container_is_a_zip_error() {
    let bytes = b"this is not a zip archive".to_vec();
    let err = read_mod_config(&bytes).unwrap_err();
    assert!(matches!(err, Error::Zip(_)));
    assert!(err.message().starts_with("Zip Error: "));
}

#[test]
fn default_config_constructor_uses_sentinels() {
    let cfg = ModConfig::default();
    assert_default(&cfg);
}
