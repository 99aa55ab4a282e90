use indexmap::IndexMap;
use os_segment::config::{default_symbols, OSConfig};
use os_segment::os::{
    get_bitness, get_codename, get_edition, get_name, get_symbol, get_type, get_version, module,
    segment_values, Bitness, ModuleStep, OsInfo, Version,
};
use os_segment::symbol_map::normalize_symbols;

fn raw(entries: &[(&str, &str)]) -> IndexMap<String, String> {
    let mut m = IndexMap::new();
    for (k, v) in entries {
        m.insert(k.to_string(), v.to_string());
    }
    m
}

fn with_symbols(entries: &[(&str, &str)]) -> OSConfig {
    OSConfig {
        symbols: normalize_symbols(&raw(entries)),
        ..OSConfig::default()
    }
}

fn symbol_of(config: &OSConfig, id: &str) -> Option<String> {
    get_symbol(config, &OsInfo::with_type(id, id))
}

#[test]
fn collision_later_key_wins() {
    let table = normalize_symbols(&raw(&[("Arch", "first"), ("arch", "second")]));
    assert_eq!(table.len(), 1);
    assert_eq!(table.get("arch").map(String::as_str), Some("second"));

    let table = normalize_symbols(&raw(&[("arch", "first"), ("ARCH", "second")]));
    assert_eq!(table.len(), 1);
    assert_eq!(table.get("arch").map(String::as_str), Some("second"));
}

#[test]
fn normalized_keys_are_lowercase_and_values_unchanged() {
    let table = normalize_symbols(&raw(&[("NixOS", "Snow "), ("Windows", "Win ")]));
    let keys: Vec<&str> = table.keys().map(String::as_str).collect();
    assert_eq!(keys, vec!["nixos", "windows"]);
    assert_eq!(table.get("nixos").map(String::as_str), Some("Snow "));
    assert_eq!(table.get("windows").map(String::as_str), Some("Win "));
}

#[test]
fn empty_raw_table_gives_empty_table() {
    let table = normalize_symbols(&IndexMap::new());
    assert!(table.is_empty());
}

#[test]
fn override_casing_does_not_matter() {
    for key in ["Arch", "arch", "ARCH", "aRcH"] {
        let config = with_symbols(&[(key, "X")]);
        assert_eq!(symbol_of(&config, "Arch").as_deref(), Some("X"));
    }
}

#[test]
fn lookup_casing_does_not_matter() {
    let config = OSConfig::default();
    assert_eq!(config.get_symbol("Macos").as_deref(), Some("\u{1f34e} "));
    assert_eq!(config.get_symbol("MACOS").as_deref(), Some("\u{1f34e} "));
    assert_eq!(config.get_symbol("macos").as_deref(), Some("\u{1f34e} "));
    assert_eq!(config.get_symbol("Plan9"), None);
}

#[test]
fn override_wins_over_default() {
    let config = with_symbols(&[("Arch", "X")]);
    assert_eq!(symbol_of(&config, "Arch").as_deref(), Some("X"));
    assert_eq!(symbol_of(&config, "Debian").as_deref(), Some("\u{1f300} "));
}

#[test]
fn empty_override_is_kept() {
    let config = with_symbols(&[("Unknown", "")]);
    assert_eq!(symbol_of(&config, "Unknown").as_deref(), Some(""));
}

#[test]
fn unlisted_identifier_has_no_symbol() {
    let config = OSConfig::default();
    assert_eq!(symbol_of(&config, "Alpaquita"), None);
    let config = with_symbols(&[("Alpaquita", "A ")]);
    assert_eq!(symbol_of(&config, "Alpaquita").as_deref(), Some("A "));
}

#[test]
fn default_table_covers_every_family() {
    let table = default_symbols();
    assert_eq!(table.len(), 36);
    assert!(table.keys().all(|k| k.to_lowercase() == *k));
    assert_eq!(table.get("garuda").map(String::as_str), Some("\u{1f985} "));
    assert_eq!(table.get("unknown").map(String::as_str), Some("\u{2753} "));
}

#[test]
fn default_config_values() {
    let config = OSConfig::default();
    assert_eq!(config.format, "[$symbol]($style)");
    assert_eq!(config.style, "bold white");
    assert!(config.disabled);
}

#[test]
fn disabled_segment_stops_before_reading() {
    let config = OSConfig {
        format: "[$symbol $version]($style)".to_string(),
        style: "red".to_string(),
        ..with_symbols(&[("Arch", "X")])
    };
    assert_eq!(module(&config), ModuleStep::Hidden);
    let enabled = OSConfig {
        disabled: false,
        ..config
    };
    assert_eq!(module(&enabled), ModuleStep::ReadOs);
}

#[test]
fn bitness_text() {
    let mut os = OsInfo::unknown();
    assert_eq!(get_bitness(&os), None);
    os.bitness = Bitness::X64;
    assert_eq!(get_bitness(&os).as_deref(), Some("64-bit"));
    os.bitness = Bitness::X32;
    assert_eq!(get_bitness(&os).as_deref(), Some("32-bit"));
}

#[test]
fn version_text() {
    let mut os = OsInfo::unknown();
    assert_eq!(get_version(&os), None);
    os.version = Version::Semantic(22, 4, 1);
    assert_eq!(get_version(&os).as_deref(), Some("22.4.1"));
    os.version = Version::Rolling(None);
    assert_eq!(get_version(&os).as_deref(), Some("Rolling Release"));
    os.version = Version::Rolling(Some("2024-01-01".to_string()));
    assert_eq!(get_version(&os).as_deref(), Some("Rolling Release (2024-01-01)"));
    os.version = Version::Custom("sid".to_string());
    assert_eq!(get_version(&os).as_deref(), Some("sid"));
}

#[test]
fn codename_edition_name_type() {
    let mut os = OsInfo::with_type("Ubuntu", "Ubuntu");
    assert_eq!(get_codename(&os), None);
    assert_eq!(get_edition(&os), None);
    os.codename = Some("jammy".to_string());
    os.edition = Some("Server".to_string());
    assert_eq!(get_codename(&os).as_deref(), Some("jammy"));
    assert_eq!(get_edition(&os).as_deref(), Some("Server"));
    let arch = OsInfo::with_type("Arch", "Arch Linux");
    assert_eq!(get_name(&arch).as_deref(), Some("Arch Linux"));
    assert_eq!(get_type(&arch).as_deref(), Some("Arch"));
}

#[test]
fn values_for_configured_arch() {
    let config = OSConfig {
        disabled: false,
        ..with_symbols(&[("Arch", "X")])
    };
    let mut os = OsInfo::with_type("Arch", "Arch Linux");
    os.bitness = Bitness::X64;
    os.version = Version::Rolling(None);
    let v = segment_values(&config, &os);
    assert_eq!(v.symbol.as_deref(), Some("X"));
    assert_eq!(v.bitness.as_deref(), Some("64-bit"));
    assert_eq!(v.name.as_deref(), Some("Arch Linux"));
    assert_eq!(v.os_type.as_deref(), Some("Arch"));
    assert_eq!(v.version.as_deref(), Some("Rolling Release"));
    assert_eq!(v.codename, None);
    assert_eq!(v.style, "bold white");
}
