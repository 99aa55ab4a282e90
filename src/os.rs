//! The operating-system descriptor, the values that the segment's template
//! can show, and the decision whether the segment runs at all.

use crate::config::{default_table, OSConfig};
use crate::symbol_map::{map_contents, opt_view, resolve};
use vstd::prelude::*;

verus! {

/// The word size of the operating system, as far as it is known.
#[derive(Clone, Copy, Debug, PartialEq, Eq, Structural)]
pub enum Bitness {
    Unknown,
    X32,
    X64,
}

/// The version of the operating system.
#[derive(Clone, Debug, PartialEq, Eq)]
pub enum Version {
    Unknown,
    /// major.minor.patch
    Semantic(u64, u64, u64),
    /// A rolling release, with its date where one is known.
    Rolling(Option<String>),
    Custom(String),
}

/// What is known of the host operating system.
#[derive(Clone, Debug, PartialEq, Eq)]
pub struct OsInfo {
    /// The family's identifier, such as `Arch` or `Unknown`.
    pub os_type: String,
    /// The family's display name, such as `Arch Linux`.
    pub name: String,
    pub version: Version,
    pub edition: Option<String>,
    pub codename: Option<String>,
    pub bitness: Bitness,
}

/// The text that `os_info` shows for a bitness.
pub open spec fn bitness_label(b: Bitness) -> Seq<char> {
    match b {
        Bitness::Unknown => "unknown bitness"@,
        Bitness::X32 => "32-bit"@,
        Bitness::X64 => "64-bit"@,
    }
}

/// The decimal text `major.minor.patch`, as `os_info` writes a semantic version.
pub uninterp spec fn semantic_version_text(major: u64, minor: u64, patch: u64) -> Seq<char>;

/// The text that `os_info` shows for a version.
pub open spec fn version_label(v: Version) -> Seq<char> {
    match v {
        Version::Unknown => "Unknown"@,
        Version::Semantic(a, b, c) => semantic_version_text(a, b, c),
        Version::Rolling(None) => "Rolling Release"@,
        Version::Rolling(Some(d)) => "Rolling Release ("@ + d@ + ")"@,
        Version::Custom(s) => s@,
    }
}

/// Relies on the `Display` impl of `os_info::Bitness`.
#[verifier::external_body]
fn bitness_text(b: Bitness) -> (r: String)
    ensures
        r@ == bitness_label(b),
{
    let b = match b {
        Bitness::Unknown => os_info::Bitness::Unknown,
        Bitness::X32 => os_info::Bitness::X32,
        Bitness::X64 => os_info::Bitness::X64,
    };
    b.to_string()
}

/// Relies on the `Display` impl of `os_info::Version`.
#[verifier::external_body]
fn version_text(v: &Version) -> (r: String)
    ensures
        r@ == version_label(*v),
        *v matches Version::Semantic(a, b, c) ==> r@ == semantic_version_text(a, b, c),
{
    let v = match v.clone() {
        Version::Unknown => os_info::Version::Unknown,
        Version::Semantic(a, b, c) => os_info::Version::Semantic(a, b, c),
        Version::Rolling(d) => os_info::Version::Rolling(d),
        Version::Custom(s) => os_info::Version::Custom(s),
    };
    v.to_string()
}

/// A copy of an optional string.
fn copy_opt(o: &Option<String>) -> (r: Option<String>)
    ensures
        opt_view(r) == opt_view(*o),
{
    match o {
        Some(s) => Some(s.clone()),
        None => None,
    }
}

impl OsInfo {
    /// A descriptor of which nothing is known: family `Unknown`, unknown
    /// version and bitness, no edition or codename.
    pub fn unknown() -> (r: OsInfo)
        ensures
            r.os_type@ == "Unknown"@,
            r.name@ == "Unknown"@,
            r.version is Unknown,
            r.edition is None,
            r.codename is None,
            r.bitness == Bitness::Unknown,
    {
        OsInfo::with_type("Unknown", "Unknown")
    }

    /// A descriptor of the family `os_type`, shown as `name`, with nothing
    /// else known.
    pub fn with_type(os_type: &str, name: &str) -> (r: OsInfo)
        ensures
            r.os_type@ == os_type@,
            r.name@ == name@,
            r.version is Unknown,
            r.edition is None,
            r.codename is None,
            r.bitness == Bitness::Unknown,
    {
        OsInfo {
            os_type: os_type.to_owned(),
            name: name.to_owned(),
            version: Version::Unknown,
            edition: None,
            codename: None,
            bitness: Bitness::Unknown,
        }
    }
}

/// The symbol for the descriptor's family: the configured one, else the
/// built-in one, else none.
pub fn get_symbol(config: &OSConfig, os: &OsInfo) -> (r: Option<String>)
    ensures
        opt_view(r) == resolve(os.os_type@, map_contents(config.symbols), default_table()),
{
    match config.get_symbol(os.os_type.as_str()) {
        Some(s) => Some(s),
        None => OSConfig::default().get_symbol(os.os_type.as_str()),
    }
}

/// The bitness as text, or none where it is unknown.
pub fn get_bitness(os: &OsInfo) -> (r: Option<String>)
    ensures
        opt_view(r) == if os.bitness == Bitness::Unknown {
            None
        } else {
            Some(bitness_label(os.bitness))
        },
{
    if os.bitness == Bitness::Unknown {
        None
    } else {
        Some(bitness_text(os.bitness))
    }
}

/// The codename, where one is known.
pub fn get_codename(os: &OsInfo) -> (r: Option<String>)
    ensures
        opt_view(r) == opt_view(os.codename),
{
    copy_opt(&os.codename)
}

/// The edition, where one is known.
pub fn get_edition(os: &OsInfo) -> (r: Option<String>)
    ensures
        opt_view(r) == opt_view(os.edition),
{
    copy_opt(&os.edition)
}

/// The family's display name.
pub fn get_name(os: &OsInfo) -> (r: Option<String>)
    ensures
        opt_view(r) == Some(os.name@),
{
    Some(os.name.clone())
}

/// The family's identifier.
pub fn get_type(os: &OsInfo) -> (r: Option<String>)
    ensures
        opt_view(r) == Some(os.os_type@),
{
    Some(os.os_type.clone())
}

/// The version as text, or none where it is unknown.
pub fn get_version(os: &OsInfo) -> (r: Option<String>)
    ensures
        opt_view(r) == if os.version is Unknown {
            None
        } else {
            Some(version_label(os.version))
        },
{
    match &os.version {
        Version::Unknown => None,
        v => Some(version_text(v)),
    }
}

/// What the segment does next, given its configuration.
#[derive(Clone, Copy, Debug, PartialEq, Eq, Structural)]
pub enum ModuleStep {
    /// The segment is disabled: it shows nothing, and nothing is read.
    Hidden,
    /// Read the operating-system descriptor, then render.
    ReadOs,
}

/// The first step of the segment: a disabled segment stops here, before the
/// operating system is queried, whatever else the configuration says.
pub fn module(config: &OSConfig) -> (r: ModuleStep)
    ensures
        r == (if config.disabled { ModuleStep::Hidden } else { ModuleStep::ReadOs }),
        config.disabled <==> r == ModuleStep::Hidden,
{
    if config.disabled {
        ModuleStep::Hidden
    } else {
        ModuleStep::ReadOs
    }
}

/// The values that the segment's template variables stand for.
#[derive(Clone, Debug, PartialEq, Eq)]
pub struct SegmentValues {
    /// `$style`
    pub style: String,
    /// `$symbol`
    pub symbol: Option<String>,
    /// `$bitness`
    pub bitness: Option<String>,
    /// `$codename`
    pub codename: Option<String>,
    /// `$edition`
    pub edition: Option<String>,
    /// `$name`
    pub name: Option<String>,
    /// `$type`
    pub os_type: Option<String>,
    /// `$version`
    pub version: Option<String>,
}

/// The value of every template variable, for a descriptor that was read.
pub fn segment_values(config: &OSConfig, os: &OsInfo) -> (r: SegmentValues)
    ensures
        r.style@ == config.style@,
        opt_view(r.symbol) == resolve(os.os_type@, map_contents(config.symbols), default_table()),
        opt_view(r.bitness) == (if os.bitness == Bitness::Unknown { None } else { Some(bitness_label(os.bitness)) }),
        opt_view(r.codename) == opt_view(os.codename),
        opt_view(r.edition) == opt_view(os.edition),
        opt_view(r.name) == Some(os.name@),
        opt_view(r.os_type) == Some(os.os_type@),
        opt_view(r.version) == (if os.version is Unknown { None } else { Some(version_label(os.version)) }),
{
    SegmentValues {
        style: config.style.clone(),
        symbol: get_symbol(config, os),
        bitness: get_bitness(os),
        codename: get_codename(os),
        edition: get_edition(os),
        name: get_name(os),
        os_type: get_type(os),
        version: get_version(os),
    }
}

} // verus!
