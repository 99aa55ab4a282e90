//! The segment's configuration, and the built-in table of symbols.

use crate::symbol_map::{
    lookup, lower_of, lowercase, map_contents, map_get, map_insert, map_new, map_wf, opt_view,
    resolve, SymbolMap,
};
use vstd::prelude::*;

verus! {

/// The configuration of the `os` segment.
pub struct OSConfig {
    /// The template that the segment renders.
    pub format: String,
    /// The style that the template's `$style` stands for.
    pub style: String,
    /// Symbols per operating-system identifier, keyed by lowercase form.
    pub symbols: SymbolMap,
    /// When set, the segment shows nothing.
    pub disabled: bool,
}

/// The built-in symbols, keyed by the lowercase form of each identifier.
pub open spec fn default_table() -> Map<Seq<char>, Seq<char>> {
    Map::empty()
        .insert(lower_of("Alpine"@), "🏔️ "@)
        .insert(lower_of("Amazon"@), "🙂 "@)
        .insert(lower_of("Android"@), "🤖 "@)
        .insert(lower_of("Arch"@), "🎗️ "@)
        .insert(lower_of("CentOS"@), "💠 "@)
        .insert(lower_of("Debian"@), "🌀 "@)
        .insert(lower_of("DragonFly"@), "🐉 "@)
        .insert(lower_of("Emscripten"@), "🔗 "@)
        .insert(lower_of("EndeavourOS"@), "🚀 "@)
        .insert(lower_of("Fedora"@), "🎩 "@)
        .insert(lower_of("FreeBSD"@), "😈 "@)
        .insert(lower_of("Garuda"@), "🦅 "@)
        .insert(lower_of("Gentoo"@), "🗜️ "@)
        .insert(lower_of("HardenedBSD"@), "🛡️ "@)
        .insert(lower_of("Illumos"@), "🐦 "@)
        .insert(lower_of("Linux"@), "🐧 "@)
        .insert(lower_of("Macos"@), "🍎 "@)
        .insert(lower_of("Manjaro"@), "🥭 "@)
        .insert(lower_of("Mariner"@), "🌊 "@)
        .insert(lower_of("MidnightBSD"@), "🌘 "@)
        .insert(lower_of("Mint"@), "🌿 "@)
        .insert(lower_of("NetBSD"@), "🚩 "@)
        .insert(lower_of("NixOS"@), "❄️ "@)
        .insert(lower_of("OpenBSD"@), "🐡 "@)
        .insert(lower_of("openSUSE"@), "🦎 "@)
        .insert(lower_of("OracleLinux"@), "🦴 "@)
        .insert(lower_of("Pop"@), "🍭 "@)
        .insert(lower_of("Raspbian"@), "🍓 "@)
        .insert(lower_of("Redhat"@), "🎩 "@)
        .insert(lower_of("RedHatEnterprise"@), "🎩 "@)
        .insert(lower_of("Redox"@), "🧪 "@)
        .insert(lower_of("Solus"@), "⛵ "@)
        .insert(lower_of("SUSE"@), "🦎 "@)
        .insert(lower_of("Ubuntu"@), "🎯 "@)
        .insert(lower_of("Unknown"@), "❓ "@)
        .insert(lower_of("Windows"@), "🪟 "@)
}

/// The operating-system identifiers that the built-in table covers.
pub open spec fn known_os_type(id: Seq<char>) -> bool {
    ||| id == "Alpine"@
    ||| id == "Amazon"@
    ||| id == "Android"@
    ||| id == "Arch"@
    ||| id == "CentOS"@
    ||| id == "Debian"@
    ||| id == "DragonFly"@
    ||| id == "Emscripten"@
    ||| id == "EndeavourOS"@
    ||| id == "Fedora"@
    ||| id == "FreeBSD"@
    ||| id == "Garuda"@
    ||| id == "Gentoo"@
    ||| id == "HardenedBSD"@
    ||| id == "Illumos"@
    ||| id == "Linux"@
    ||| id == "Macos"@
    ||| id == "Manjaro"@
    ||| id == "Mariner"@
    ||| id == "MidnightBSD"@
    ||| id == "Mint"@
    ||| id == "NetBSD"@
    ||| id == "NixOS"@
    ||| id == "OpenBSD"@
    ||| id == "openSUSE"@
    ||| id == "OracleLinux"@
    ||| id == "Pop"@
    ||| id == "Raspbian"@
    ||| id == "Redhat"@
    ||| id == "RedHatEnterprise"@
    ||| id == "Redox"@
    ||| id == "Solus"@
    ||| id == "SUSE"@
    ||| id == "Ubuntu"@
    ||| id == "Unknown"@
    ||| id == "Windows"@
}

/// The built-in table of symbols, keyed by lowercase identifier.
pub fn default_symbols() -> (r: SymbolMap)
    ensures
        map_contents(r) == default_table(),
        map_wf(r),
{
    let mut m = map_new();
    map_insert(&mut m, lowercase("Alpine"), "🏔️ ".to_owned());
    map_insert(&mut m, lowercase("Amazon"), "🙂 ".to_owned());
    map_insert(&mut m, lowercase("Android"), "🤖 ".to_owned());
    map_insert(&mut m, lowercase("Arch"), "🎗️ ".to_owned());
    map_insert(&mut m, lowercase("CentOS"), "💠 ".to_owned());
    map_insert(&mut m, lowercase("Debian"), "🌀 ".to_owned());
    map_insert(&mut m, lowercase("DragonFly"), "🐉 ".to_owned());
    map_insert(&mut m, lowercase("Emscripten"), "🔗 ".to_owned());
    map_insert(&mut m, lowercase("EndeavourOS"), "🚀 ".to_owned());
    map_insert(&mut m, lowercase("Fedora"), "🎩 ".to_owned());
    map_insert(&mut m, lowercase("FreeBSD"), "😈 ".to_owned());
    map_insert(&mut m, lowercase("Garuda"), "🦅 ".to_owned());
    map_insert(&mut m, lowercase("Gentoo"), "🗜️ ".to_owned());
    map_insert(&mut m, lowercase("HardenedBSD"), "🛡️ ".to_owned());
    map_insert(&mut m, lowercase("Illumos"), "🐦 ".to_owned());
    map_insert(&mut m, lowercase("Linux"), "🐧 ".to_owned());
    map_insert(&mut m, lowercase("Macos"), "🍎 ".to_owned());
    map_insert(&mut m, lowercase("Manjaro"), "🥭 ".to_owned());
    map_insert(&mut m, lowercase("Mariner"), "🌊 ".to_owned());
    map_insert(&mut m, lowercase("MidnightBSD"), "🌘 ".to_owned());
    map_insert(&mut m, lowercase("Mint"), "🌿 ".to_owned());
    map_insert(&mut m, lowercase("NetBSD"), "🚩 ".to_owned());
    map_insert(&mut m, lowercase("NixOS"), "❄️ ".to_owned());
    map_insert(&mut m, lowercase("OpenBSD"), "🐡 ".to_owned());
    map_insert(&mut m, lowercase("openSUSE"), "🦎 ".to_owned());
    map_insert(&mut m, lowercase("OracleLinux"), "🦴 ".to_owned());
    map_insert(&mut m, lowercase("Pop"), "🍭 ".to_owned());
    map_insert(&mut m, lowercase("Raspbian"), "🍓 ".to_owned());
    map_insert(&mut m, lowercase("Redhat"), "🎩 ".to_owned());
    map_insert(&mut m, lowercase("RedHatEnterprise"), "🎩 ".to_owned());
    map_insert(&mut m, lowercase("Redox"), "🧪 ".to_owned());
    map_insert(&mut m, lowercase("Solus"), "⛵ ".to_owned());
    map_insert(&mut m, lowercase("SUSE"), "🦎 ".to_owned());
    map_insert(&mut m, lowercase("Ubuntu"), "🎯 ".to_owned());
    map_insert(&mut m, lowercase("Unknown"), "❓ ".to_owned());
    map_insert(&mut m, lowercase("Windows"), "🪟 ".to_owned());
    m
}

impl Default for OSConfig {
    fn default() -> (r: Self)
        ensures
            r.format@ == "[$symbol]($style)"@,
            r.style@ == "bold white"@,
            map_contents(r.symbols) == default_table(),
            map_wf(r.symbols),
            r.disabled,
    {
        OSConfig {
            format: "[$symbol]($style)".to_owned(),
            style: "bold white".to_owned(),
            symbols: default_symbols(),
            disabled: true,
        }
    }
}

impl OSConfig {
    /// The configured symbol for `key`, in any casing of it.
    pub fn get_symbol(&self, key: &str) -> (r: Option<String>)
        ensures
            opt_view(r) == lookup(map_contents(self.symbols), lower_of(key@)),
    {
        let k = lowercase(key);
        map_get(&self.symbols, k.as_str())
    }
}

/// With no user entries, every identifier that the built-in table covers
/// resolves to a symbol, in any casing of it.
pub proof fn lemma_default_complete(id: Seq<char>, cased: Seq<char>)
    requires
        known_os_type(id),
        lower_of(cased) == lower_of(id),
    ensures
        resolve(cased, Map::empty(), default_table()) is Some,
{
}

} // verus!
