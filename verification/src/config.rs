//! Settings stored in `idm.ini`, keyed by names such as `DOWNLOAD_PATH`: the
//! part before the first underscore names the section, the rest the option,
//! both lower-cased (`DOWNLOAD_PATH` is option `path` of section `[download]`).

use vstd::prelude::*;
use vstd::string::*;

use ini::Ini;
use std::path::PathBuf;

use crate::text::{
    ascii_lower_char, ascii_lowercase, chars_of, first_from, is_first_from, lemma_first_from_unique, find_char_from, lowercase, same_text, to_lowercase,
};
use vstd::utf8::is_ascii_chars;

verus! {

#[verifier::external_type_specification]
#[verifier::external_body]
pub struct ExIni(Ini);

#[verifier::external_type_specification]
#[verifier::external_body]
pub struct ExPathBuf(PathBuf);

/// What an `ini::Ini` holds, as `Ini::get_from` reads it: for each section
/// (`None` for the general one) and key, the first value of that key in the
/// first block of that section.
pub uninterp spec fn ini_entries(ini: Ini) -> Map<(Option<Seq<char>>, Seq<char>), Seq<char>>;

/// The value stored under `(section, key)`, if any.
pub open spec fn entry_of(
    m: Map<(Option<Seq<char>>, Seq<char>), Seq<char>>,
    section: Seq<char>,
    key: Seq<char>,
) -> Option<Seq<char>> {
    if m.dom().contains((Some(section), key)) {
        Some(m[(Some(section), key)])
    } else {
        None
    }
}

/// Calls `Ini::get_from` on a named section: the first value of `key` in the
/// first block named `section`, or `None`.
#[verifier::external_body]
fn ini_get_from(ini: &Ini, section: &str, key: &str) -> (r: Option<String>)
    ensures
        match r {
            Some(v) => entry_of(ini_entries(*ini), section@, key@) == Some(v@),
            None => entry_of(ini_entries(*ini), section@, key@) is None,
        },
{
    match ini.get_from(Some(section), key) {
        Some(v) => Some(v.to_string()),
        None => None,
    }
}

/// Calls `Ini::set_to` on a named section. The source replaces every value of
/// `key` in the first block named `section` (creating that block when there
/// is none) by `value`, and touches nothing else: the entry of
/// `(section, key)` becomes `value` and every other entry stays.
#[verifier::external_body]
fn ini_set_to(ini: &mut Ini, section: &str, key: &str, value: &str)
    ensures
        ini_entries(*final(ini)) == ini_entries(*old(ini)).insert((Some(section@), key@), value@),
{
    ini.set_to(Some(section), key.to_string(), value.to_string())
}

/// The section and option that a settings key names: around the first `_`,
/// or the whole key for both when it has none; both lower-cased.
pub open spec fn spec_split_key(key: Seq<char>) -> (Seq<char>, Seq<char>) {
    match first_from(key, '_', 0) {
        Some(i) => (lowercase(key.take(i)), lowercase(key.skip(i + 1))),
        None => (lowercase(key), lowercase(key)),
    }
}

/// For an ASCII key, the section and option that it names, lower-cased the
/// ASCII way.
pub open spec fn spec_split_key_ascii(key: Seq<char>) -> (Seq<char>, Seq<char>) {
    match first_from(key, '_', 0) {
        Some(i) => (ascii_lowercase(key.take(i)), ascii_lowercase(key.skip(i + 1))),
        None => (ascii_lowercase(key), ascii_lowercase(key)),
    }
}

/// The section and option that `key` names: `DOWNLOAD_PATH` gives
/// `("download", "path")`; a key without `_` names itself twice.
pub fn split_key(key: &str) -> (r: (String, String))
    ensures
        (r.0@, r.1@) == spec_split_key(key@),
        is_ascii_chars(key@) ==> (r.0@, r.1@) == spec_split_key_ascii(key@),
{
    let chars = chars_of(key);
    let n = chars.len();
    match find_char_from(&chars, '_', 0) {
        Some(i) => {
            let section = key.substring_char(0, i);
            let option = key.substring_char(i + 1, n);
            assert(key@.take(i as int) =~= key@.subrange(0, i as int));
            assert(key@.skip(i + 1) =~= key@.subrange(i + 1, key@.len() as int));
            assert(is_ascii_chars(key@) ==> is_ascii_chars(section@) && is_ascii_chars(option@))
                by {
                if is_ascii_chars(key@) {
                    assert forall|j: int| 0 <= j < section@.len() implies '\0' <= #[trigger] section@[j]
                        <= '\u{7f}' by {
                        assert(section@[j] == key@[j]);
                    }
                    assert forall|j: int| 0 <= j < option@.len() implies '\0' <= #[trigger] option@[j]
                        <= '\u{7f}' by {
                        assert(option@[j] == key@[i + 1 + j]);
                    }
                }
            }
            (to_lowercase(section), to_lowercase(option))
        },
        None => (to_lowercase(key), to_lowercase(key)),
    }
}

/// Whether a lower-cased setting value counts as true.
pub open spec fn is_truthy(v: Seq<char>) -> bool {
    ||| v == "1"@
    ||| v == "true"@
    ||| v == "yes"@
    ||| v == "on"@
}

/// Whether an already lower-cased setting value counts as true: it is "1",
/// "true", "yes" or "on".
pub fn is_true_word(lower: &str) -> (r: bool)
    ensures
        r == is_truthy(lower@),
{
    same_text(lower, "1") || same_text(lower, "true") || same_text(lower, "yes") || same_text(
        lower,
        "on",
    )
}

/// Whether a setting value counts as true: "1", "true", "yes" or "on", in
/// any case.
pub fn truthy(v: &str) -> (r: bool)
    ensures
        r == is_truthy(lowercase(v@)),
        is_ascii_chars(v@) ==> r == is_truthy(ascii_lowercase(v@)),
{
    let lower = to_lowercase(v);
    is_true_word(lower.as_str())
}

/// The settings of `idm.ini`, with the path of the file they come from.
pub struct Config {
    path: PathBuf,
    ini: Ini,
}

/// What `Config::get` gives for `key` over the entries `m`.
pub open spec fn lookup(m: Map<(Option<Seq<char>>, Seq<char>), Seq<char>>, key: Seq<char>) -> Option<
    Seq<char>,
> {
    entry_of(m, spec_split_key(key).0, spec_split_key(key).1)
}

/// The entries after `write_config(section, option, value)`.
pub open spec fn written(
    m: Map<(Option<Seq<char>>, Seq<char>), Seq<char>>,
    section: Seq<char>,
    option: Seq<char>,
    value: Seq<char>,
) -> Map<(Option<Seq<char>>, Seq<char>), Seq<char>> {
    m.insert((Some(lowercase(section)), lowercase(option)), value)
}

/// What `Config::get_bool` gives for `key` over the entries `m`.
pub open spec fn lookup_bool(m: Map<(Option<Seq<char>>, Seq<char>), Seq<char>>, key: Seq<char>) -> bool {
    match lookup(m, key) {
        Some(v) => is_truthy(lowercase(v)),
        None => false,
    }
}

/// What `Config::get` gives for an ASCII `key` over the entries `m`.
pub open spec fn lookup_ascii(m: Map<(Option<Seq<char>>, Seq<char>), Seq<char>>, key: Seq<char>) -> Option<
    Seq<char>,
> {
    entry_of(m, spec_split_key_ascii(key).0, spec_split_key_ascii(key).1)
}

/// The entries after `write_config(section, option, value)` with an ASCII
/// section and option.
pub open spec fn written_ascii(
    m: Map<(Option<Seq<char>>, Seq<char>), Seq<char>>,
    section: Seq<char>,
    option: Seq<char>,
    value: Seq<char>,
) -> Map<(Option<Seq<char>>, Seq<char>), Seq<char>> {
    m.insert((Some(ascii_lowercase(section)), ascii_lowercase(option)), value)
}

/// What `Config::get_bool` gives for an ASCII `key` over the entries `m`.
pub open spec fn lookup_bool_ascii(m: Map<(Option<Seq<char>>, Seq<char>), Seq<char>>, key: Seq<char>) -> bool {
    match lookup_ascii(m, key) {
        Some(v) => if is_ascii_chars(v) {
            is_truthy(ascii_lowercase(v))
        } else {
            is_truthy(lowercase(v))
        },
        None => false,
    }
}

impl Config {
    /// The entries of the settings.
    pub closed spec fn entries(&self) -> Map<(Option<Seq<char>>, Seq<char>), Seq<char>> {
        ini_entries(self.ini)
    }

    /// The path of the settings file.
    pub closed spec fn spec_path(&self) -> PathBuf {
        self.path
    }

    /// The settings held in `ini`, kept in the file at `path`.
    pub fn from_ini(path: PathBuf, ini: Ini) -> (r: Self)
        ensures
            r.entries() == ini_entries(ini),
            r.spec_path() == path,
    {
        Config { path, ini }
    }

    /// The path of the settings file.
    pub fn path(&self) -> (r: &PathBuf)
        ensures
            *r == self.spec_path(),
    {
        &self.path
    }

    /// The settings as an `Ini` document, to be saved.
    pub fn ini(&self) -> (r: &Ini)
        ensures
            ini_entries(*r) == self.entries(),
    {
        &self.ini
    }

    /// The value of `key` (such as `DOWNLOAD_PATH`), or `None` if unset.
    pub fn get(&self, key: &str) -> (r: Option<String>)
        ensures
            opt_value(r) == lookup(self.entries(), key@),
            is_ascii_chars(key@) ==> opt_value(r) == lookup_ascii(self.entries(), key@),
    {
        let (section, option) = split_key(key);
        ini_get_from(&self.ini, section.as_str(), option.as_str())
    }

    /// Whether `key` is set to a value that counts as true ("1", "true",
    /// "yes" or "on", in any case); `false` when unset.
    pub fn get_bool(&self, key: &str) -> (r: bool)
        ensures
            r == lookup_bool(self.entries(), key@),
            is_ascii_chars(key@) ==> r == lookup_bool_ascii(self.entries(), key@),
    {
        match self.get(key) {
            Some(v) => truthy(v.as_str()),
            None => false,
        }
    }

    /// Sets `option` of `section` (both lower-cased) to `value`.
    pub fn write_config(&mut self, section: &str, option: &str, value: &str)
        ensures
            final(self).entries() == written(old(self).entries(), section@, option@, value@),
            is_ascii_chars(section@) && is_ascii_chars(option@) ==> final(self).entries()
                == written_ascii(old(self).entries(), section@, option@, value@),
            final(self).spec_path() == old(self).spec_path(),
    {
        let s = to_lowercase(section);
        let o = to_lowercase(option);
        ini_set_to(&mut self.ini, s.as_str(), o.as_str(), value);
    }
}

/// The text an optional string holds, if any.
pub open spec fn opt_value(o: Option<String>) -> Option<Seq<char>> {
    match o {
        Some(s) => Some(s@),
        None => None,
    }
}

/// A written setting is read back: after `write_config(section, option,
/// value)`, every key that names that section and option gives `value`.
pub proof fn lemma_get_after_write(
    m: Map<(Option<Seq<char>>, Seq<char>), Seq<char>>,
    section: Seq<char>,
    option: Seq<char>,
    value: Seq<char>,
    key: Seq<char>,
)
    requires
        spec_split_key(key) == (lowercase(section), lowercase(option)),
    ensures
        lookup(written(m, section, option, value), key) == Some(value),
{
}

/// Writing a setting leaves every key that names another section or option
/// as it was.
pub proof fn lemma_write_keeps_others(
    m: Map<(Option<Seq<char>>, Seq<char>), Seq<char>>,
    section: Seq<char>,
    option: Seq<char>,
    value: Seq<char>,
    key: Seq<char>,
)
    requires
        spec_split_key(key) != (lowercase(section), lowercase(option)),
    ensures
        lookup(written(m, section, option, value), key) == lookup(m, key),
{
}

/// With ASCII names, a written setting is read back: after
/// `write_config(section, option, value)`, every ASCII key that names that
/// section and option in any case gives `value`.
pub proof fn lemma_get_after_write_ascii(
    m: Map<(Option<Seq<char>>, Seq<char>), Seq<char>>,
    section: Seq<char>,
    option: Seq<char>,
    value: Seq<char>,
    key: Seq<char>,
)
    requires
        spec_split_key_ascii(key) == (ascii_lowercase(section), ascii_lowercase(option)),
    ensures
        lookup_ascii(written_ascii(m, section, option, value), key) == Some(value),
{
}

/// ASCII lower-casing keeps `_`, and makes nothing else `_`.
proof fn lemma_ascii_lower_underscore(c: char)
    ensures
        (ascii_lower_char(c) == '_') == (c == '_'),
{
}

/// Lower-casing commutes with cutting a text.
proof fn lemma_ascii_lowercase_cut(s: Seq<char>, i: int)
    requires
        0 <= i <= s.len(),
    ensures
        ascii_lowercase(s.take(i)) == ascii_lowercase(s).take(i),
        ascii_lowercase(s.skip(i)) == ascii_lowercase(s).skip(i),
{
    assert(ascii_lowercase(s.take(i)) =~= ascii_lowercase(s).take(i));
    assert(ascii_lowercase(s.skip(i)) =~= ascii_lowercase(s).skip(i));
}

/// The first `_` of a key sits where the first `_` of its lower-cased form
/// does.
proof fn lemma_first_underscore_lowercase(k: Seq<char>)
    ensures
        first_from(k, '_', 0) == first_from(ascii_lowercase(k), '_', 0),
{
    let l = ascii_lowercase(k);
    assert forall|j: int| 0 <= j < k.len() implies (#[trigger] l[j] == '_') == (k[j] == '_') by {
        lemma_ascii_lower_underscore(k[j]);
    }
    if exists|i: int| is_first_from(k, '_', 0, i) {
        let i = choose|i: int| is_first_from(k, '_', 0, i);
        assert(is_first_from(l, '_', 0, i));
        lemma_first_from_unique(k, '_', 0, i);
        lemma_first_from_unique(l, '_', 0, i);
    } else if exists|i: int| is_first_from(l, '_', 0, i) {
        let i = choose|i: int| is_first_from(l, '_', 0, i);
        assert(l.len() == k.len());
        assert forall|j: int| 0 <= j < i implies k[j] != '_' by {
            assert(l[j] != '_');
        }
        assert(l[i] == '_');
        assert(is_first_from(k, '_', 0, i));
    }
}

/// Keys that differ only in ASCII case name the same setting: an ASCII key,
/// its upper-cased and its lower-cased forms all read the same value.
pub proof fn lemma_key_case_insensitive(
    m: Map<(Option<Seq<char>>, Seq<char>), Seq<char>>,
    k1: Seq<char>,
    k2: Seq<char>,
)
    requires
        ascii_lowercase(k1) == ascii_lowercase(k2),
    ensures
        spec_split_key_ascii(k1) == spec_split_key_ascii(k2),
        lookup_ascii(m, k1) == lookup_ascii(m, k2),
{
    lemma_first_underscore_lowercase(k1);
    lemma_first_underscore_lowercase(k2);
    match first_from(k1, '_', 0) {
        Some(i) => {
            lemma_ascii_lowercase_cut(k1, i);
            lemma_ascii_lowercase_cut(k2, i);
            lemma_ascii_lowercase_cut(k1, i + 1);
            lemma_ascii_lowercase_cut(k2, i + 1);
        },
        None => {},
    }
}

} // verus!
