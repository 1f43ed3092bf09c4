use vstd::prelude::*;

verus! {

/// Windows language id of English (United States) executables.
pub const LANG_ID_EN: u16 = 0x0409;

/// Windows language id of Japanese executables.
pub const LANG_ID_JP: u16 = 0x0411;

/// The Dark Souls III executables this crate supports.
#[derive(Debug, Clone, Copy, PartialEq, Eq, Structural)]
pub enum DS3GameVersion {
    /// Worldwide release, version 1.15.2.0.
    Ww1152,
    /// Japanese release, version 1.15.2.1.
    Jp11521,
}

/// The supported executable with language `lang_id` and file version
/// `version`, if there is one.
pub open spec fn version_of(lang_id: u16, version: Seq<char>) -> Option<DS3GameVersion> {
    if lang_id == LANG_ID_EN && version == "1.15.2.0"@ {
        Some(DS3GameVersion::Ww1152)
    } else if lang_id == LANG_ID_JP && version == "1.15.2.1"@ {
        Some(DS3GameVersion::Jp11521)
    } else {
        None
    }
}

/// Whether two strings hold the same characters.
fn same_chars(a: &str, b: &str) -> (same: bool)
    ensures
        same == (a@ == b@),
{
    let n = a.unicode_len();
    if n != b.unicode_len() {
        return false;
    }
    let mut i: usize = 0;
    while i < n
        invariant
            n == a@.len(),
            n == b@.len(),
            0 <= i <= n,
            forall|j: int| 0 <= j < i ==> a@[j] == b@[j],
        decreases n - i,
    {
        if a.get_char(i) != b.get_char(i) {
            return false;
        }
        i = i + 1;
    }
    assert(a@ =~= b@);
    true
}

impl DS3GameVersion {
    /// The supported executable with language `lang_id` and file version
    /// `version`; `None` for any other executable.
    pub fn from_lang_version(lang_id: u16, version: &str) -> (r: Option<Self>)
        ensures
            r == version_of(lang_id, version@),
    {
        if lang_id == LANG_ID_EN && same_chars(version, "1.15.2.0") {
            Some(DS3GameVersion::Ww1152)
        } else if lang_id == LANG_ID_JP && same_chars(version, "1.15.2.1") {
            Some(DS3GameVersion::Jp11521)
        } else {
            None
        }
    }
}

/// Only the exact versions "1.15.2.0" (English) and "1.15.2.1" (Japanese)
/// are recognised: any recognised version is one of these strings, with the
/// matching language id, and every other string (in particular any string
/// whose length is not 8 characters) is recognised as nothing.
pub proof fn lemma_only_exact_versions(lang_id: u16, version: Seq<char>)
    ensures
        version_of(lang_id, version) == Some(DS3GameVersion::Ww1152) ==> lang_id == 0x0409u16
            && version == "1.15.2.0"@,
        version_of(lang_id, version) == Some(DS3GameVersion::Jp11521) ==> lang_id == 0x0411u16
            && version == "1.15.2.1"@,
        version_of(lang_id, version) is Some ==> version == "1.15.2.0"@ || version == "1.15.2.1"@,
        version.len() != 8 ==> version_of(lang_id, version) is None,
        (lang_id == 0x0409u16 && version == "1.15.2.0"@) ==> version_of(lang_id, version) == Some(
            DS3GameVersion::Ww1152,
        ),
        (lang_id == 0x0411u16 && version == "1.15.2.1"@) ==> version_of(lang_id, version) == Some(
            DS3GameVersion::Jp11521,
        ),
{
    reveal_strlit("1.15.2.0");
    reveal_strlit("1.15.2.1");
}

} // verus!
