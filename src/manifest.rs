//! The application manifest: the binaries a project declares, without those
//! gated behind an excluded feature.
use vstd::prelude::*;
use crate::error::CritError;
use crate::pattern::{regex_finds, Pattern};
use crate::toml_doc::{field, field_of, lookup, lookup_key, parse_toml, toml_document, TomlValue};

verus! {

/// A declared feature that the exclusion pattern matches.
pub open spec fn feature_excluded(exclusion: Seq<char>, f: TomlValue) -> bool {
    match f {
        TomlValue::Str(s) => regex_finds(exclusion, s@),
        _ => false,
    }
}

/// One of the features is excluded.
pub open spec fn any_feature_excluded(exclusion: Seq<char>, fs: Seq<TomlValue>) -> bool {
    exists|k: int| 0 <= k < fs.len() && #[trigger] feature_excluded(exclusion, fs[k])
}

/// A binary declaration whose `required-features` list holds an excluded
/// feature.
pub open spec fn excluded_entry(exclusion: Seq<char>, entry: TomlValue) -> bool {
    match field(entry, "required-features"@) {
        Some(TomlValue::Array(fs)) => any_feature_excluded(exclusion, fs@),
        _ => false,
    }
}

/// The `name` of a binary declaration, when it is a string.
pub open spec fn entry_name(entry: TomlValue) -> Option<Seq<char>> {
    match field(entry, "name"@) {
        Some(TomlValue::Str(s)) => Some(s@),
        _ => None,
    }
}

/// The names of the declarations that are not excluded, in order; `None`
/// when one of them lacks a string name.
pub open spec fn kept_names(exclusion: Seq<char>, bins: Seq<TomlValue>) -> Option<Seq<Seq<char>>>
    decreases bins.len(),
{
    if bins.len() == 0 {
        Some(seq![])
    } else {
        let init = kept_names(exclusion, bins.drop_last());
        if excluded_entry(exclusion, bins.last()) {
            init
        } else {
            match (init, entry_name(bins.last())) {
                (Some(ns), Some(n)) => Some(ns.push(n)),
                _ => None,
            }
        }
    }
}

/// The applications that a parsed manifest declares.
pub open spec fn manifest_applications(exclusion: Seq<char>, doc: Seq<(String, TomlValue)>) -> Result<
    Seq<Seq<char>>,
    CritError,
> {
    match lookup(doc, "bin"@) {
        Some(TomlValue::Array(bins)) => match kept_names(exclusion, bins@) {
            Some(ns) => Ok(ns),
            None => Err(CritError::MalformedEntry),
        },
        _ => Err(CritError::MissingBinarySection),
    }
}

proof fn lemma_kept_names_stays_none(exclusion: Seq<char>, bins: Seq<TomlValue>, i: int, j: int)
    requires
        0 <= i <= j <= bins.len(),
        kept_names(exclusion, bins.take(i)) is None,
    ensures
        kept_names(exclusion, bins.take(j)) is None,
    decreases j - i,
{
    if j > i {
        lemma_kept_names_stays_none(exclusion, bins, i, j - 1);
        assert(bins.take(j).drop_last() == bins.take(j - 1));
    }
}

/// Whether a declaration's `required-features` hold an excluded feature.
fn is_excluded(exclusion: &Pattern, entry: &TomlValue) -> (r: bool)
    ensures
        r == excluded_entry(exclusion@, *entry),
{
    match field_of(entry, "required-features") {
        Some(TomlValue::Array(fs)) => {
            let mut k: usize = 0;
            while k < fs.len()
                invariant
                    k <= fs@.len(),
                    field(*entry, "required-features"@) == Some(TomlValue::Array(*fs)),
                    forall|m: int| 0 <= m < k ==> !feature_excluded(exclusion@, #[trigger] fs@[m]),
                decreases fs@.len() - k,
            {
                if let TomlValue::Str(s) = &fs[k] {
                    if exclusion.is_match(s.as_str()) {
                        assert(fs@[k as int] == TomlValue::Str(*s));
                        assert(feature_excluded(exclusion@, fs@[k as int]));
                        return true;
                    }
                }
                k += 1;
            }
            false
        },
        _ => false,
    }
}

/// Lists the applications of a manifest text: the names of its `bin`
/// declarations, in order, without each one whose `required-features` hold
/// a feature that `feature_exclusion` matches.
pub fn get_applications(feature_exclusion: &Pattern, manifest: &str) -> (r: Result<
    Vec<String>,
    CritError,
>)
    ensures
        toml_document(manifest@) is None ==> r matches Err(CritError::ManifestParse(_)),
        toml_document(manifest@) matches Some(doc) ==> match manifest_applications(
            feature_exclusion@,
            doc@,
        ) {
            Ok(ns) => r matches Ok(v) && v@.map_values(|s: String| s@) == ns,
            Err(e) => r == Err::<Vec<String>, CritError>(e),
        },
{
    let doc = match parse_toml(manifest) {
        Ok(d) => d,
        Err(msg) => return Err(CritError::ManifestParse(msg)),
    };
    let bins = match lookup_key(&doc, "bin") {
        Some(TomlValue::Array(b)) => b,
        _ => return Err(CritError::MissingBinarySection),
    };
    let mut names: Vec<String> = Vec::new();
    let mut i: usize = 0;
    while i < bins.len()
        invariant
            i <= bins@.len(),
            toml_document(manifest@) == Some(doc),
            lookup(doc@, "bin"@) == Some(TomlValue::Array(*bins)),
            kept_names(feature_exclusion@, bins@.take(i as int)) == Some(
                names@.map_values(|s: String| s@),
            ),
        decreases bins@.len() - i,
    {
        assert(bins@.take(i + 1).drop_last() == bins@.take(i as int));
        let entry = &bins[i];
        if !is_excluded(feature_exclusion, entry) {
            match field_of(entry, "name") {
                Some(TomlValue::Str(n)) => {
                    let ghost before = names@;
                    names.push(n.clone());
                    assert(names@.map_values(|s: String| s@) == before.map_values(|s: String| s@).push(n@));
                },
                _ => {
                    proof {
                        assert(bins@.take(i + 1).last() == bins@[i as int]);
                        assert(entry_name(bins@[i as int]) is None);
                        assert(kept_names(feature_exclusion@, bins@.take(i + 1)) is None);
                        lemma_kept_names_stays_none(feature_exclusion@, bins@, i + 1, bins@.len() as int);
                        assert(bins@.take(bins@.len() as int) == bins@);
                    }
                    return Err(CritError::MalformedEntry);
                },
            }
        }
        i += 1;
    }
    assert(bins@.take(i as int) == bins@);
    Ok(names)
}

} // verus!
