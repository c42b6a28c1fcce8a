//! Reading switches from the settings file.

use vstd::prelude::*;

verus! {

/// What `str::to_lowercase` makes of a character sequence (Unicode's
/// lowercase mapping, independent of locale).
pub uninterp spec fn lowercase(s: Seq<char>) -> Seq<char>;

/// `str::to_lowercase`: its result is `lowercase` of the text; Unicode's
/// mapping itself is not written out here.
#[verifier::external_body]
fn to_lowercase(s: &str) -> (r: String)
    ensures
        r@ == lowercase(s@),
{
    s.to_lowercase()
}

/// A switch of the settings file: on where the entry exists, has a value and
/// that value is "true" in any letter case; off otherwise.
pub fn get_bool(value: Option<&Option<String>>) -> (on: bool)
    ensures
        on == (match value {
            Some(Some(v)) => lowercase(v@) == "true"@,
            _ => false,
        }),
{
    match value {
        Some(inner) => match inner {
            Some(v) => {
                let lower = to_lowercase(v.as_str());
                let expected = "true".to_owned();
                lower == expected
            },
            None => false,
        },
        None => false,
    }
}

} // verus!
