//! Which files of the project directory are license files that the package
//! has to install itself.

use crate::error::Error;
use crate::text::{contains, starts_with};
use vstd::prelude::*;

verus! {

/// The identifiers of the licenses whose text the distribution's own
/// `licenses` package already installs. Others are in that package too; these
/// are the ones a Rust project is likely to use.
pub open spec fn standard_license_ids() -> Seq<Seq<char>> {
    seq![
        "AGPL-3.0-only"@,
        "AGPL-3.0-or-later"@,
        "Apache-2.0"@,
        "BSL-1.0"@,
        "GPL-2.0-only"@,
        "GPL-2.0-or-later"@,
        "GPL-3.0-only"@,
        "GPL-3.0-or-later"@,
        "LGPL-2.0-only"@,
        "LGPL-2.0-or-later"@,
        "LGPL-3.0-only"@,
        "LGPL-3.0-or-later"@,
        "MPL-2.0"@,
        "Unlicense"@,
    ]
}

/// The standard identifiers, as the list to hand to `license_files`.
pub fn standard_licenses() -> (r: Vec<String>)
    ensures
        r.deep_view() == standard_license_ids(),
{
    let mut r: Vec<String> = Vec::new();
    r.push(String::from_str("AGPL-3.0-only"));
    r.push(String::from_str("AGPL-3.0-or-later"));
    r.push(String::from_str("Apache-2.0"));
    r.push(String::from_str("BSL-1.0"));
    r.push(String::from_str("GPL-2.0-only"));
    r.push(String::from_str("GPL-2.0-or-later"));
    r.push(String::from_str("GPL-3.0-only"));
    r.push(String::from_str("GPL-3.0-or-later"));
    r.push(String::from_str("LGPL-2.0-only"));
    r.push(String::from_str("LGPL-2.0-or-later"));
    r.push(String::from_str("LGPL-3.0-only"));
    r.push(String::from_str("LGPL-3.0-or-later"));
    r.push(String::from_str("MPL-2.0"));
    r.push(String::from_str("Unlicense"));
    assert(r.deep_view() =~= standard_license_ids());
    r
}

/// Whether a directory entry of this name is a license file to ship: its
/// name begins with `LICENSE`, and is not as a whole one of the `standard`
/// identifiers.
pub open spec fn is_license_file(name: Seq<char>, standard: Seq<Seq<char>>) -> bool {
    "LICENSE"@.is_prefix_of(name) && !standard.contains(name)
}

/// Those of `names` that are license files, in the order in which `names`
/// has them.
pub open spec fn license_names(names: Seq<Seq<char>>, standard: Seq<Seq<char>>) -> Seq<Seq<char>> {
    names.filter(|name: Seq<char>| is_license_file(name, standard))
}

/// Picks the license files out of the names of a directory's entries. The
/// order of `names` is kept, and a name that occurs twice is kept twice. That
/// there is none is an error: a package without a license text is not to be
/// released.
pub fn license_files(names: &Vec<String>, standard: &Vec<String>) -> (r: Result<Vec<String>, Error>)
    ensures
        match r {
            Ok(found) => found.deep_view() == license_names(
                names.deep_view(),
                standard.deep_view(),
            ) && found.len() > 0,
            Err(e) => e == Error::MissingLicense && license_names(
                names.deep_view(),
                standard.deep_view(),
            ).len() == 0,
        },
{
    let ghost all = names.deep_view();
    let ghost wanted = |name: Seq<char>| is_license_file(name, standard.deep_view());
    let mut found: Vec<String> = Vec::new();
    proof {
        reveal(Seq::filter);
        assert(all.take(0).filter(wanted) =~= found.deep_view());
    }
    let n: usize = names.len();
    let mut i: usize = 0;
    while i < n
        invariant
            i <= n,
            n == names.len(),
            all == names.deep_view(),
            wanted == |name: Seq<char>| is_license_file(name, standard.deep_view()),
            found.deep_view() == all.take(i as int).filter(wanted),
        decreases n - i,
    {
        let name = &names[i];
        let ghost before = found.deep_view();
        proof {
            assert(all.take(i + 1) =~= all.take(i as int).push(all[i as int]));
            all.take(i as int).lemma_filter_push(all[i as int], wanted);
        }
        if starts_with(name.as_str(), "LICENSE") && !contains(standard, name) {
            found.push(name.clone());
            assert(found.deep_view() =~= before.push(all[i as int]));
        }
        i += 1;
    }
    assert(all.take(n as int) =~= all);
    if found.len() == 0 {
        Err(Error::MissingLicense)
    } else {
        Ok(found)
    }
}

} // verus!
