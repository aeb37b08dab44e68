//! The release archive: where it is written, which files go into it, and in
//! what order.
//!
//! Compiling and packing are the caller's work. What is fixed here is
//! everything about the archive that must not vary from one run to the next,
//! so that equal inputs give an archive with an equal digest.

use crate::metadata::{Config, ConfigView};
use vstd::prelude::*;

verus! {

/// The directory, below the project's, that receives the archive and the
/// recipe.
pub const OUTPUT_DIR: &'static str = "target/cargo-aur";

/// The file name of the recipe inside the output directory.
pub const RECIPE_NAME: &'static str = "PKGBUILD";

/// Where the compiler leaves the binary `name` of a release build: below
/// `target/`, and for a static build below the MUSL target's directory
/// there.
pub open spec fn compiled_binary(musl: bool, name: Seq<char>) -> Seq<char> {
    if musl {
        "target/x86_64-unknown-linux-musl/release/"@ + name
    } else {
        "target/release/"@ + name
    }
}

/// The path of the compiled binary `name`, relative to the project.
pub fn binary_path(musl: bool, name: &str) -> (r: String)
    ensures
        r@ == compiled_binary(musl, name@),
{
    let mut r = if musl {
        String::from_str("target/x86_64-unknown-linux-musl/release/")
    } else {
        String::from_str("target/release/")
    };
    r.append(name);
    r
}

/// What the archive is to be. Every entry lies at the top level of the
/// archive, under its bare file name.
#[derive(Clone, Debug, PartialEq, Eq)]
pub struct Archive {
    /// The path of the archive file.
    pub path: String,
    /// The binaries to pack, the main one first.
    pub binaries: Vec<String>,
    /// The license files to pack.
    pub licenses: Vec<String>,
}

/// What an `Archive` says, as plain text.
pub struct ArchiveView {
    pub path: Seq<char>,
    pub binaries: Seq<Seq<char>>,
    pub licenses: Seq<Seq<char>>,
}

impl View for Archive {
    type V = ArchiveView;

    open spec fn view(&self) -> ArchiveView {
        ArchiveView {
            path: self.path@,
            binaries: self.binaries.deep_view(),
            licenses: self.licenses.deep_view(),
        }
    }
}

impl ArchiveView {
    /// The archive for a package: named after the package, its version and
    /// the architecture, inside `output`; holding the package's binaries in
    /// declaration order, then `licenses` in the order given.
    pub open spec fn of(output: Seq<char>, config: ConfigView, licenses: Seq<Seq<char>>) -> ArchiveView {
        ArchiveView {
            path: output + "/"@ + config.package.tarball(),
            binaries: config.binaries(),
            licenses,
        }
    }

    /// The names of the archive's entries, in the order in which they are
    /// packed.
    pub open spec fn entries(self) -> Seq<Seq<char>> {
        self.binaries + self.licenses
    }
}

impl Archive {
    /// Plans the archive of a package inside the directory `output`.
    /// `licenses` are the names of the license files to ship.
    pub fn new(output: &str, config: &Config, licenses: &Vec<String>) -> (r: Archive)
        ensures
            r@ == ArchiveView::of(output@, config@, licenses.deep_view()),
    {
        let mut path = String::from_str(output);
        path.append("/");
        let tarball = config.package.tarball();
        path.append(tarball.as_str());
        let r = Archive { path, binaries: config.binaries(), licenses: licenses.clone() };
        assert(r.licenses.deep_view() =~= licenses.deep_view());
        r
    }

    /// The names of the archive's entries, in packing order.
    pub fn entries(&self) -> (r: Vec<String>)
        ensures
            r.deep_view() == self@.entries(),
    {
        let mut r = self.binaries.clone();
        assert(r.deep_view() =~= self.binaries.deep_view());
        let n: usize = self.licenses.len();
        let mut i: usize = 0;
        while i < n
            invariant
                i <= n,
                n == self.licenses.len(),
                r.deep_view() == self.binaries.deep_view() + self.licenses.deep_view().take(i as int),
            decreases n - i,
        {
            let ghost before = r.deep_view();
            r.push(self.licenses[i].clone());
            assert(r.deep_view() =~= before.push(self.licenses[i as int]@));
            assert(self.licenses.deep_view().take(i + 1) =~= self.licenses.deep_view().take(
                i as int,
            ).push(self.licenses[i as int]@));
            i += 1;
        }
        assert(self.licenses.deep_view().take(n as int) =~= self.licenses.deep_view());
        r
    }
}

} // verus!
