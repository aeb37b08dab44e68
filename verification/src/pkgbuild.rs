//! The text of the `PKGBUILD`: the recipe by which the package manager
//! downloads the release archive, checks it against its digest, and installs
//! what it holds.
//!
//! The recipe is shell code that another program parses, so every character
//! of it is specified. Values from the manifest are passed through as they
//! are: whether they suit the shell is the manifest's concern.

use crate::metadata::{Config, ConfigView, Package, PackageView};
use crate::text::{lemma_occurs_between, lines, occurs_in, push_lines};
use vstd::prelude::*;

verus! {

/// A comment line for each author, naming them as maintainers.
pub open spec fn maintainers(authors: Seq<Seq<char>>) -> Seq<char> {
    lines("# Maintainer: "@, authors, "\n"@)
}

/// The fields that identify and describe the package. The release counter is
/// always 1, and the only architecture is `x86_64`.
pub open spec fn description_fields(package: PackageView) -> Seq<char> {
    ("pkgname="@ + package.name + "\n"@) + ("pkgver="@ + package.version + "\n"@) + "pkgrel=1\n"@
        + ("pkgdesc='"@ + package.description + "'\n"@) + "arch=('x86_64')\n"@ + ("url='"@
        + package.homepage + "'\n"@) + ("license=('"@ + package.license + "')\n"@)
}

/// The dependency arrays on a line or two of their own, or nothing where the
/// manifest lists no dependency.
pub open spec fn dependency_fields(package: PackageView) -> Seq<char> {
    match package.metadata {
        Some(metadata) => {
            let lists = metadata.dependencies();
            if lists.depends.len() > 0 || lists.optdepends.len() > 0 {
                lists.render() + "\n"@
            } else {
                Seq::empty()
            }
        },
        None => Seq::empty(),
    }
}

/// Where the archive is downloaded from, and the digest it must have. Each
/// is an array of one element.
pub open spec fn source_fields(source: Seq<char>, sha256: Seq<char>) -> Seq<char> {
    ("source=(\""@ + source + "\")\n"@) + checksum_field(sha256)
}

/// The line that states the digest of the archive.
pub open spec fn checksum_field(sha256: Seq<char>) -> Seq<char> {
    "sha256sums=(\""@ + sha256 + "\")\n"@
}

/// The `package()` function, after an empty line: it installs every binary
/// as an executable, then every license file under the package's own license
/// directory.
pub open spec fn package_function(binaries: Seq<Seq<char>>, licenses: Seq<Seq<char>>) -> Seq<char> {
    "\npackage() {\n"@ + lines("    install -Dm755 "@, binaries, " -t \"$pkgdir/usr/bin\"\n"@)
        + lines("    install -Dm644 "@, licenses, " -t \"$pkgdir/usr/share/licenses/$pkgname\"\n"@)
        + "}\n"@
}

/// The whole recipe for a package whose archive has the digest `sha256` and
/// holds the license files `licenses`.
pub open spec fn recipe(config: ConfigView, sha256: Seq<char>, licenses: Seq<Seq<char>>) -> Seq<
    char,
> {
    maintainers(config.package.authors) + description_fields(config.package) + dependency_fields(
        config.package,
    ) + source_fields(config.package.source(), sha256) + package_function(
        config.binaries(),
        licenses,
    )
}

fn push_description_fields(out: &mut String, package: &Package)
    ensures
        final(out)@ == old(out)@ + description_fields(package@),
{
    let ghost start = out@;
    out.append("pkgname=");
    out.append(package.name.as_str());
    out.append("\n");
    out.append("pkgver=");
    out.append(package.version.as_str());
    out.append("\n");
    out.append("pkgrel=1\n");
    out.append("pkgdesc='");
    out.append(package.description.as_str());
    out.append("'\n");
    out.append("arch=('x86_64')\n");
    out.append("url='");
    out.append(package.homepage.as_str());
    out.append("'\n");
    out.append("license=('");
    out.append(package.license.as_str());
    out.append("')\n");
    assert(out@ =~= start + description_fields(package@));
}

fn push_dependency_fields(out: &mut String, package: &Package)
    ensures
        final(out)@ == old(out)@ + dependency_fields(package@),
{
    let ghost start = out@;
    assert(start + Seq::<char>::empty() =~= start);
    match &package.metadata {
        Some(metadata) => {
            let lists = metadata.dependencies();
            if lists.depends.len() > 0 || lists.optdepends.len() > 0 {
                let text = metadata.render();
                out.append(text.as_str());
                out.append("\n");
                assert(out@ =~= start + (text@ + "\n"@));
            }
        },
        None => {},
    }
}

fn push_source_fields(out: &mut String, source: &str, sha256: &str)
    ensures
        final(out)@ == old(out)@ + source_fields(source@, sha256@),
{
    let ghost start = out@;
    out.append("source=(\"");
    out.append(source);
    out.append("\")\n");
    out.append("sha256sums=(\"");
    out.append(sha256);
    out.append("\")\n");
    assert(out@ =~= start + source_fields(source@, sha256@));
}

fn push_package_function(out: &mut String, binaries: &Vec<String>, licenses: &Vec<String>)
    ensures
        final(out)@ == old(out)@ + package_function(binaries.deep_view(), licenses.deep_view()),
{
    let ghost start = out@;
    out.append("\npackage() {\n");
    push_lines(out, "    install -Dm755 ", binaries, " -t \"$pkgdir/usr/bin\"\n");
    push_lines(out, "    install -Dm644 ", licenses, " -t \"$pkgdir/usr/share/licenses/$pkgname\"\n");
    out.append("}\n");
    assert(out@ =~= start + package_function(binaries.deep_view(), licenses.deep_view()));
}

/// Renders the recipe. `sha256` is the digest of the release archive in
/// hexadecimal, and `licenses` are the names of the license files that the
/// archive holds, in the order in which they are to be installed.
pub fn pkgbuild(config: &Config, sha256: &str, licenses: &Vec<String>) -> (r: String)
    ensures
        r@ == recipe(config@, sha256@, licenses.deep_view()),
{
    let mut r = String::new();
    push_lines(&mut r, "# Maintainer: ", &config.package.authors, "\n");
    assert(r@ =~= maintainers(config@.package.authors));
    push_description_fields(&mut r, &config.package);
    push_dependency_fields(&mut r, &config.package);
    let source = config.package.source();
    push_source_fields(&mut r, source.as_str(), sha256);
    let binaries = config.binaries();
    push_package_function(&mut r, &binaries, licenses);
    r
}

/// The recipe states the digest that it was rendered for, in a `sha256sums`
/// array of that one element, and the download URL of the package in a
/// `source` array of one element on the line before it.
pub proof fn lemma_recipe_states_digest(
    config: ConfigView,
    sha256: Seq<char>,
    licenses: Seq<Seq<char>>,
)
    ensures
        occurs_in("sha256sums=(\""@ + sha256 + "\")\n"@, recipe(config, sha256, licenses)),
        occurs_in(
            "source=(\""@ + config.package.source() + "\")\n"@ + ("sha256sums=(\""@ + sha256
                + "\")\n"@),
            recipe(config, sha256, licenses),
        ),
{
    let package = config.package;
    let top = maintainers(package.authors) + description_fields(package) + dependency_fields(
        package,
    );
    let source = "source=(\""@ + package.source() + "\")\n"@;
    let bottom = package_function(config.binaries(), licenses);
    let text = recipe(config, sha256, licenses);
    lemma_occurs_between(top + source, checksum_field(sha256), bottom);
    assert(text =~= top + source + checksum_field(sha256) + bottom);
    lemma_occurs_between(top, source + checksum_field(sha256), bottom);
    assert(text =~= top + (source + checksum_field(sha256)) + bottom);
}

/// The recipe names the package and its version as the manifest has them,
/// each on a line of its own.
pub proof fn lemma_recipe_names_package(
    config: ConfigView,
    sha256: Seq<char>,
    licenses: Seq<Seq<char>>,
)
    ensures
        occurs_in(
            "pkgname="@ + config.package.name + "\n"@ + ("pkgver="@ + config.package.version
                + "\n"@),
            recipe(config, sha256, licenses),
        ),
{
    let package = config.package;
    let names = "pkgname="@ + package.name + "\n"@ + ("pkgver="@ + package.version + "\n"@);
    let rest = "pkgrel=1\n"@ + ("pkgdesc='"@ + package.description + "'\n"@) + "arch=('x86_64')\n"@
        + ("url='"@ + package.homepage + "'\n"@) + ("license=('"@ + package.license + "')\n"@)
        + dependency_fields(package) + source_fields(package.source(), sha256) + package_function(
        config.binaries(),
        licenses,
    );
    lemma_occurs_between(maintainers(package.authors), names, rest);
    assert(recipe(config, sha256, licenses) =~= maintainers(package.authors) + names + rest);
}

} // verus!
