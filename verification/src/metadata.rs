//! The package model: what a project's manifest says about the package, its
//! binary targets and its extra runtime dependencies.

use crate::text::{head, lemma_occurs_between, occurs_in, starts_with};
use vstd::prelude::*;

verus! {

/// The whole of a manifest that matters here: the `[package]` table and the
/// `[[bin]]` targets, in the order in which they are declared.
#[derive(Clone, Debug, PartialEq, Eq)]
pub struct Config {
    pub package: Package,
    pub bin: Vec<Binary>,
}

/// The `[package]` table.
#[derive(Clone, Debug, PartialEq, Eq)]
pub struct Package {
    pub name: String,
    pub version: String,
    pub authors: Vec<String>,
    pub description: String,
    pub homepage: String,
    pub repository: String,
    pub license: String,
    pub metadata: Option<Metadata>,
}

/// The `[package.metadata.aur]` table: where extra dependencies belong.
#[derive(Clone, Debug, PartialEq, Eq)]
pub struct AUR {
    pub depends: Vec<String>,
    pub optdepends: Vec<String>,
}

/// A `[[bin]]` target.
#[derive(Clone, Debug, PartialEq, Eq)]
pub struct Binary {
    pub name: String,
}

/// The `[package.metadata]` table.
#[derive(Clone, Debug, PartialEq, Eq)]
pub struct Metadata {
    /// Deprecated: extra dependencies written directly under
    /// `[package.metadata]`.
    pub depends: Vec<String>,
    /// Deprecated, as `depends`.
    pub optdepends: Vec<String>,
    /// `[package.metadata.aur]`
    pub aur: Option<AUR>,
}

/// The hosting services whose release URLs are known.
#[derive(Clone, Copy, Debug, PartialEq, Eq)]
pub enum GitHost {
    Github,
    Gitlab,
}

/// Two lists of package names: what must be installed, and what may be.
pub struct DependsView {
    pub depends: Seq<Seq<char>>,
    pub optdepends: Seq<Seq<char>>,
}

/// What a `Metadata` says, as plain text.
pub struct MetadataView {
    pub depends: Seq<Seq<char>>,
    pub optdepends: Seq<Seq<char>>,
    pub aur: Option<DependsView>,
}

/// What a `Package` says, as plain text.
pub struct PackageView {
    pub name: Seq<char>,
    pub version: Seq<char>,
    pub authors: Seq<Seq<char>>,
    pub description: Seq<char>,
    pub homepage: Seq<char>,
    pub repository: Seq<char>,
    pub license: Seq<char>,
    pub metadata: Option<MetadataView>,
}

/// What a `Config` says, as plain text.
pub struct ConfigView {
    pub package: PackageView,
    /// The names of the binary targets, in declaration order.
    pub bin: Seq<Seq<char>>,
}

impl View for Binary {
    type V = Seq<char>;

    open spec fn view(&self) -> Seq<char> {
        self.name@
    }
}

impl View for AUR {
    type V = DependsView;

    open spec fn view(&self) -> DependsView {
        DependsView {
            depends: self.depends.deep_view(),
            optdepends: self.optdepends.deep_view(),
        }
    }
}

impl View for Metadata {
    type V = MetadataView;

    open spec fn view(&self) -> MetadataView {
        MetadataView {
            depends: self.depends.deep_view(),
            optdepends: self.optdepends.deep_view(),
            aur: match self.aur {
                Some(aur) => Some(aur@),
                None => None,
            },
        }
    }
}

impl View for Package {
    type V = PackageView;

    open spec fn view(&self) -> PackageView {
        PackageView {
            name: self.name@,
            version: self.version@,
            authors: self.authors.deep_view(),
            description: self.description@,
            homepage: self.homepage@,
            repository: self.repository@,
            license: self.license@,
            metadata: match self.metadata {
                Some(metadata) => Some(metadata@),
                None => None,
            },
        }
    }
}

impl View for Config {
    type V = ConfigView;

    open spec fn view(&self) -> ConfigView {
        ConfigView { package: self.package@, bin: self.bin@.map_values(|b: Binary| b@) }
    }
}

impl ConfigView {
    /// The name of the compiled binary that the package is built around: the
    /// first declared target, or the package's own name where none is
    /// declared.
    pub open spec fn binary_name(self) -> Seq<char> {
        if self.bin.len() > 0 {
            self.bin[0]
        } else {
            self.package.name
        }
    }

    /// The names of all the binaries that the package ships, the main one
    /// first: the declared targets in declaration order, or the package's
    /// name alone where none is declared.
    pub open spec fn binaries(self) -> Seq<Seq<char>> {
        if self.bin.len() > 0 {
            self.bin
        } else {
            seq![self.package.name]
        }
    }
}

impl Config {
    /// The names of all the binaries that the package ships, the main one
    /// first.
    pub fn binaries(&self) -> (r: Vec<String>)
        ensures
            r.deep_view() == self@.binaries(),
    {
        let mut r: Vec<String> = Vec::new();
        let n: usize = self.bin.len();
        if n == 0 {
            r.push(self.package.name.clone());
            assert(r.deep_view() =~= seq![self.package.name@]);
            return r;
        }
        let mut i: usize = 0;
        while i < n
            invariant
                i <= n,
                n == self.bin.len(),
                r.len() == i,
                forall|j: int| 0 <= j < i ==> r[j]@ == self.bin[j].name@,
            decreases n - i,
        {
            r.push(self.bin[i].name.clone());
            i += 1;
        }
        assert(r.deep_view() =~= self@.bin);
        r
    }

    /// The name of the compiled binary that should be copied to the tarball.
    pub fn binary_name(&self) -> (r: &str)
        ensures
            r@ == self@.binary_name(),
    {
        if self.bin.len() > 0 {
            self.bin[0].name.as_str()
        } else {
            self.package.name.as_str()
        }
    }
}

impl PackageView {
    /// The file name of the release archive.
    pub open spec fn tarball(self) -> Seq<char> {
        self.name + "-"@ + self.version + "-x86_64.tar.gz"@
    }

    /// The hosting service that the repository URL points to, told by how the
    /// URL begins; `None` where it begins like neither.
    pub open spec fn git_host(self) -> Option<GitHost> {
        if "https://github"@.is_prefix_of(self.repository) {
            Some(GitHost::Github)
        } else if "https://gitlab"@.is_prefix_of(self.repository) {
            Some(GitHost::Gitlab)
        } else {
            None
        }
    }

    /// The URL under which the release archive is to be found. A repository
    /// on an unknown host is taken to publish its releases as GitHub does.
    pub open spec fn source(self) -> Seq<char> {
        match self.git_host() {
            Some(host) => host.source_of(self),
            None => GitHost::Github.source_of(self),
        }
    }
}

impl Package {
    /// The name of the tarball that should be produced from this `Package`.
    pub fn tarball(&self) -> (r: String)
        ensures
            r@ == self@.tarball(),
    {
        let mut r = self.name.clone();
        r.append("-");
        r.append(self.version.as_str());
        r.append("-x86_64.tar.gz");
        r
    }

    /// The hosting service of the repository, by the prefix of its URL.
    pub fn git_host(&self) -> (r: Option<GitHost>)
        ensures
            r == self@.git_host(),
    {
        if starts_with(self.repository.as_str(), "https://github") {
            Some(GitHost::Github)
        } else if starts_with(self.repository.as_str(), "https://gitlab") {
            Some(GitHost::Gitlab)
        } else {
            None
        }
    }

    /// The download URL of the release archive, by the template of the
    /// repository's host, or by GitHub's where the host is unknown.
    pub fn source(&self) -> (r: String)
        ensures
            r@ == self@.source(),
    {
        match self.git_host() {
            Some(host) => host.source(self),
            None => GitHost::Github.source(self),
        }
    }
}

impl Default for GitHost {
    fn default() -> (r: GitHost)
        ensures
            r == GitHost::Github,
    {
        GitHost::Github
    }
}

impl GitHost {
    /// The download URL of a package's release archive on this host. The
    /// version stays the literal `$pkgver`, which the package manager fills in
    /// when it reads the recipe.
    pub open spec fn source_of(self, package: PackageView) -> Seq<char> {
        match self {
            GitHost::Github => package.repository + "/releases/download/$pkgver/"@ + package.name
                + "-$pkgver-x86_64.tar.gz"@,
            GitHost::Gitlab => package.repository + "/-/archive/$pkgver/"@ + package.name
                + "-$pkgver-x86_64.tar.gz"@,
        }
    }

    /// The download URL of `package`'s release archive on this host.
    pub fn source(&self, package: &Package) -> (r: String)
        ensures
            r@ == self.source_of(package@),
    {
        let mut r = package.repository.clone();
        match self {
            GitHost::Github => r.append("/releases/download/$pkgver/"),
            GitHost::Gitlab => r.append("/-/archive/$pkgver/"),
        }
        r.append(package.name.as_str());
        r.append("-$pkgver-x86_64.tar.gz");
        r
    }
}

/// One entry of a shell array: the item in double quotes, set off from the
/// entry before it by a single space.
pub open spec fn array_entry(i: int, item: Seq<char>) -> Seq<char> {
    if i == 0 {
        "\""@ + item + "\""@
    } else {
        " \""@ + item + "\""@
    }
}

/// The entries of a shell array, as they stand between its parentheses.
pub open spec fn array_entries(items: Seq<Seq<char>>) -> Seq<char> {
    items.map(|i: int, item: Seq<char>| array_entry(i, item)).flatten()
}

/// A shell array assignment, `key=("first" "second")`. A list without items
/// gives no text at all, not an empty array.
pub open spec fn array_field(key: Seq<char>, items: Seq<Seq<char>>) -> Seq<char> {
    if items.len() == 0 {
        Seq::empty()
    } else {
        key + "=("@ + array_entries(items) + ")"@
    }
}

impl DependsView {
    /// The `depends` and `optdepends` assignments, each present only if its
    /// list has items, on separate lines where both are present. No line
    /// break follows the last of them.
    pub open spec fn render(self) -> Seq<char> {
        array_field("depends"@, self.depends) + (if self.depends.len() > 0 && self.optdepends.len()
            > 0 {
            "\n"@
        } else {
            Seq::empty()
        }) + array_field("optdepends"@, self.optdepends)
    }
}

impl MetadataView {
    /// The dependency lists in force. Those of `[package.metadata.aur]` win
    /// whenever that table is present, whatever `[package.metadata]` itself
    /// lists.
    pub open spec fn dependencies(self) -> DependsView {
        match self.aur {
            Some(aur) => aur,
            None => DependsView { depends: self.depends, optdepends: self.optdepends },
        }
    }

    /// Whether the lists in force are deprecated ones: there is no
    /// `[package.metadata.aur]` table, and `[package.metadata]` lists
    /// something itself.
    pub open spec fn uses_legacy(self) -> bool {
        self.aur is None && (self.depends.len() > 0 || self.optdepends.len() > 0)
    }
}

/// The outcome of reconciling the two places where a manifest may list its
/// extra dependencies.
pub struct Dependencies<'a> {
    pub depends: &'a Vec<String>,
    pub optdepends: &'a Vec<String>,
    /// The lists were taken from the deprecated place, and are not both
    /// empty: the user should be told to move them.
    pub legacy: bool,
}

impl<'a> View for Dependencies<'a> {
    type V = DependsView;

    open spec fn view(&self) -> DependsView {
        DependsView {
            depends: self.depends.deep_view(),
            optdepends: self.optdepends.deep_view(),
        }
    }
}

/// Appends `array_field(key, items)` to `out`.
fn push_array(out: &mut String, key: &str, items: &Vec<String>)
    ensures
        final(out)@ == old(out)@ + array_field(key@, items.deep_view()),
{
    let n: usize = items.len();
    if n == 0 {
        assert(out@ + Seq::<char>::empty() =~= out@);
        return ;
    }
    let ghost entry = |i: int, item: Seq<char>| array_entry(i, item);
    let ghost all = items.deep_view();
    let mut entries = String::new();
    assert(all.take(0).map(entry) =~= Seq::<Seq<char>>::empty());
    let mut i: usize = 0;
    while i < n
        invariant
            i <= n,
            n == items.len(),
            all == items.deep_view(),
            entry == |i: int, item: Seq<char>| array_entry(i, item),
            entries@ == all.take(i as int).map(entry).flatten(),
        decreases n - i,
    {
        let ghost before = entries@;
        if i == 0 {
            entries.append("\"");
        } else {
            entries.append(" \"");
        }
        entries.append(items[i].as_str());
        entries.append("\"");
        proof {
            let done = all.take(i as int).map(entry);
            assert(entries@ == before + array_entry(i as int, all[i as int]));
            assert(all.take(i + 1).map(entry) =~= done.push(array_entry(i as int, all[i as int])));
            done.lemma_flatten_push(array_entry(i as int, all[i as int]));
        }
        i += 1;
    }
    assert(all.take(n as int) =~= all);
    let ghost start = out@;
    out.append(key);
    out.append("=(");
    out.append(entries.as_str());
    out.append(")");
    assert(out@ =~= start + (key@ + "=("@ + array_entries(all) + ")"@));
}

impl Metadata {
    /// Reconciles the two places where extra dependencies may be listed, and
    /// says whether the deprecated one is in use.
    pub fn dependencies(&self) -> (r: Dependencies<'_>)
        ensures
            r@ == self@.dependencies(),
            r.legacy == self@.uses_legacy(),
    {
        match &self.aur {
            Some(aur) => Dependencies {
                depends: &aur.depends,
                optdepends: &aur.optdepends,
                legacy: false,
            },
            None => Dependencies {
                depends: &self.depends,
                optdepends: &self.optdepends,
                legacy: self.depends.len() > 0 || self.optdepends.len() > 0,
            },
        }
    }

    /// The dependency assignments of the recipe, for the lists in force.
    pub fn render(&self) -> (r: String)
        ensures
            r@ == self@.dependencies().render(),
    {
        let lists = self.dependencies();
        let mut r = String::new();
        push_array(&mut r, "depends", lists.depends);
        if lists.depends.len() > 0 && lists.optdepends.len() > 0 {
            r.append("\n");
        } else {
            assert(r@ + Seq::<char>::empty() =~= r@);
        }
        push_array(&mut r, "optdepends", lists.optdepends);
        assert(Seq::<char>::empty() + array_field("depends"@, lists@.depends) =~= array_field(
            "depends"@,
            lists@.depends,
        ));
        r
    }
}

/// The main binary is the first of the binaries that the package ships, and
/// a package ships at least one: the first declared target where targets are
/// declared, the package itself where none is.
pub proof fn lemma_main_binary_is_first(config: ConfigView)
    ensures
        config.binaries().len() >= 1,
        config.binaries()[0] == config.binary_name(),
        config.bin.len() == 0 ==> config.binary_name() == config.package.name,
        config.bin.len() > 0 ==> config.binary_name() == config.bin[0],
{
}

/// The host of a repository depends on nothing but the first fourteen
/// characters of its URL: two packages whose URLs begin alike are hosted
/// alike, whatever else is said of them.
pub proof fn lemma_git_host_by_prefix(one: PackageView, other: PackageView)
    requires
        head(one.repository, 14) == head(other.repository, 14),
    ensures
        one.git_host() == other.git_host(),
{
    reveal_strlit("https://github");
    reveal_strlit("https://gitlab");
    let a = one.repository;
    let b = other.repository;
    if a.len() < 14 || b.len() < 14 {
        assert(a == b);
    } else {
        assert(a.subrange(0, 14) =~= head(a, 14));
        assert(b.subrange(0, 14) =~= head(b, 14));
    }
}

/// The download URL follows the host's template: on GitLab the archive lies
/// under `/-/archive/$pkgver/`, on GitHub and on any host that is not known
/// under `/releases/download/$pkgver/`. The version is never filled in.
pub proof fn lemma_source_follows_template(package: PackageView)
    ensures
        package.git_host() == Some(GitHost::Gitlab) ==> occurs_in(
            "/-/archive/$pkgver/"@,
            package.source(),
        ),
        package.git_host() != Some(GitHost::Gitlab) ==> occurs_in(
            "/releases/download/$pkgver/"@,
            package.source(),
        ),
        package.git_host() is None ==> package.source() == GitHost::Github.source_of(package),
{
    let rest = package.name + "-$pkgver-x86_64.tar.gz"@;
    if package.git_host() == Some(GitHost::Gitlab) {
        let path = "/-/archive/$pkgver/"@;
        lemma_occurs_between(package.repository, path, rest);
        assert(package.source() =~= package.repository + path + rest);
    } else {
        let path = "/releases/download/$pkgver/"@;
        lemma_occurs_between(package.repository, path, rest);
        assert(package.source() =~= package.repository + path + rest);
    }
}

/// How the two dependency arrays share the rendered text. An empty list
/// leaves no trace: with both empty there is no text, and with one empty the
/// text is the other's array alone. With neither empty the arrays are one
/// line break apart, `depends` first.
pub proof fn lemma_dependency_arrays(lists: DependsView)
    ensures
        lists.depends.len() == 0 && lists.optdepends.len() == 0 ==> lists.render() == Seq::<
            char,
        >::empty(),
        lists.depends.len() > 0 && lists.optdepends.len() == 0 ==> lists.render() == "depends=("@
            + array_entries(lists.depends) + ")"@,
        lists.depends.len() == 0 && lists.optdepends.len() > 0 ==> lists.render()
            == "optdepends=("@ + array_entries(lists.optdepends) + ")"@,
        lists.depends.len() > 0 && lists.optdepends.len() > 0 ==> lists.render() == ("depends=("@
            + array_entries(lists.depends) + ")"@) + "\n"@ + ("optdepends=("@ + array_entries(
            lists.optdepends,
        ) + ")"@),
{
    reveal_strlit("depends");
    reveal_strlit("optdepends");
    reveal_strlit("=(");
    reveal_strlit("depends=(");
    reveal_strlit("optdepends=(");
    let d = array_entries(lists.depends);
    let o = array_entries(lists.optdepends);
    assert("depends"@ + "=("@ =~= "depends=("@);
    assert("optdepends"@ + "=("@ =~= "optdepends=("@);
    assert("depends"@ + "=("@ + d + ")"@ =~= "depends=("@ + d + ")"@);
    assert("optdepends"@ + "=("@ + o + ")"@ =~= "optdepends=("@ + o + ")"@);
    if lists.depends.len() == 0 && lists.optdepends.len() == 0 {
        assert(lists.render() =~= Seq::<char>::empty());
    } else if lists.optdepends.len() == 0 {
        assert(lists.render() =~= "depends=("@ + d + ")"@);
    } else if lists.depends.len() == 0 {
        assert(lists.render() =~= "optdepends=("@ + o + ")"@);
    }
}

/// The entries of an array are its items in order, each in double quotes,
/// with single spaces between them and none at either end.
pub proof fn lemma_array_entries_push(items: Seq<Seq<char>>, item: Seq<char>)
    ensures
        array_entries(seq![item]) == "\""@ + item + "\""@,
        items.len() > 0 ==> array_entries(items.push(item)) == array_entries(items) + " \""@ + item
            + "\""@,
{
    let entry = |i: int, item: Seq<char>| array_entry(i, item);
    assert(seq![item].map(entry) =~= Seq::<Seq<char>>::empty().push(array_entry(0, item)));
    Seq::<Seq<char>>::empty().lemma_flatten_push(array_entry(0, item));
    assert(Seq::<Seq<char>>::empty().flatten() =~= Seq::<char>::empty());
    assert(array_entries(seq![item]) =~= "\""@ + item + "\""@);
    if items.len() > 0 {
        let n = items.len() as int;
        assert(items.push(item).map(entry) =~= items.map(entry).push(array_entry(n, item)));
        items.map(entry).lemma_flatten_push(array_entry(n, item));
        assert(array_entries(items.push(item)) =~= array_entries(items) + " \""@ + item + "\""@);
    }
}

} // verus!
