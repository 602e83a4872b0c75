//! Service identifiers and the table of what is known about each service.

use crate::error::ArtifactError;
use crate::path::{is_file_name, is_name};
use crate::text::same_text;
use vstd::prelude::*;
use vstd::string::*;

verus! {

/// The name under which a service is requested, cached and looked up.
#[derive(Debug, Eq, Hash)]
pub struct ServiceId(String);

impl View for ServiceId {
    type V = Seq<char>;

    closed spec fn view(&self) -> Seq<char> {
        self.0@
    }
}

impl Clone for ServiceId {
    fn clone(&self) -> (res: Self)
        ensures
            res == *self,
    {
        ServiceId(self.0.clone())
    }
}

impl PartialEq for ServiceId {
    fn eq(&self, other: &Self) -> (res: bool) {
        self.0 == other.0
    }
}

impl vstd::std_specs::cmp::PartialEqSpecImpl for ServiceId {
    open spec fn obeys_eq_spec() -> bool {
        true
    }

    open spec fn eq_spec(&self, other: &Self) -> bool {
        self@ == other@
    }
}

impl ServiceId {
    /// The identifier with the given fixed name.
    pub fn new_static(s: &'static str) -> (id: Self)
        ensures
            id@ == s@,
    {
        ServiceId(String::from_str(s))
    }

    /// The identifier with the given name.
    pub fn new_owned(s: String) -> (id: Self)
        ensures
            id@ == s@,
    {
        ServiceId(s)
    }

    /// The identifier's name, as a text of its own.
    pub fn name(&self) -> (name: String)
        ensures
            name@ == self@,
    {
        self.0.clone()
    }

    /// The identifier's name.
    pub fn as_str(&self) -> (name: &str)
        ensures
            name@ == self@,
    {
        self.0.as_str()
    }
}

/// How to build a service from a local repository.
pub trait BuildRecipe: Send + Sync + 'static {
    /// Runs the build in `repo` with `jobs` parallel jobs, writing its output
    /// to the file `log`, and returns the path of the executable, relative to
    /// the repository or absolute.
    fn build(&self, repo: &str, jobs: usize, log: &str) -> Result<String, ArtifactError>;
}

/// How to extract a human-readable version string from an executable.
pub trait VersionProbe: Send + Sync + 'static {
    /// The version that the executable at `exe` reports, if it reports one.
    fn probe(&self, exe: &str) -> Option<String>;
}

/// How to find the download of a release for a platform.
pub trait ReleaseIndex: Send + Sync + 'static {
    /// The address and the SHA-256 digest of the asset of `version` for
    /// `platform`, if there is one.
    fn asset_for(&self, version: &str, platform: &str) -> Option<(String, String)>;
}

/// The names under which a service's executable goes on one platform.
#[derive(Debug)]
pub struct PlatformNames {
    pub platform: String,
    pub names: Vec<String>,
}

/// Describes how to handle a service: what binary to expect, where a build
/// leaves it, and what the build needs.
pub struct ToolSpec {
    pub id: ServiceId,
    /// Candidate binary names on a platform that `platform_names` does not
    /// list. The first is the name under which the executable is published.
    pub binary_names: Vec<String>,
    /// Candidate binary names on the platforms that need others.
    pub platform_names: Vec<PlatformNames>,
    /// Where a build leaves the executable, relative to the repository.
    pub default_expected_output: String,
    /// The programs that a build needs to find installed.
    pub required_tools: Vec<String>,
    pub build: Option<&'static dyn BuildRecipe>,
    pub releases: Option<&'static dyn ReleaseIndex>,
    pub version_probe: Option<&'static dyn VersionProbe>,
}

/// The mathematical value of a [`ToolSpec`]: its data, and which of its
/// capabilities are present.
pub struct ToolSpecView {
    pub id: Seq<char>,
    pub binary_names: Seq<Seq<char>>,
    pub platform_names: Seq<(Seq<char>, Seq<Seq<char>>)>,
    pub default_expected_output: Seq<char>,
    pub required_tools: Seq<Seq<char>>,
    pub has_build: bool,
    pub has_releases: bool,
    pub has_version_probe: bool,
}

impl DeepView for PlatformNames {
    type V = (Seq<char>, Seq<Seq<char>>);

    open spec fn deep_view(&self) -> (Seq<char>, Seq<Seq<char>>) {
        (self.platform@, self.names.deep_view())
    }
}

impl View for ToolSpec {
    type V = ToolSpecView;

    open spec fn view(&self) -> ToolSpecView {
        ToolSpecView {
            id: self.id@,
            binary_names: self.binary_names.deep_view(),
            platform_names: self.platform_names.deep_view(),
            default_expected_output: self.default_expected_output@,
            required_tools: self.required_tools.deep_view(),
            has_build: self.build is Some,
            has_releases: self.releases is Some,
            has_version_probe: self.version_probe is Some,
        }
    }
}

/// The candidate names listed for `platform` in `table` from `from` on, or
/// `fallback` where the platform is not listed there.
pub open spec fn names_from(
    table: Seq<(Seq<char>, Seq<Seq<char>>)>,
    from: int,
    platform: Seq<char>,
    fallback: Seq<Seq<char>>,
) -> Seq<Seq<char>>
    decreases table.len() - from,
{
    if from < 0 || from >= table.len() {
        fallback
    } else if table[from].0 == platform {
        table[from].1
    } else {
        names_from(table, from + 1, platform, fallback)
    }
}

impl ToolSpecView {
    /// The candidate binary names on `platform`: those of the first listing
    /// of the platform, or the general ones where it is not listed.
    pub open spec fn names_on(self, platform: Seq<char>) -> Seq<Seq<char>> {
        names_from(self.platform_names, 0, platform, self.binary_names)
    }

    /// The name under which the executable is published on `platform`: the
    /// first candidate, where it can name a file.
    pub open spec fn published_name(self, platform: Seq<char>) -> Option<Seq<char>> {
        let names = self.names_on(platform);
        if names.len() > 0 && is_name(names[0]) {
            Some(names[0])
        } else {
            None
        }
    }
}

impl ToolSpec {
    /// The candidate binary names on `platform`.
    pub fn names_on(&self, platform: &str) -> (names: &Vec<String>)
        ensures
            names.deep_view() == self@.names_on(platform@),
    {
        let n = self.platform_names.len();
        let mut i: usize = 0;
        while i < n
            invariant
                n == self.platform_names.len(),
                i <= n,
                self@.names_on(platform@) == names_from(
                    self@.platform_names,
                    i as int,
                    platform@,
                    self@.binary_names,
                ),
            decreases n - i,
        {
            let entry = &self.platform_names[i];
            assert(self@.platform_names[i as int] == entry.deep_view());
            if same_text(entry.platform.as_str(), platform) {
                return &entry.names;
            }
            i += 1;
        }
        &self.binary_names
    }

    /// The name under which the executable is published on `platform`.
    pub fn published_name(&self, platform: &str) -> (name: Option<String>)
        ensures
            name.deep_view() == self@.published_name(platform@),
    {
        let names = self.names_on(platform);
        if names.len() > 0 {
            assert(names.deep_view()[0] == names@[0]@);
            if is_file_name(names[0].as_str()) {
                return Some(names[0].clone());
            }
        }
        None
    }

    /// This descriptor with `recipe` as its build recipe.
    pub fn with_build(self, recipe: &'static dyn BuildRecipe) -> (spec: Self)
        ensures
            spec@ == (ToolSpecView { has_build: true, ..self@ }),
    {
        ToolSpec { build: Some(recipe), ..self }
    }

    /// This descriptor with `probe` as its version probe.
    pub fn with_version_probe(self, probe: &'static dyn VersionProbe) -> (spec: Self)
        ensures
            spec@ == (ToolSpecView { has_version_probe: true, ..self@ }),
    {
        ToolSpec { version_probe: Some(probe), ..self }
    }

    /// This descriptor with `index` as its release index.
    pub fn with_releases(self, index: &'static dyn ReleaseIndex) -> (spec: Self)
        ensures
            spec@ == (ToolSpecView { has_releases: true, ..self@ }),
    {
        ToolSpec { releases: Some(index), ..self }
    }
}

/// The table that a list of descriptors stands for: each descriptor under
/// its identifier, a later one in place of an earlier one with the same
/// identifier.
pub open spec fn table_of(entries: Seq<ToolSpecView>) -> Map<Seq<char>, ToolSpecView>
    decreases entries.len(),
{
    if entries.len() == 0 {
        Map::empty()
    } else {
        table_of(entries.drop_last()).insert(entries.last().id, entries.last())
    }
}

/// An identifier that no descriptor of a list bears is not in its table.
pub proof fn lemma_table_absent(entries: Seq<ToolSpecView>, id: Seq<char>)
    requires
        forall|j: int| 0 <= j < entries.len() ==> entries[j].id != id,
    ensures
        !table_of(entries).contains_key(id),
    decreases entries.len(),
{
    if entries.len() > 0 {
        lemma_table_absent(entries.drop_last(), id);
    }
}

/// The table of a list holds, under an identifier, the last descriptor of the
/// list that bears it.
pub proof fn lemma_table_last(entries: Seq<ToolSpecView>, id: Seq<char>, k: int)
    requires
        0 <= k < entries.len(),
        entries[k].id == id,
        forall|j: int| k < j < entries.len() ==> entries[j].id != id,
    ensures
        table_of(entries).contains_key(id),
        table_of(entries)[id] == entries[k],
    decreases entries.len(),
{
    if k < entries.len() - 1 {
        lemma_table_last(entries.drop_last(), id, k);
    }
}

/// What is known about each service, by its identifier.
pub struct Registry {
    tools: Vec<ToolSpec>,
}

impl View for Registry {
    type V = Map<Seq<char>, ToolSpecView>;

    closed spec fn view(&self) -> Map<Seq<char>, ToolSpecView> {
        table_of(self.entries())
    }
}

impl Registry {
    /// The descriptors in the order in which they were registered.
    pub closed spec fn entries(&self) -> Seq<ToolSpecView> {
        Seq::new(self.tools@.len(), |i: int| self.tools@[i]@)
    }

    /// The registry of the services that are known from the start.
    pub fn with_builtins() -> (registry: Self)
        ensures
            registry@ == Map::<Seq<char>, ToolSpecView>::empty().insert(
                crate::zcashd::zcashd_name(),
                crate::zcashd::zcashd_descriptor(),
            ),
    {
        Registry::empty().register(crate::zcashd::spec_zcashd())
    }

    /// The registry that knows no service.
    pub fn empty() -> (registry: Self)
        ensures
            registry@ == Map::<Seq<char>, ToolSpecView>::empty(),
    {
        let registry = Registry { tools: Vec::new() };
        assert(registry.entries() =~= Seq::empty());
        registry
    }

    /// This registry with `spec` under its identifier, in place of what was
    /// registered under that identifier before.
    pub fn register(self, spec: ToolSpec) -> (registry: Self)
        ensures
            registry@ == self@.insert(spec.id@, spec@),
    {
        let mut tools = self.tools;
        tools.push(spec);
        let registry = Registry { tools };
        proof {
            assert(registry.entries().drop_last() =~= self.entries());
            assert(registry.entries().last() == spec@);
        }
        registry
    }

    /// The descriptor registered under `id`, if there is one.
    pub fn get(&self, id: &ServiceId) -> (found: Option<&ToolSpec>)
        ensures
            found is Some <==> self@.contains_key(id@),
            found is Some ==> found->0@ == self@[id@] && found->0.id@ == id@,
    {
        let mut i: usize = self.tools.len();
        while i > 0
            invariant
                i <= self.tools.len(),
                forall|j: int| i <= j < self.tools.len() ==> self.entries()[j].id != id@,
            decreases i,
        {
            i -= 1;
            let tool = &self.tools[i];
            if tool.id == *id {
                proof {
                    assert(self.entries()[i as int] == tool@);
                    lemma_table_last(self.entries(), id@, i as int);
                }
                return Some(tool);
            }
            assert(self.entries()[i as int].id != id@);
        }
        proof {
            lemma_table_absent(self.entries(), id@);
        }
        None
    }
}

impl Default for Registry {
    fn default() -> (registry: Self)
        ensures
            registry@ == Map::<Seq<char>, ToolSpecView>::empty().insert(
                crate::zcashd::zcashd_name(),
                crate::zcashd::zcashd_descriptor(),
            ),
    {
        Registry::with_builtins()
    }
}

} // verus!
