//! The catalog of development shells that a flake declares.

use crate::table::Table;
use vstd::prelude::*;
use vstd::string::StringExecFns;

verus! {

/// The key under which the tool lists development shells.
pub const NAMESPACE: &'static str = "devShells";

/// The key under which the tool lists development shells, as contracts
/// write it.
pub open spec fn namespace() -> Seq<char> {
    "devShells"@
}

/// What the tool tells of one shell.
#[derive(Debug, PartialEq, Eq)]
pub struct ShellInfo {
    /// The name that the tool displays.
    pub name: String,
    /// The tool's tag for what sort of thing this is.
    pub kind: String,
}

/// What the tool tells of one shell, as contracts see it.
pub struct ShellInfoView {
    pub name: Seq<char>,
    pub kind: Seq<char>,
}

impl View for ShellInfo {
    type V = ShellInfoView;

    open spec fn view(&self) -> ShellInfoView {
        ShellInfoView { name: self.name@, kind: self.kind@ }
    }
}

/// The shells of one platform, by name.
pub type Shells = Map<Seq<char>, ShellInfoView>;

/// The shells of every platform, by the platform's tag.
pub type Platforms = Map<Seq<char>, Shells>;

/// A catalog: under a namespace, the shells of every platform.
pub type Catalog = Map<Seq<char>, Platforms>;

/// What a table of shells maps.
pub open spec fn shells_view(t: Table<ShellInfo>) -> Shells {
    t@.map_values(|info: ShellInfo| info@)
}

/// What a table of platforms maps.
pub open spec fn platforms_view(t: Table<Table<ShellInfo>>) -> Platforms {
    t@.map_values(|shells: Table<ShellInfo>| shells_view(shells))
}

/// Whether the catalog `c` holds the shell `name` for the platform `archi`:
/// the namespace of shells is there, the platform under it, and the name
/// under the platform.
pub open spec fn has_shell(c: Catalog, archi: Seq<char>, name: Seq<char>) -> bool {
    &&& c.contains_key(namespace())
    &&& c[namespace()].contains_key(archi)
    &&& c[namespace()][archi].contains_key(name)
}

/// The names of the shells that the catalog `c` holds for the platform
/// `archi`; none where it does not know the platform.
pub open spec fn names_of(c: Catalog, archi: Seq<char>) -> Set<Seq<char>> {
    if c.contains_key(namespace()) && c[namespace()].contains_key(archi) {
        c[namespace()][archi].dom()
    } else {
        Set::empty()
    }
}

/// In a catalog that knows the platform `archi`, a shell exists exactly
/// where the platform has its name.
pub proof fn lemma_shell_exists_where_named(c: Catalog, archi: Seq<char>, name: Seq<char>)
    requires
        c.contains_key(namespace()),
        c[namespace()].contains_key(archi),
    ensures
        has_shell(c, archi, name) <==> c[namespace()][archi].contains_key(name),
        has_shell(c, archi, name) <==> names_of(c, archi).contains(name),
{
}

/// A catalog that does not know the platform `archi` holds no shell for it,
/// whatever the name, and has no name to list for it.
pub proof fn lemma_unknown_platform_has_no_shell(c: Catalog, archi: Seq<char>, name: Seq<char>)
    requires
        !(c.contains_key(namespace()) && c[namespace()].contains_key(archi)),
    ensures
        !has_shell(c, archi, name),
        names_of(c, archi) == Set::<Seq<char>>::empty(),
{
}

/// The line that says that the platform `archi` has no shells.
pub open spec fn no_shells_text(archi: Seq<char>) -> Seq<char> {
    "No devshells found for "@ + archi
}

/// The lines that list `names`, one name a line; where there is no name, the
/// one line that says so for the platform `archi`.
pub open spec fn listing(names: Seq<Seq<char>>, archi: Seq<char>) -> Seq<Seq<char>> {
    if names.len() == 0 {
        seq![no_shells_text(archi)]
    } else {
        names
    }
}

/// The catalog with the given platforms under the namespace of shells, and
/// nothing else.
pub open spec fn catalog_with(platforms: Platforms) -> Catalog {
    Map::<Seq<char>, Platforms>::empty().insert(namespace(), platforms)
}

/// The catalog of a flake: under the namespace of shells, for each platform,
/// its shells by name, with what the tool tells of each.
#[derive(Debug)]
pub struct NixFlakeData {
    /// The platforms that stand under the namespace of shells, each with
    /// its shells.
    pub devshells: Table<Table<ShellInfo>>,
}

impl View for NixFlakeData {
    type V = Catalog;

    open spec fn view(&self) -> Catalog {
        catalog_with(platforms_view(self.devshells))
    }
}

impl NixFlakeData {
    /// The platforms, in the order in which the catalog holds them.
    pub open spec fn platform_order(&self) -> Seq<Seq<char>> {
        self.devshells.key_order()
    }

    /// The names of the shells of the platform `archi`, in the order in which
    /// the catalog lists them; none where it does not know the platform.
    pub open spec fn name_order(&self, archi: Seq<char>) -> Seq<Seq<char>> {
        if self.devshells@.contains_key(archi) {
            self.devshells@[archi].key_order()
        } else {
            Seq::empty()
        }
    }

    /// A catalog that holds the given platforms under the namespace of
    /// shells.
    pub fn with_platforms(platforms: Table<Table<ShellInfo>>) -> (data: Self)
        ensures
            data.devshells == platforms,
    {
        NixFlakeData { devshells: platforms }
    }

    /// Whether the catalog holds the shell `shell_name` for the platform
    /// `archi`. A platform or a name that is not there is no error.
    pub fn shell_exists(&self, archi: &str, shell_name: &str) -> (b: bool)
        ensures
            b == has_shell(self@, archi@, shell_name@),
            self@.contains_key(namespace()),
    {
        match self.devshells.get(archi) {
            Some(shells) => shells.contains_key(shell_name),
            None => false,
        }
    }

    /// The names of the shells of the platform `archi`; none where the
    /// catalog does not know the platform.
    pub fn list_names(&self, archi: &str) -> (names: Vec<String>)
        ensures
            names.deep_view() == self.name_order(archi@),
            names.deep_view().no_duplicates(),
            names.deep_view().to_set() == names_of(self@, archi@),
            self@.contains_key(namespace()),
            !self@[namespace()].contains_key(archi@) ==> names@.len() == 0,
    {
        match self.devshells.get(archi) {
            Some(shells) => {
                let names = shells.keys();
                assert(names.deep_view() =~= shells.key_order());
                names
            },
            None => {
                let names: Vec<String> = Vec::new();
                assert(names.deep_view() =~= Seq::<Seq<char>>::empty());
                assert(names_of(self@, archi@) =~= names.deep_view().to_set());
                names
            },
        }
    }

    /// The lines that list the shells of the platform `archi`: one name a
    /// line, or the one line that says that there is none.
    pub fn print_shells(&self, archi: &str) -> (lines: Vec<String>)
        ensures
            lines.deep_view() == listing(self.name_order(archi@), archi@),
    {
        let names = self.list_names(archi);
        if names.len() == 0 {
            let mut notice = String::from_str("No devshells found for ");
            notice.append(archi);
            let mut lines: Vec<String> = Vec::new();
            lines.push(notice);
            assert(lines.deep_view() =~= seq![no_shells_text(archi@)]);
            lines
        } else {
            names
        }
    }
}

} // verus!
