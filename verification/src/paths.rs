//! The canonical path table: which declarations are known to be dangerous, by
//! the one path under which each is declared.

use std::collections::HashMap;
use vstd::prelude::*;
use crate::resolve::SymbolIdentity;

verus! {

/// The segments of a path, each by its characters.
pub type Segments = Seq<Seq<char>>;

/// The path under which a declaration really stands: crate, modules, item.
/// No alias or re-export is part of it.
#[derive(Clone, Debug, PartialEq, Eq)]
pub struct CanonicalPath {
    pub segments: Vec<String>,
}

impl View for CanonicalPath {
    type V = Segments;

    open spec fn view(&self) -> Segments {
        Seq::new(self.segments@.len(), |i: int| self.segments@[i]@)
    }
}

/// The segments that `names` spell.
pub open spec fn segments_of(names: Seq<&str>) -> Segments {
    Seq::new(names.len(), |i: int| names[i]@)
}

impl CanonicalPath {
    /// The path with the given segments.
    pub fn new(names: &[&str]) -> (path: CanonicalPath)
        ensures
            path@ == segments_of(names@),
    {
        let mut segments: Vec<String> = Vec::new();
        let mut i: usize = 0;
        while i < names.len()
            invariant
                i <= names.len(),
                segments@.len() == i,
                forall|j: int| 0 <= j < i ==> segments@[j]@ == names@[j]@,
            decreases names.len() - i,
        {
            segments.push(names[i].to_owned());
            i = i + 1;
        }
        let path = CanonicalPath { segments };
        assert(path@ =~= segments_of(names@));
        path
    }

    /// Whether two paths have the same segments in the same order.
    pub fn same_as(&self, other: &CanonicalPath) -> (same: bool)
        ensures
            same == (self@ == other@),
    {
        if self.segments.len() != other.segments.len() {
            assert(self@.len() != other@.len());
            return false;
        }
        let mut i: usize = 0;
        while i < self.segments.len()
            invariant
                i <= self.segments.len(),
                self.segments.len() == other.segments.len(),
                forall|j: int| 0 <= j < i ==> self@[j] == other@[j],
            decreases self.segments.len() - i,
        {
            if self.segments[i] != other.segments[i] {
                assert(self@[i as int] != other@[i as int]);
                return false;
            }
            i = i + 1;
        }
        assert(self@ =~= other@);
        true
    }
}

/// Which family of dangerous constructors a declaration belongs to.
#[derive(Clone, Copy, Debug, PartialEq, Eq, Structural)]
pub enum RuleTag {
    /// The value is made of zero bytes.
    ZeroFill,
    /// The value is made of memory that was never written.
    Uninitialized,
}

/// One registration.
#[derive(Clone, Debug)]
struct Entry {
    path: CanonicalPath,
    tag: RuleTag,
}

/// The tag of each path among `entries`. Of two entries with one path the
/// earlier one counts.
spec fn tags(entries: Seq<Entry>) -> Map<Segments, RuleTag>
    decreases entries.len(),
{
    if entries.len() == 0 {
        Map::empty()
    } else {
        let earlier = tags(entries.drop_last());
        let last = entries.last();
        if earlier.contains_key(last.path@) {
            earlier
        } else {
            earlier.insert(last.path@, last.tag)
        }
    }
}

/// A path that no entry holds has no tag.
proof fn lemma_absent(entries: Seq<Entry>, path: Segments)
    requires
        forall|j: int| 0 <= j < entries.len() ==> (#[trigger] entries[j]).path@ != path,
    ensures
        !tags(entries).contains_key(path),
    decreases entries.len(),
{
    if entries.len() > 0 {
        let front = entries.drop_last();
        assert forall|j: int| 0 <= j < front.len() implies (#[trigger] front[j]).path@ != path by {
            assert(entries[j].path@ != path);
        }
        lemma_absent(front, path);
        assert(entries[entries.len() - 1].path@ != path);
    }
}

/// A path has the tag of the first entry that holds it.
proof fn lemma_first(entries: Seq<Entry>, path: Segments, i: int)
    requires
        0 <= i < entries.len(),
        entries[i].path@ == path,
        forall|j: int| 0 <= j < i ==> (#[trigger] entries[j]).path@ != path,
    ensures
        tags(entries).contains_key(path),
        tags(entries)[path] == entries[i].tag,
    decreases entries.len(),
{
    let front = entries.drop_last();
    if i == entries.len() - 1 {
        assert forall|j: int| 0 <= j < front.len() implies (#[trigger] front[j]).path@ != path by {
            assert(entries[j].path@ != path);
        }
        lemma_absent(front, path);
    } else {
        assert(front[i] == entries[i]);
        assert forall|j: int| 0 <= j < i implies (#[trigger] front[j]).path@ != path by {
            assert(entries[j].path@ != path);
        }
        lemma_first(front, path, i);
    }
}

/// The registry of dangerous declarations. It is filled once, before any
/// analysis, and only read afterwards. A path has one tag: the one it was
/// first registered under.
#[derive(Clone, Debug)]
pub struct PathTable {
    entries: Vec<Entry>,
}

impl View for PathTable {
    type V = Map<Segments, RuleTag>;

    /// The tag of each registered path.
    closed spec fn view(&self) -> Map<Segments, RuleTag> {
        tags(self.entries@)
    }
}

impl PathTable {
    /// A registry without entries.
    pub fn new() -> (table: PathTable)
        ensures
            table@ == Map::<Segments, RuleTag>::empty(),
    {
        PathTable { entries: Vec::new() }
    }

    /// The tag under which `path` is registered, if it is.
    pub fn tag_of(&self, path: &CanonicalPath) -> (tag: Option<RuleTag>)
        ensures
            tag == (if self@.contains_key(path@) {
                Some(self@[path@])
            } else {
                None
            }),
    {
        let mut i: usize = 0;
        while i < self.entries.len()
            invariant
                i <= self.entries.len(),
                forall|j: int| 0 <= j < i ==> (#[trigger] self.entries@[j]).path@ != path@,
            decreases self.entries.len() - i,
        {
            if self.entries[i].path.same_as(path) {
                proof {
                    lemma_first(self.entries@, path@, i as int);
                }
                return Some(self.entries[i].tag);
            }
            i = i + 1;
        }
        proof {
            lemma_absent(self.entries@, path@);
        }
        None
    }

    /// Registers `path` under `tag`, unless the path is registered already:
    /// then the table stays as it is and the answer is `false`.
    pub fn register(&mut self, path: CanonicalPath, tag: RuleTag) -> (added: bool)
        ensures
            added == !old(self)@.contains_key(path@),
            final(self)@ == (if added {
                old(self)@.insert(path@, tag)
            } else {
                old(self)@
            }),
    {
        if self.tag_of(&path).is_some() {
            return false;
        }
        let ghost before = self.entries@;
        self.entries.push(Entry { path, tag });
        assert(self.entries@.drop_last() =~= before);
        true
    }
}

/// The canonical path of each declaration that the host knows, by identity.
#[derive(Clone, Debug)]
pub struct Definitions {
    pub paths: HashMap<u64, CanonicalPath>,
}

impl Definitions {
    /// The canonical path of the declaration `id`, if the host knows one.
    pub open spec fn path_of(self, id: SymbolIdentity) -> Option<Segments> {
        if self.paths@.contains_key(id.0) {
            Some(self.paths@[id.0]@)
        } else {
            None
        }
    }

    /// No declarations.
    pub fn new() -> (definitions: Definitions)
        ensures
            definitions.paths@ == Map::<u64, CanonicalPath>::empty(),
    {
        Definitions { paths: HashMap::new() }
    }

    /// Records `path` as the canonical path of the declaration `id`, in place
    /// of an earlier entry.
    pub fn define(&mut self, id: SymbolIdentity, path: CanonicalPath)
        ensures
            final(self).paths@ == old(self).paths@.insert(id.0, path),
    {
        broadcast use vstd::std_specs::hash::group_hash_axioms;
        self.paths.insert(id.0, path);
    }

    /// The canonical path of the declaration `id`, if the host knows one.
    pub fn canonical_path(&self, id: SymbolIdentity) -> (path: Option<&CanonicalPath>)
        ensures
            match path {
                Some(p) => self.path_of(id) == Some(p@),
                None => self.path_of(id).is_none(),
            },
    {
        broadcast use vstd::std_specs::hash::group_hash_axioms;
        self.paths.get(&id.0)
    }
}

/// `core::mem::zeroed`
pub const MEM_ZEROED: [&'static str; 3] = ["core", "mem", "zeroed"];

/// `core::intrinsics::init`, declared in a block without a name.
pub const INIT: [&'static str; 4] = ["core", "intrinsics", "", "init"];

/// `core::mem::uninitialized`
pub const MEM_UNINIT: [&'static str; 3] = ["core", "mem", "uninitialized"];

/// `core::intrinsics::uninit`, declared in a block without a name.
pub const UNINIT: [&'static str; 4] = ["core", "intrinsics", "", "uninit"];

impl PathTable {
    /// The tag of the declaration `id`: that of its canonical path. A
    /// declaration without a known path, or with a path that is not
    /// registered, has none.
    pub open spec fn lookup_spec(self, id: SymbolIdentity, definitions: Definitions) -> Option<
        RuleTag,
    > {
        match definitions.path_of(id) {
            Some(path) => if self@.contains_key(path) {
                Some(self@[path])
            } else {
                None
            },
            None => None,
        }
    }

    /// The tag of the declaration `id`, if it is one of the registered ones.
    /// `None` is the ordinary answer for every other declaration.
    pub fn lookup(&self, id: SymbolIdentity, definitions: &Definitions) -> (tag: Option<RuleTag>)
        ensures
            tag == self.lookup_spec(id, *definitions),
    {
        match definitions.canonical_path(id) {
            Some(path) => self.tag_of(path),
            None => None,
        }
    }

    /// The registry of the constructors that are known to be dangerous: two
    /// that fill a value with zero bytes and two that leave it unwritten.
    pub fn dangerous_constructors() -> (table: PathTable)
        ensures
            table@ == dangerous_constructor_tags(),
    {
        let mut table = PathTable::new();
        proof {
            lemma_known_paths_differ();
        }
        table.register(CanonicalPath::new(&MEM_ZEROED), RuleTag::ZeroFill);
        table.register(CanonicalPath::new(&INIT), RuleTag::ZeroFill);
        table.register(CanonicalPath::new(&MEM_UNINIT), RuleTag::Uninitialized);
        table.register(CanonicalPath::new(&UNINIT), RuleTag::Uninitialized);
        table
    }
}

/// What `PathTable::dangerous_constructors` holds.
pub open spec fn dangerous_constructor_tags() -> Map<Segments, RuleTag> {
    Map::<Segments, RuleTag>::empty().insert(segments_of(MEM_ZEROED@), RuleTag::ZeroFill).insert(
        segments_of(INIT@),
        RuleTag::ZeroFill,
    ).insert(segments_of(MEM_UNINIT@), RuleTag::Uninitialized).insert(
        segments_of(UNINIT@),
        RuleTag::Uninitialized,
    )
}

/// The four known paths are four different paths.
pub proof fn lemma_known_paths_differ()
    ensures
        segments_of(MEM_ZEROED@) != segments_of(INIT@),
        segments_of(MEM_ZEROED@) != segments_of(MEM_UNINIT@),
        segments_of(MEM_ZEROED@) != segments_of(UNINIT@),
        segments_of(INIT@) != segments_of(MEM_UNINIT@),
        segments_of(INIT@) != segments_of(UNINIT@),
        segments_of(MEM_UNINIT@) != segments_of(UNINIT@),
{
    reveal_strlit("zeroed");
    reveal_strlit("uninitialized");
    reveal_strlit("init");
    reveal_strlit("uninit");
    assert(segments_of(MEM_ZEROED@).len() == 3);
    assert(segments_of(MEM_UNINIT@).len() == 3);
    assert(segments_of(INIT@).len() == 4);
    assert(segments_of(UNINIT@).len() == 4);
    assert(segments_of(MEM_ZEROED@)[2].len() == 6);
    assert(segments_of(MEM_UNINIT@)[2].len() == 13);
    assert(segments_of(INIT@)[3].len() == 4);
    assert(segments_of(UNINIT@)[3].len() == 6);
}

} // verus!
