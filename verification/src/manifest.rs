//! The manifest: which declared type name is of which GraphQL kind.

use vstd::hash_map::StringHashMap;
use vstd::prelude::*;

verus! {

/// The GraphQL kind that the manifest gives a declared type name.
#[derive(Debug, Clone, Copy, PartialEq, Eq, Structural)]
pub enum GraphQLKind {
    Object,
    Input,
    Enum,
}

impl GraphQLKind {
    /// The kind with the given tag: 0 is `Object`, 1 is `Input`, 2 is `Enum`.
    pub open spec fn spec_from_u8(val: u8) -> Option<GraphQLKind> {
        if val == 0 {
            Some(GraphQLKind::Object)
        } else if val == 1 {
            Some(GraphQLKind::Input)
        } else if val == 2 {
            Some(GraphQLKind::Enum)
        } else {
            None
        }
    }

    /// Reads a kind from its tag; `None` for a tag above 2.
    pub fn from_u8(val: u8) -> (kind: Option<Self>)
        ensures
            kind == Self::spec_from_u8(val),
    {
        match val {
            0 => Some(GraphQLKind::Object),
            1 => Some(GraphQLKind::Input),
            2 => Some(GraphQLKind::Enum),
            _ => None,
        }
    }
}

/// What a manifest with the entries `kinds` says of `name`: its kind, or
/// `None` where the name has no entry.
pub open spec fn classify(kinds: Map<Seq<char>, GraphQLKind>, name: Seq<char>) -> Option<
    GraphQLKind,
> {
    if kinds.contains_key(name) {
        Some(kinds[name])
    } else {
        None
    }
}

/// A mapping from declared type names to kinds. A translation reads it and
/// never changes it.
pub struct Manifest {
    kinds: StringHashMap<GraphQLKind>,
}

impl View for Manifest {
    type V = Map<Seq<char>, GraphQLKind>;

    closed spec fn view(&self) -> Map<Seq<char>, GraphQLKind> {
        self.kinds@
    }
}

impl Manifest {
    /// A manifest without entries.
    pub fn new() -> (manifest: Self)
        ensures
            manifest@ == Map::<Seq<char>, GraphQLKind>::empty(),
    {
        Manifest { kinds: StringHashMap::new() }
    }

    /// Gives `name` the kind `kind`, in place of the kind it had, if any.
    pub fn insert(&mut self, name: String, kind: GraphQLKind)
        ensures
            final(self)@ == old(self)@.insert(name@, kind),
    {
        self.kinds.insert(name, kind);
    }

    /// Looks a name up. A name without an entry gives `None`, which no kind
    /// stands for.
    pub fn classify(&self, name: &str) -> (kind: Option<GraphQLKind>)
        ensures
            kind == classify(self@, name@),
    {
        match self.kinds.get(name) {
            Some(kind) => Some(*kind),
            None => None,
        }
    }
}

} // verus!
