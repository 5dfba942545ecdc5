//! Exported records by the leaf name they are referenced with.
use vstd::prelude::*;

use crate::ast::RecordId;
use crate::text::text_eq;

verus! {

/// A declared type a source reference can resolve to.
#[derive(Debug, Eq, PartialEq)]
pub enum DeclaredType {
    /// A record declared in the contract.
    Record(RecordId),
}

/// Maps an exported type's source name to its declared identity.
///
/// Keys are leaf identifiers (`Point`), matching how references are
/// written in signatures; two types that share a leaf name collide, the
/// last registration winning.
#[derive(Debug)]
pub struct TypeRegistry {
    by_name: Vec<(String, DeclaredType)>,
}

/// The record path registered under each name.
pub open spec fn spec_names(entries: Seq<(String, DeclaredType)>) -> Map<Seq<char>, Seq<char>>
    decreases entries.len(),
{
    if entries.len() == 0 {
        Map::empty()
    } else {
        let last = entries.last();
        match last.1 {
            DeclaredType::Record(id) => spec_names(entries.drop_last()).insert(last.0@, id.0@),
        }
    }
}

impl View for TypeRegistry {
    type V = Map<Seq<char>, Seq<char>>;

    closed spec fn view(&self) -> Map<Seq<char>, Seq<char>> {
        spec_names(self.by_name@)
    }
}

impl TypeRegistry {
    /// An empty registry.
    pub fn new() -> (registry: Self)
        ensures
            registry@ == Map::<Seq<char>, Seq<char>>::empty(),
    {
        TypeRegistry { by_name: Vec::new() }
    }

    /// Registers the record `id` under `name`, replacing any earlier
    /// registration of that name.
    pub fn register_record(&mut self, name: &str, id: RecordId)
        ensures
            final(self)@ == old(self)@.insert(name@, id.0@),
    {
        let ghost before = self.by_name@;
        self.by_name.push((name.to_owned(), DeclaredType::Record(id)));
        proof {
            assert(self.by_name@.drop_last() =~= before);
        }
    }

    /// The type registered under `name`, if any.
    pub fn resolve(&self, name: &str) -> (declared: Option<&DeclaredType>)
        ensures
            match declared {
                Some(DeclaredType::Record(id)) => self@.contains_key(name@) && self@[name@]
                    == id.0@,
                None => !self@.contains_key(name@),
            },
    {
        let mut i = self.by_name.len();
        proof {
            assert(self.by_name@.take(i as int) =~= self.by_name@);
        }
        while i > 0
            invariant
                i <= self.by_name.len(),
                forall|j: int|
                    i <= j < self.by_name@.len() ==> (#[trigger] self.by_name@[j]).0@ != name@,
                spec_names(self.by_name@).contains_key(name@) == spec_names(
                    self.by_name@.take(i as int),
                ).contains_key(name@),
                spec_names(self.by_name@).contains_key(name@) ==> spec_names(self.by_name@)[name@]
                    == spec_names(self.by_name@.take(i as int))[name@],
            decreases i,
        {
            let entry = &self.by_name[i - 1];
            proof {
                assert(self.by_name@.take(i as int).drop_last() =~= self.by_name@.take(i - 1));
            }
            if text_eq(entry.0.as_str(), name) {
                return Some(&entry.1);
            }
            i = i - 1;
        }
        None
    }
}

} // verus!
