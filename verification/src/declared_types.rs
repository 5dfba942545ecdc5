//! The exported types of a crate, indexed by their fully qualified path so
//! that references to them can be resolved.
use vstd::prelude::*;

use crate::ast::{ClassId, EnumId, RecordId, TraitId};
use crate::error::{ScanError, ScanErrorView};
use crate::impl_target::{spec_class_error, spec_path_target_resolve, spec_target_path, Target};
use crate::marked::{entries_fit, marked_views, Bucket, Marked, MarkedItems};
use crate::marker::Marker;
use crate::path::{spec_qualified, ModulePath};
use crate::spelling::spell_type;
use crate::syntax::{SynItem, ItemKind};
use crate::text::text_eq;

verus! {

/// A declared type a source reference can resolve to.
#[derive(Debug, Eq, PartialEq)]
pub enum DeclaredType {
    Record(RecordId),
    Enum(EnumId),
    Trait(TraitId),
    Class(ClassId),
}

/// The domain a declared type belongs to.
#[derive(Clone, Copy, Debug, Eq, PartialEq, Structural)]
pub enum DeclaredKind {
    Record,
    Enum,
    Trait,
    Class,
}

/// The fully qualified path of a declared type.
pub open spec fn declared_path(declared: DeclaredType) -> Seq<char> {
    match declared {
        DeclaredType::Record(id) => id.0@,
        DeclaredType::Enum(id) => id.0@,
        DeclaredType::Trait(id) => id.0@,
        DeclaredType::Class(id) => id.0@,
    }
}

/// The domain of a declared type.
pub open spec fn declared_kind(declared: DeclaredType) -> DeclaredKind {
    match declared {
        DeclaredType::Record(_) => DeclaredKind::Record,
        DeclaredType::Enum(_) => DeclaredKind::Enum,
        DeclaredType::Trait(_) => DeclaredKind::Trait,
        DeclaredType::Class(_) => DeclaredKind::Class,
    }
}

/// The name a domain is reported with.
pub open spec fn kind_text(kind: DeclaredKind) -> Seq<char> {
    match kind {
        DeclaredKind::Record => "record"@,
        DeclaredKind::Enum => "enum"@,
        DeclaredKind::Trait => "trait"@,
        DeclaredKind::Class => "class"@,
    }
}

/// Only a class may be declared again at its path: several exported impl
/// blocks of one type make one class.
pub open spec fn spec_allows_redeclaration(kind: DeclaredKind) -> bool {
    kind == DeclaredKind::Class
}

/// Registering a declaration of `kind` at `path`: a new path is added; the
/// same path again is accepted, unchanged, only for a kind that allows
/// redeclaration; any other repeat conflicts with the first declaration.
pub open spec fn spec_register(
    declared: Map<Seq<char>, DeclaredKind>,
    path: Seq<char>,
    kind: DeclaredKind,
) -> Result<Map<Seq<char>, DeclaredKind>, ScanErrorView> {
    if declared.contains_key(path) {
        if declared[path] == kind && spec_allows_redeclaration(kind) {
            Ok(declared)
        } else {
            Err(
                ScanErrorView::ConflictingDeclarations {
                    path,
                    first: kind_text(declared[path]),
                    second: kind_text(kind),
                },
            )
        }
    } else {
        Ok(declared.insert(path, kind))
    }
}

/// A declaration to register, or the error that keeps it from being one.
pub type Candidate = Result<(Seq<char>, DeclaredKind), ScanErrorView>;

/// Registers `candidates` in order, starting from `start`; the first error
/// stops the registration.
pub open spec fn spec_register_from(
    start: Map<Seq<char>, DeclaredKind>,
    candidates: Seq<Candidate>,
) -> Result<Map<Seq<char>, DeclaredKind>, ScanErrorView>
    decreases candidates.len(),
{
    if candidates.len() == 0 {
        Ok(start)
    } else {
        match spec_register_from(start, candidates.drop_last()) {
            Err(error) => Err(error),
            Ok(declared) => match candidates.last() {
                Err(error) => Err(error),
                Ok((path, kind)) => spec_register(declared, path, kind),
            },
        }
    }
}

/// The declaration a marked value type or trait makes: its module-qualified
/// name with the given kind.
pub open spec fn spec_named_candidate(kind: DeclaredKind, entry: (ModulePath, Marker, SynItem)) -> Candidate {
    Ok((spec_qualified(entry.0@, entry.2.ident@), kind))
}

/// The declaration an exported impl block makes: the class its target
/// resolves to from the block's module.
pub open spec fn spec_class_candidate(entry: (ModulePath, Marker, SynItem)) -> Candidate {
    match entry.2.kind {
        ItemKind::Impl(item) => match spec_class_error(item) {
            Some(error) => Err(error),
            None => match spec_path_target_resolve(spec_target_path(item), entry.0@) {
                Some(path) => Ok((path, DeclaredKind::Class)),
                None => Err(ScanErrorView::UnsupportedClassImpl { target: spell_type(item.self_ty) }),
            },
        },
        _ => Err(ScanErrorView::UnsupportedClassImpl { target: Seq::empty() }),
    }
}

pub open spec fn spec_named_candidates(kind: DeclaredKind, entries: Seq<(ModulePath, Marker, SynItem)>) -> Seq<Candidate> {
    entries.map_values(|entry: (ModulePath, Marker, SynItem)| spec_named_candidate(kind, entry))
}

pub open spec fn spec_class_candidates(entries: Seq<(ModulePath, Marker, SynItem)>) -> Seq<Candidate> {
    entries.map_values(|entry: (ModulePath, Marker, SynItem)| spec_class_candidate(entry))
}

/// The declarations of a set of marked items: records, enums, traits,
/// then classes, each in source order.
pub open spec fn spec_candidates(marked: MarkedItems) -> Seq<Candidate> {
    spec_named_candidates(DeclaredKind::Record, marked.bucket(Bucket::Records))
        + spec_named_candidates(DeclaredKind::Enum, marked.bucket(Bucket::Enums))
        + spec_named_candidates(DeclaredKind::Trait, marked.bucket(Bucket::Traits))
        + spec_class_candidates(marked.bucket(Bucket::Classes))
}

/// The declared types of a crate by fully qualified path. No path is held
/// twice.
#[derive(Debug)]
pub struct DeclaredTypes {
    by_path: Vec<DeclaredType>,
}

/// The map from paths to kinds that a list of declarations makes.
pub open spec fn spec_map(declared: Seq<DeclaredType>) -> Map<Seq<char>, DeclaredKind>
    decreases declared.len(),
{
    if declared.len() == 0 {
        Map::empty()
    } else {
        spec_map(declared.drop_last()).insert(
            declared_path(declared.last()),
            declared_kind(declared.last()),
        )
    }
}

/// Whether no two declarations share a path.
pub open spec fn unique_paths(declared: Seq<DeclaredType>) -> bool {
    forall|i: int, j: int|
        0 <= i < declared.len() && 0 <= j < declared.len() && i != j ==> declared_path(
            #[trigger] declared[i],
        ) != declared_path(#[trigger] declared[j])
}

/// With unique paths, the map holds exactly the declared paths, each with
/// its kind.
proof fn lemma_spec_map(declared: Seq<DeclaredType>)
    requires
        unique_paths(declared),
    ensures
        forall|p: Seq<char>|
            #[trigger] spec_map(declared).contains_key(p) <==> exists|i: int|
                0 <= i < declared.len() && declared_path(#[trigger] declared[i]) == p,
        forall|i: int|
            0 <= i < declared.len() ==> spec_map(declared)[declared_path(#[trigger] declared[i])]
                == declared_kind(declared[i]),
    decreases declared.len(),
{
    if declared.len() > 0 {
        let rest = declared.drop_last();
        assert(unique_paths(rest)) by {
            assert forall|i: int, j: int|
                0 <= i < rest.len() && 0 <= j < rest.len() && i != j implies declared_path(
                #[trigger] rest[i],
            ) != declared_path(#[trigger] rest[j]) by {
                assert(rest[i] == declared[i]);
                assert(rest[j] == declared[j]);
            }
        }
        lemma_spec_map(rest);
        assert forall|p: Seq<char>|
            #[trigger] spec_map(declared).contains_key(p) <==> exists|i: int|
                0 <= i < declared.len() && declared_path(#[trigger] declared[i]) == p by {
            if spec_map(rest).contains_key(p) {
                let i = choose|i: int| 0 <= i < rest.len() && declared_path(#[trigger] rest[i]) == p;
                assert(declared[i] == rest[i]);
            }
            if exists|i: int| 0 <= i < declared.len() && declared_path(#[trigger] declared[i]) == p {
                let i = choose|i: int| 0 <= i < declared.len() && declared_path(#[trigger] declared[i]) == p;
                if i < rest.len() {
                    assert(rest[i] == declared[i]);
                }
            }
        }
        assert forall|i: int| 0 <= i < declared.len() implies spec_map(
            declared,
        )[declared_path(#[trigger] declared[i])] == declared_kind(declared[i]) by {
            if i < rest.len() {
                assert(rest[i] == declared[i]);
                assert(declared_path(declared[i]) != declared_path(declared.last()));
            }
        }
    }
}

/// A declaration at a new path is accepted, and its path then resolves to
/// its kind.
pub proof fn lemma_register_fresh(
    declared: Map<Seq<char>, DeclaredKind>,
    path: Seq<char>,
    kind: DeclaredKind,
)
    requires
        !declared.contains_key(path),
    ensures
        spec_register(declared, path, kind) matches Ok(after) && after.contains_key(path)
            && after[path] == kind && forall|p: Seq<char>|
            p != path ==> (#[trigger] after.contains_key(p)) == declared.contains_key(p),
{
}

/// A second declaration at a path conflicts, naming both kinds, unless
/// both are classes; a repeated class declaration changes nothing.
pub proof fn lemma_register_repeat(
    declared: Map<Seq<char>, DeclaredKind>,
    path: Seq<char>,
    kind: DeclaredKind,
)
    requires
        declared.contains_key(path),
    ensures
        (declared[path] == DeclaredKind::Class && kind == DeclaredKind::Class) ==> spec_register(
            declared,
            path,
            kind,
        ) == Ok::<Map<Seq<char>, DeclaredKind>, ScanErrorView>(declared),
        !(declared[path] == DeclaredKind::Class && kind == DeclaredKind::Class) ==> spec_register(
            declared,
            path,
            kind,
        ) == Err::<Map<Seq<char>, DeclaredKind>, ScanErrorView>(
            ScanErrorView::ConflictingDeclarations {
                path,
                first: kind_text(declared[path]),
                second: kind_text(kind),
            },
        ),
{
}

/// Registration only adds: every path declared before stays declared with
/// the same kind.
pub proof fn lemma_register_keeps(
    start: Map<Seq<char>, DeclaredKind>,
    candidates: Seq<Candidate>,
)
    ensures
        spec_register_from(start, candidates) matches Ok(after) ==> forall|p: Seq<char>|
            #[trigger] start.contains_key(p) ==> after.contains_key(p) && after[p] == start[p],
    decreases candidates.len(),
{
    if candidates.len() > 0 {
        lemma_register_keeps(start, candidates.drop_last());
    }
}

/// Once the declarations of a crate are indexed, each of them resolves to
/// its kind: declaration order does not matter to what is found.
pub proof fn lemma_index_resolves(
    start: Map<Seq<char>, DeclaredKind>,
    candidates: Seq<Candidate>,
    k: int,
)
    requires
        0 <= k < candidates.len(),
        candidates[k] is Ok,
        spec_register_from(start, candidates) is Ok,
    ensures
        spec_register_from(start, candidates) matches Ok(after) && candidates[k] matches Ok(
            (path, kind),
        ) && after.contains_key(path) && after[path] == kind,
    decreases candidates.len(),
{
    let rest = candidates.drop_last();
    if k == candidates.len() - 1 {
        match spec_register_from(start, rest) {
            Ok(before) => {},
            Err(_) => {},
        }
    } else {
        assert(rest[k] == candidates[k]);
        lemma_index_resolves(start, rest, k);
    }
}

/// Registering `a` then `b` is registering `a + b`.
pub proof fn lemma_register_append(
    start: Map<Seq<char>, DeclaredKind>,
    a: Seq<Candidate>,
    b: Seq<Candidate>,
)
    ensures
        spec_register_from(start, a + b) == match spec_register_from(start, a) {
            Ok(declared) => spec_register_from(declared, b),
            Err(error) => Err(error),
        },
    decreases b.len(),
{
    if b.len() == 0 {
        assert(a + b =~= a);
    } else {
        assert((a + b).drop_last() =~= a + b.drop_last());
        assert((a + b).last() == b.last());
        lemma_register_append(start, a, b.drop_last());
    }
}

/// Once a prefix fails to register, the whole sequence fails with the same
/// error.
proof fn lemma_register_stops(start: Map<Seq<char>, DeclaredKind>, candidates: Seq<Candidate>, n: int)
    requires
        0 <= n <= candidates.len(),
        spec_register_from(start, candidates.take(n)) is Err,
    ensures
        spec_register_from(start, candidates) == spec_register_from(start, candidates.take(n)),
{
    assert(candidates =~= candidates.take(n) + candidates.skip(n));
    lemma_register_append(start, candidates.take(n), candidates.skip(n));
}

impl DeclaredType {
    /// The fully qualified path of this declaration.
    pub fn path(&self) -> (path: &str)
        ensures
            path@ == declared_path(*self),
    {
        match self {
            DeclaredType::Record(id) => id.0.as_str(),
            DeclaredType::Enum(id) => id.0.as_str(),
            DeclaredType::Trait(id) => id.0.as_str(),
            DeclaredType::Class(id) => id.0.as_str(),
        }
    }

    /// The domain of this declaration.
    pub fn kind(&self) -> (kind: DeclaredKind)
        ensures
            kind == declared_kind(*self),
    {
        match self {
            DeclaredType::Record(_) => DeclaredKind::Record,
            DeclaredType::Enum(_) => DeclaredKind::Enum,
            DeclaredType::Trait(_) => DeclaredKind::Trait,
            DeclaredType::Class(_) => DeclaredKind::Class,
        }
    }
}

impl DeclaredKind {
    /// The name this domain is reported with.
    pub fn as_str(self) -> (name: &'static str)
        ensures
            name@ == kind_text(self),
    {
        proof {
            reveal_strlit("record");
            reveal_strlit("enum");
            reveal_strlit("trait");
            reveal_strlit("class");
        }
        match self {
            DeclaredKind::Record => "record",
            DeclaredKind::Enum => "enum",
            DeclaredKind::Trait => "trait",
            DeclaredKind::Class => "class",
        }
    }

    /// Whether a second declaration of this domain at the same path is the
    /// same declaration.
    pub fn allows_redeclaration(self) -> (allows: bool)
        ensures
            allows == spec_allows_redeclaration(self),
    {
        matches!(self, DeclaredKind::Class)
    }
}

impl View for DeclaredTypes {
    type V = Map<Seq<char>, DeclaredKind>;

    closed spec fn view(&self) -> Map<Seq<char>, DeclaredKind> {
        spec_map(self.by_path@)
    }
}

impl DeclaredTypes {
    #[verifier::type_invariant]
    spec fn paths_are_unique(self) -> bool {
        unique_paths(self.by_path@)
    }

    /// No declared types.
    pub fn new() -> (declared: Self)
        ensures
            declared@ == Map::<Seq<char>, DeclaredKind>::empty(),
    {
        DeclaredTypes { by_path: Vec::new() }
    }

    /// The declared type at `path`, if any.
    pub fn resolve(&self, path: &str) -> (declared: Option<&DeclaredType>)
        ensures
            match declared {
                Some(d) => self@.contains_key(path@) && declared_path(*d) == path@
                    && declared_kind(*d) == self@[path@],
                None => !self@.contains_key(path@),
            },
    {
        proof {
            use_type_invariant(self);
            lemma_spec_map(self.by_path@);
        }
        match self.position(path) {
            Some(i) => Some(&self.by_path[i]),
            None => None,
        }
    }

    fn position(&self, path: &str) -> (position: Option<usize>)
        ensures
            match position {
                Some(i) => i < self.by_path@.len() && declared_path(self.by_path@[i as int])
                    == path@,
                None => forall|i: int|
                    0 <= i < self.by_path@.len() ==> declared_path(#[trigger] self.by_path@[i])
                        != path@,
            },
    {
        let mut i: usize = 0;
        while i < self.by_path.len()
            invariant
                i <= self.by_path.len(),
                forall|j: int| 0 <= j < i ==> declared_path(#[trigger] self.by_path@[j]) != path@,
            decreases self.by_path.len() - i,
        {
            if text_eq(self.by_path[i].path(), path) {
                return Some(i);
            }
            i = i + 1;
        }
        None
    }

    /// Indexes the declared types of a set of marked items: records,
    /// enums, traits, then classes, each in source order. The first
    /// declaration that conflicts with an earlier one, or an exported impl
    /// block that cannot declare a class, rejects the index.
    pub fn index(marked: &MarkedItems) -> (declared: Result<Self, ScanError>)
        requires
            marked.wf(),
        ensures
            match spec_register_from(Map::empty(), spec_candidates(*marked)) {
                Ok(map) => declared matches Ok(d) && d@ == map,
                Err(error) => declared matches Err(e) && e@ == error,
            },
    {
        let ghost records = spec_named_candidates(DeclaredKind::Record, marked.bucket(Bucket::Records));
        let ghost enums = spec_named_candidates(DeclaredKind::Enum, marked.bucket(Bucket::Enums));
        let ghost traits = spec_named_candidates(DeclaredKind::Trait, marked.bucket(Bucket::Traits));
        let ghost classes = spec_class_candidates(marked.bucket(Bucket::Classes));
        proof {
            assert(spec_candidates(*marked) == records + enums + traits + classes);
            lemma_register_append(Map::empty(), records + enums + traits, classes);
            lemma_register_append(Map::empty(), records + enums, traits);
            lemma_register_append(Map::empty(), records, enums);
            assert(entries_fit(marked.bucket(Bucket::Classes), Bucket::Classes));
        }
        let mut declared = DeclaredTypes::new();
        declared.register_named(marked.records(), DeclaredKind::Record)?;
        declared.register_named(marked.enums(), DeclaredKind::Enum)?;
        declared.register_named(marked.traits(), DeclaredKind::Trait)?;
        declared.register_classes(marked.classes())?;
        Ok(declared)
    }

    fn register_named(&mut self, entries: &[Marked], kind: DeclaredKind) -> (res: Result<(), ScanError>)
        requires
            kind != DeclaredKind::Class,
        ensures
            match spec_register_from(
                old(self)@,
                spec_named_candidates(kind, marked_views(entries@)),
            ) {
                Ok(map) => res is Ok && final(self)@ == map,
                Err(error) => res matches Err(e) && e@ == error,
            },
    {
        let ghost start = self@;
        let ghost candidates = spec_named_candidates(kind, marked_views(entries@));
        let mut i: usize = 0;
        while i < entries.len()
            invariant
                i <= entries.len(),
                start == old(self)@,
                kind != DeclaredKind::Class,
                candidates == spec_named_candidates(kind, marked_views(entries@)),
                spec_register_from(start, candidates.take(i as int)) == Ok::<
                    Map<Seq<char>, DeclaredKind>,
                    ScanErrorView,
                >(self@),
            decreases entries.len() - i,
        {
            let entry = &entries[i];
            let path = entry.module().qualified(entry.item().ident.as_str());
            let declared = match kind {
                DeclaredKind::Record => DeclaredType::Record(RecordId(path)),
                DeclaredKind::Enum => DeclaredType::Enum(EnumId(path)),
                _ => DeclaredType::Trait(TraitId(path)),
            };
            proof {
                assert(candidates.take(i + 1).drop_last() =~= candidates.take(i as int));
                assert(candidates.take(i + 1).last() == candidates[i as int]);
                assert(candidates[i as int] == spec_named_candidate(kind, entry.view()));
            }
            match self.register(declared) {
                Ok(()) => {},
                Err(error) => {
                    proof {
                        lemma_register_stops(start, candidates, i + 1);
                    }
                    return Err(error);
                },
            }
            i = i + 1;
        }
        proof {
            assert(candidates.take(entries.len() as int) =~= candidates);
        }
        Ok(())
    }

    fn register_classes(&mut self, entries: &[Marked]) -> (res: Result<(), ScanError>)
        requires
            entries_fit(marked_views(entries@), Bucket::Classes),
        ensures
            match spec_register_from(old(self)@, spec_class_candidates(marked_views(entries@))) {
                Ok(map) => res is Ok && final(self)@ == map,
                Err(error) => res matches Err(e) && e@ == error,
            },
    {
        let ghost start = self@;
        let ghost candidates = spec_class_candidates(marked_views(entries@));
        let mut i: usize = 0;
        while i < entries.len()
            invariant
                i <= entries.len(),
                start == old(self)@,
                entries_fit(marked_views(entries@), Bucket::Classes),
                candidates == spec_class_candidates(marked_views(entries@)),
                spec_register_from(start, candidates.take(i as int)) == Ok::<
                    Map<Seq<char>, DeclaredKind>,
                    ScanErrorView,
                >(self@),
            decreases entries.len() - i,
        {
            let entry = &entries[i];
            proof {
                assert(candidates.take(i + 1).drop_last() =~= candidates.take(i as int));
                assert(candidates.take(i + 1).last() == candidates[i as int]);
                assert(candidates[i as int] == spec_class_candidate(entry.view()));
                assert(marked_views(entries@)[i as int] == entry.view());
            }
            let item = match &entry.item().kind {
                ItemKind::Impl(item) => item,
                _ => {
                    proof {
                        assert(false);
                    }
                    return Ok(());
                },
            };
            let target = match Target::class(item) {
                Ok(target) => target,
                Err(error) => {
                    proof {
                        lemma_register_stops(start, candidates, i + 1);
                    }
                    return Err(error);
                },
            };
            let path = match target.resolve(entry.module()) {
                Some(path) => path,
                None => {
                    proof {
                        lemma_register_stops(start, candidates, i + 1);
                    }
                    return Err(ScanError::UnsupportedClassImpl { target: target.spelling().to_owned() });
                },
            };
            match self.register(DeclaredType::Class(ClassId(path))) {
                Ok(()) => {},
                Err(error) => {
                    proof {
                        lemma_register_stops(start, candidates, i + 1);
                    }
                    return Err(error);
                },
            }
            i = i + 1;
        }
        proof {
            assert(candidates.take(entries.len() as int) =~= candidates);
        }
        Ok(())
    }

    /// Registers one declaration.
    pub fn register(&mut self, declared: DeclaredType) -> (res: Result<(), ScanError>)
        ensures
            match spec_register(old(self)@, declared_path(declared), declared_kind(declared)) {
                Ok(map) => res is Ok && final(self)@ == map,
                Err(error) => res matches Err(e) && e@ == error && final(self)@ == old(self)@,
            },
    {
        proof {
            use_type_invariant(&*self);
            lemma_spec_map(self.by_path@);
        }
        let kind = declared.kind();
        match self.position(declared.path()) {
            Some(i) => {
                let existing = self.by_path[i].kind();
                if existing == kind && kind.allows_redeclaration() {
                    Ok(())
                } else {
                    Err(
                        ScanError::ConflictingDeclarations {
                            path: declared.path().to_owned(),
                            first: existing.as_str().to_owned(),
                            second: kind.as_str().to_owned(),
                        },
                    )
                }
            },
            None => {
                let ghost before = self.by_path@;
                proof {
                    assert(before.push(declared).drop_last() =~= before);
                }
                let mut by_path: Vec<DeclaredType> = Vec::new();
                std::mem::swap(&mut by_path, &mut self.by_path);
                by_path.push(declared);
                proof {
                    assert(unique_paths(by_path@)) by {
                        assert forall|i: int, j: int|
                            0 <= i < by_path@.len() && 0 <= j < by_path@.len() && i != j
                            implies declared_path(#[trigger] by_path@[i]) != declared_path(
                            #[trigger] by_path@[j],
                        ) by {
                            if i < before.len() && j < before.len() {
                                assert(by_path@[i] == before[i]);
                                assert(by_path@[j] == before[j]);
                            } else if i < before.len() {
                                assert(by_path@[i] == before[i]);
                            } else if j < before.len() {
                                assert(by_path@[j] == before[j]);
                            }
                        }
                    }
                }
                self.by_path = by_path;
                Ok(())
            },
        }
    }
}

} // verus!
