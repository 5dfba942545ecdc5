//! Module paths: where an exported item lives, from its crate segment down.
use vstd::prelude::*;

use crate::spelling::segment_idents;
use crate::syntax::SynPath;
use crate::text::{join, join_strings, text_eq, views};

verus! {

/// The path of a module, starting at the crate segment, as in
/// `demo::geometry::point`.
#[derive(Debug, Eq, PartialEq)]
pub struct ModulePath {
    segments: Vec<String>,
}

/// The separator between path segments.
pub open spec fn path_separator() -> Seq<char> {
    seq![':', ':']
}

/// The fully qualified spelling of `ident` inside the module with the
/// given segments: the segments and the ident joined by `::`.
pub open spec fn spec_qualified(segments: Seq<Seq<char>>, ident: Seq<char>) -> Seq<char> {
    join(segments, path_separator()) + path_separator() + ident
}

impl ModulePath {
    /// A module path always starts with its crate segment.
    #[verifier::type_invariant]
    spec fn has_crate_segment(self) -> bool {
        self.segments.len() > 0
    }
}

impl View for ModulePath {
    type V = Seq<Seq<char>>;

    closed spec fn view(&self) -> Seq<Seq<char>> {
        views(self.segments@)
    }
}

impl ModulePath {
    /// The path of a crate's root module.
    pub fn root(crate_name: &str) -> (path: Self)
        ensures
            path@ == seq![crate_name@],
    {
        let mut segments = Vec::new();
        segments.push(crate_name.to_owned());
        proof {
            assert(views(segments@) =~= seq![crate_name@]);
        }
        ModulePath { segments }
    }

    /// The path of the child module `module` of this one. The parent is
    /// left as it was, and qualifying a name in the child is qualifying
    /// `module::name` in the parent.
    pub fn child(&self, module: &str) -> (path: Self)
        ensures
            self@.len() > 0,
            path@ == self@.push(module@),
            forall|ident: Seq<char>|
                #[trigger] spec_qualified(path@, ident) == spec_qualified(
                    self@,
                    module@ + path_separator() + ident,
                ),
    {
        proof {
            use_type_invariant(self);
            assert forall|ident: Seq<char>|
                #[trigger] spec_qualified(self@.push(module@), ident) == spec_qualified(
                    self@,
                    module@ + path_separator() + ident,
                ) by {
                lemma_qualified_child(self@, module@, ident);
                assert(spec_qualified(self@, module@) + path_separator() + ident =~= spec_qualified(
                    self@,
                    module@ + path_separator() + ident,
                ));
            }
        }
        let mut segments = self.segments.clone();
        proof {
            assert(segments@ =~= self.segments@);
        }
        segments.push(module.to_owned());
        proof {
            assert(views(segments@) =~= views(self.segments@).push(module@));
        }
        ModulePath { segments }
    }

    /// The fully qualified spelling of `ident` inside this module.
    pub fn qualified(&self, ident: &str) -> (path: String)
        ensures
            self@.len() > 0,
            path@ == spec_qualified(self@, ident@),
    {
        proof {
            use_type_invariant(self);
        }
        let mut path = join_strings(&self.segments, "::");
        proof {
            reveal_strlit("::");
            assert("::"@ =~= path_separator());
        }
        path.append("::");
        path.append(ident);
        path
    }
}

/// The module segments a relative path resolves under, after its leading
/// `self` and `super` segments: `self` stays in the module and `super`
/// goes to the parent, which the crate root does not have. A path with
/// nothing after those segments names no item.
pub open spec fn spec_resolve_relative(module: Seq<Seq<char>>, idents: Seq<Seq<char>>) -> Option<
    Seq<Seq<char>>,
>
    decreases idents.len(),
{
    if idents.len() == 0 {
        None
    } else if idents[0] == "self"@ {
        spec_resolve_relative(module, idents.skip(1))
    } else if idents[0] == "super"@ {
        if module.len() > 1 {
            spec_resolve_relative(module.drop_last(), idents.skip(1))
        } else {
            None
        }
    } else {
        Some(module + idents)
    }
}

/// The segments of the item a path names from inside `module`: a path
/// starting with `crate` starts at the crate segment, a path starting
/// with `::` names another crate, any other path is relative.
pub open spec fn spec_resolve(module: Seq<Seq<char>>, path: SynPath) -> Option<Seq<Seq<char>>> {
    let idents = segment_idents(path.segments@);
    if path.leading_colon || idents.len() == 0 || module.len() == 0 {
        None
    } else if idents[0] == "crate"@ {
        spec_resolve_relative(seq![module[0]], idents.skip(1))
    } else {
        spec_resolve_relative(module, idents)
    }
}

impl ModulePath {
    /// The fully qualified spelling of the item `path` names from inside
    /// this module, if it names one of this crate.
    pub fn resolve(&self, path: &SynPath) -> (resolved: Option<String>)
        ensures
            match resolved {
                Some(r) => spec_resolve(self@, *path) matches Some(segments) && r@ == join(
                    segments,
                    path_separator(),
                ),
                None => spec_resolve(self@, *path) is None,
            },
    {
        if path.leading_colon || path.segments.len() == 0 || self.segments.len() == 0 {
            return None;
        }
        let ghost idents = segment_idents(path.segments@);
        let mut base: Vec<String> = Vec::new();
        let mut start: usize = 0;
        proof {
            reveal_strlit("crate");
            reveal_strlit("self");
            reveal_strlit("super");
        }
        if text_eq(path.segments[0].ident.as_str(), "crate") {
            base.push(self.segments[0].clone());
            start = 1;
        } else {
            base = self.segments.clone();
        }
        proof {
            assert(views(base@) =~= if idents[0] == "crate"@ { seq![self@[0]] } else { self@ });
            assert(idents.skip(0) =~= idents);
        }
        while start < path.segments.len()
            invariant
                start <= path.segments.len(),
                idents == segment_idents(path.segments@),
                spec_resolve(self@, *path) == spec_resolve_relative(views(base@), idents.skip(start as int)),
                views(base@).len() >= 1,
            ensures
                start <= path.segments.len(),
                spec_resolve(self@, *path) == spec_resolve_relative(views(base@), idents.skip(start as int)),
                start == path.segments.len() || (idents[start as int] != "self"@ && idents[start as int] != "super"@),
            decreases path.segments.len() - start,
        {
            let ident = path.segments[start].ident.as_str();
            proof {
                assert(idents.skip(start as int)[0] == ident@);
                assert(idents.skip(start as int).skip(1) =~= idents.skip(start + 1));
            }
            if text_eq(ident, "self") {
                start = start + 1;
            } else if text_eq(ident, "super") {
                if base.len() > 1 {
                    let ghost before = base@;
                    base.pop();
                    proof {
                        assert(views(base@) =~= views(before).drop_last());
                    }
                    start = start + 1;
                } else {
                    return None;
                }
            } else {
                break;
            }
        }
        if start == path.segments.len() {
            proof {
                assert(idents.skip(start as int).len() == 0);
            }
            return None;
        }
        let ghost base0 = views(base@);
        proof {
            assert(idents.skip(start as int)[0] == idents[start as int]);
        }
        let mut i = start;
        while i < path.segments.len()
            invariant
                start <= i <= path.segments.len(),
                idents == segment_idents(path.segments@),
                views(base@) == base0 + idents.subrange(start as int, i as int),
            decreases path.segments.len() - i,
        {
            let ghost before = base@;
            base.push(path.segments[i].ident.clone());
            proof {
                assert(views(base@) =~= views(before).push(idents[i as int]));
                assert(idents.subrange(start as int, i + 1) =~= idents.subrange(start as int, i as int).push(idents[i as int]));
            }
            i = i + 1;
        }
        proof {
            assert(idents.subrange(start as int, path.segments.len() as int) =~= idents.skip(start as int));
        }
        proof {
            reveal_strlit("::");
            assert("::"@ =~= path_separator());
        }
        Some(join_strings(&base, "::"))
    }
}

/// A crate's root module qualifies a name under the crate segment alone.
pub proof fn lemma_root_qualifies(crate_name: Seq<char>, ident: Seq<char>)
    ensures
        spec_qualified(seq![crate_name], ident) == crate_name + path_separator() + ident,
{
}

/// Qualifying a name inside a child module is qualifying the child's name
/// inside the parent, then appending `::` and the name: a child path keeps
/// all its ancestors in order.
pub proof fn lemma_qualified_child(parent: Seq<Seq<char>>, module: Seq<char>, ident: Seq<char>)
    requires
        parent.len() > 0,
    ensures
        spec_qualified(parent.push(module), ident) == spec_qualified(parent, module)
            + path_separator() + ident,
{
    assert(parent.push(module).drop_last() =~= parent);
    assert(parent.push(module).last() == module);
}

} // verus!
