//! The type an `impl` block is written for.
use vstd::prelude::*;

use crate::error::{ScanError, ScanErrorView};
use crate::path::{path_separator, spec_resolve, ModulePath};
use crate::spelling::{spell_type, ty};
use crate::syntax::{SynItemImpl, PathArguments, SynPathSegment, SynPath, SynType};
use crate::text::join;

verus! {

/// The target of an impl block: its path, when it is written as one, and
/// its spelling.
pub struct Target<'source> {
    path: Option<&'source SynPath>,
    spelling: String,
}

/// Whether no segment carries arguments.
pub open spec fn plain_segments(segments: Seq<SynPathSegment>) -> bool {
    forall|i: int| 0 <= i < segments.len() ==> (#[trigger] segments[i]).arguments is Bare
}

/// The path an impl block's self type is written as, if it is a path.
pub open spec fn spec_target_path(item: SynItemImpl) -> Option<SynPath> {
    match item.self_ty {
        SynType::Path { path, .. } => Some(path),
        _ => None,
    }
}

/// Why an exported impl block cannot declare a class: generics first,
/// then a trait.
pub open spec fn spec_class_error(item: SynItemImpl) -> Option<ScanErrorView> {
    if item.has_generic_params || item.has_where_clause {
        Some(ScanErrorView::UnsupportedGenerics { item: "class "@ + spell_type(item.self_ty) })
    } else if item.is_trait_impl {
        Some(ScanErrorView::UnsupportedClassImplShape { target: spell_type(item.self_ty) })
    } else {
        None
    }
}

/// A text option taken by its view.
pub open spec fn text_option(text: Option<String>) -> Option<Seq<char>> {
    match text {
        Some(t) => Some(t@),
        None => None,
    }
}

/// The fully qualified path a target written as `path` resolves to from
/// `module`: only a path with no arguments on any segment resolves.
pub open spec fn spec_path_target_resolve(path: Option<SynPath>, module: Seq<Seq<char>>) -> Option<
    Seq<char>,
> {
    match path {
        Some(path) => if plain_segments(path.segments@) {
            match spec_resolve(module, path) {
                Some(segments) => Some(join(segments, path_separator())),
                None => None,
            }
        } else {
            None
        },
        None => None,
    }
}

impl<'source> Target<'source> {
    /// The path this target is written as, if any.
    pub closed spec fn path_spec(self) -> Option<SynPath> {
        match self.path {
            Some(p) => Some(*p),
            None => None,
        }
    }

    /// The spelling of this target.
    pub closed spec fn spelling_spec(self) -> Seq<char> {
        self.spelling@
    }

    /// Reads the target of an impl block.
    pub fn scan(item: &'source SynItemImpl) -> (target: Self)
        ensures
            target.path_spec() == spec_target_path(*item),
            target.spelling_spec() == spell_type(item.self_ty),
    {
        let path = match &item.self_ty {
            SynType::Path { path, .. } => Some(path),
            _ => None,
        };
        Target { path, spelling: ty(&item.self_ty) }
    }

    /// Reads the target of an exported impl block, which must be an
    /// inherent impl without generics.
    pub fn class(item: &'source SynItemImpl) -> (target: Result<Self, ScanError>)
        ensures
            match target {
                Ok(t) => spec_class_error(*item) is None && t.path_spec() == spec_target_path(
                    *item,
                ) && t.spelling_spec() == spell_type(item.self_ty),
                Err(e) => spec_class_error(*item) == Some(e@),
            },
    {
        let target = Self::scan(item);
        if item.has_generic_params || item.has_where_clause {
            let mut spelled = "class ".to_owned();
            spelled.append(target.spelling());
            proof {
                reveal_strlit("class ");
            }
            return Err(ScanError::UnsupportedGenerics { item: spelled });
        }
        if item.is_trait_impl {
            return Err(ScanError::UnsupportedClassImplShape { target: target.spelling().to_owned() });
        }
        Ok(target)
    }

    /// The fully qualified path this target names from `module`.
    pub fn resolve(&self, module: &ModulePath) -> (resolved: Option<String>)
        ensures
            text_option(resolved) == spec_path_target_resolve(self.path_spec(), module@),
    {
        match self.path {
            Some(path) => {
                if plain(path) {
                    module.resolve(path)
                } else {
                    None
                }
            },
            None => None,
        }
    }

    /// The name of the target: the last segment of its path, when that
    /// segment has no arguments.
    pub fn ident(&self) -> (ident: Option<&'source String>)
        ensures
            match self.path_spec() {
                Some(path) => if path.segments@.len() > 0 && path.segments@.last().arguments is Bare {
                    ident == Some(&path.segments@.last().ident)
                } else {
                    ident is None
                },
                None => ident is None,
            },
    {
        match self.path {
            Some(path) => {
                let n = path.segments.len();
                if n == 0 {
                    None
                } else {
                    let last = &path.segments[n - 1];
                    match &last.arguments {
                        PathArguments::Bare => Some(&last.ident),
                        _ => None,
                    }
                }
            },
            None => None,
        }
    }

    /// How the target is written.
    pub fn spelling(&self) -> (spelling: &str)
        ensures
            spelling@ == self.spelling_spec(),
    {
        self.spelling.as_str()
    }
}

fn plain(path: &SynPath) -> (r: bool)
    ensures
        r == plain_segments(path.segments@),
{
    let mut i: usize = 0;
    while i < path.segments.len()
        invariant
            i <= path.segments.len(),
            forall|j: int| 0 <= j < i ==> (#[trigger] path.segments@[j]).arguments is Bare,
        decreases path.segments.len() - i,
    {
        match &path.segments[i].arguments {
            PathArguments::Bare => {},
            _ => return false,
        }
        i = i + 1;
    }
    true
}

} // verus!
