//! The standard container types a scanned type may name, and the paths
//! each of them may be written with.
use vstd::prelude::*;

use crate::text::text_eq;

verus! {

/// A standard type that the scanner gives its own meaning.
#[derive(Clone, Copy, Debug, Eq, PartialEq, Structural)]
pub enum StandardType {
    String,
    Vec,
    Option,
    Result,
    HashMap,
    BTreeMap,
    Box,
    Arc,
}

/// The standard type a path's last segment may name.
pub open spec fn spec_from_leaf(leaf: Seq<char>) -> Option<StandardType> {
    if leaf == "String"@ {
        Some(StandardType::String)
    } else if leaf == "Vec"@ {
        Some(StandardType::Vec)
    } else if leaf == "Option"@ {
        Some(StandardType::Option)
    } else if leaf == "Result"@ {
        Some(StandardType::Result)
    } else if leaf == "HashMap"@ {
        Some(StandardType::HashMap)
    } else if leaf == "BTreeMap"@ {
        Some(StandardType::BTreeMap)
    } else if leaf == "Box"@ {
        Some(StandardType::Box)
    } else if leaf == "Arc"@ {
        Some(StandardType::Arc)
    } else {
        None
    }
}

/// The paths a standard type may be written with: its prelude name where
/// it has one, and its full paths through `std`, `alloc` or `core`. `Arc`
/// is not in the prelude.
pub open spec fn spec_paths(standard: StandardType) -> Seq<Seq<char>> {
    match standard {
        StandardType::String => seq!["String"@, "std::string::String"@, "alloc::string::String"@],
        StandardType::Vec => seq!["Vec"@, "std::vec::Vec"@, "alloc::vec::Vec"@],
        StandardType::Option => seq!["Option"@, "std::option::Option"@, "core::option::Option"@],
        StandardType::Result => seq!["Result"@, "std::result::Result"@, "core::result::Result"@],
        StandardType::HashMap => seq!["HashMap"@, "std::collections::HashMap"@],
        StandardType::BTreeMap => seq![
            "BTreeMap"@,
            "std::collections::BTreeMap"@,
            "alloc::collections::BTreeMap"@,
        ],
        StandardType::Box => seq!["Box"@, "std::boxed::Box"@, "alloc::boxed::Box"@],
        StandardType::Arc => seq!["std::sync::Arc"@, "alloc::sync::Arc"@],
    }
}

/// The leaf that names a standard type is one of its accepted paths,
/// except for `Arc`, which has to be written with its full path.
pub proof fn lemma_leaf_is_accepted(leaf: Seq<char>)
    ensures
        spec_from_leaf(leaf) matches Some(standard) ==> (standard != StandardType::Arc
            <==> spec_paths(standard).contains(leaf)),
{
    reveal_strlit("String");
    reveal_strlit("Vec");
    reveal_strlit("Option");
    reveal_strlit("Result");
    reveal_strlit("HashMap");
    reveal_strlit("BTreeMap");
    reveal_strlit("Box");
    reveal_strlit("Arc");
    reveal_strlit("std::sync::Arc");
    reveal_strlit("alloc::sync::Arc");
    if let Some(standard) = spec_from_leaf(leaf) {
        if standard != StandardType::Arc {
            assert(spec_paths(standard)[0] == leaf);
        } else {
            assert(leaf == "Arc"@);
            assert(leaf.len() == 3);
            assert(spec_paths(standard)[0].len() == 14);
            assert(spec_paths(standard)[1].len() == 16);
            assert(!spec_paths(standard).contains(leaf));
        }
    }
}

/// The last segment of a path: what follows its last `:`, or the whole
/// path where it has none.
pub open spec fn last_segment(path: Seq<char>) -> Seq<char>
    decreases path.len(),
{
    if path.len() == 0 {
        path
    } else if path.last() == ':' {
        Seq::empty()
    } else {
        last_segment(path.drop_last()).push(path.last())
    }
}

/// The last segment of a path ending in `leaf`, after a `:` or nothing,
/// is `leaf` when `leaf` holds no `:`.
proof fn lemma_last_segment_after(prefix: Seq<char>, leaf: Seq<char>)
    requires
        prefix.len() == 0 || prefix.last() == ':',
        forall|i: int| 0 <= i < leaf.len() ==> leaf[i] != ':',
    ensures
        last_segment(prefix + leaf) == leaf,
    decreases leaf.len(),
{
    if leaf.len() == 0 {
        assert(prefix + leaf =~= prefix);
    } else {
        lemma_last_segment_after(prefix, leaf.drop_last());
        assert((prefix + leaf).drop_last() =~= prefix + leaf.drop_last());
        assert(leaf.drop_last().push(leaf.last()) =~= leaf);
    }
}

/// Every path a standard type may be written with ends in the segment that
/// names that type.
#[verifier::spinoff_prover]
pub proof fn lemma_paths_end_in_their_leaf(standard: StandardType, path: Seq<char>)
    requires
        spec_paths(standard).contains(path),
    ensures
        spec_from_leaf(last_segment(path)) == Some(standard),
{
    reveal_strlit("String");
    reveal_strlit("Vec");
    reveal_strlit("Option");
    reveal_strlit("Result");
    reveal_strlit("HashMap");
    reveal_strlit("BTreeMap");
    reveal_strlit("Box");
    reveal_strlit("Arc");
    let j = choose|j: int| 0 <= j < spec_paths(standard).len() && spec_paths(standard)[j] == path;
    match standard {
        StandardType::String => {
            if j == 0 {
                lemma_last_segment_after(Seq::empty(), "String"@);
                assert(Seq::<char>::empty() + "String"@ =~= "String"@);
            } else if j == 1 {
                reveal_strlit("std::string::String");
                reveal_strlit("std::string::");
                lemma_last_segment_after("std::string::"@, "String"@);
                assert("std::string::String"@ =~= "std::string::"@ + "String"@);
            } else {
                reveal_strlit("alloc::string::String");
                reveal_strlit("alloc::string::");
                lemma_last_segment_after("alloc::string::"@, "String"@);
                assert("alloc::string::String"@ =~= "alloc::string::"@ + "String"@);
            }
        },
        StandardType::Vec => {
            if j == 0 {
                lemma_last_segment_after(Seq::empty(), "Vec"@);
                assert(Seq::<char>::empty() + "Vec"@ =~= "Vec"@);
            } else if j == 1 {
                reveal_strlit("std::vec::Vec");
                reveal_strlit("std::vec::");
                lemma_last_segment_after("std::vec::"@, "Vec"@);
                assert("std::vec::Vec"@ =~= "std::vec::"@ + "Vec"@);
            } else {
                reveal_strlit("alloc::vec::Vec");
                reveal_strlit("alloc::vec::");
                lemma_last_segment_after("alloc::vec::"@, "Vec"@);
                assert("alloc::vec::Vec"@ =~= "alloc::vec::"@ + "Vec"@);
            }
        },
        StandardType::Option => {
            if j == 0 {
                lemma_last_segment_after(Seq::empty(), "Option"@);
                assert(Seq::<char>::empty() + "Option"@ =~= "Option"@);
            } else if j == 1 {
                reveal_strlit("std::option::Option");
                reveal_strlit("std::option::");
                lemma_last_segment_after("std::option::"@, "Option"@);
                assert("std::option::Option"@ =~= "std::option::"@ + "Option"@);
            } else {
                reveal_strlit("core::option::Option");
                reveal_strlit("core::option::");
                lemma_last_segment_after("core::option::"@, "Option"@);
                assert("core::option::Option"@ =~= "core::option::"@ + "Option"@);
            }
        },
        StandardType::Result => {
            if j == 0 {
                lemma_last_segment_after(Seq::empty(), "Result"@);
                assert(Seq::<char>::empty() + "Result"@ =~= "Result"@);
            } else if j == 1 {
                reveal_strlit("std::result::Result");
                reveal_strlit("std::result::");
                lemma_last_segment_after("std::result::"@, "Result"@);
                assert("std::result::Result"@ =~= "std::result::"@ + "Result"@);
            } else {
                reveal_strlit("core::result::Result");
                reveal_strlit("core::result::");
                lemma_last_segment_after("core::result::"@, "Result"@);
                assert("core::result::Result"@ =~= "core::result::"@ + "Result"@);
            }
        },
        StandardType::HashMap => {
            if j == 0 {
                lemma_last_segment_after(Seq::empty(), "HashMap"@);
                assert(Seq::<char>::empty() + "HashMap"@ =~= "HashMap"@);
            } else {
                reveal_strlit("std::collections::HashMap");
                reveal_strlit("std::collections::");
                lemma_last_segment_after("std::collections::"@, "HashMap"@);
                assert("std::collections::HashMap"@ =~= "std::collections::"@ + "HashMap"@);
            }
        },
        StandardType::BTreeMap => {
            if j == 0 {
                lemma_last_segment_after(Seq::empty(), "BTreeMap"@);
                assert(Seq::<char>::empty() + "BTreeMap"@ =~= "BTreeMap"@);
            } else if j == 1 {
                reveal_strlit("std::collections::BTreeMap");
                reveal_strlit("std::collections::");
                lemma_last_segment_after("std::collections::"@, "BTreeMap"@);
                assert("std::collections::BTreeMap"@ =~= "std::collections::"@ + "BTreeMap"@);
            } else {
                reveal_strlit("alloc::collections::BTreeMap");
                reveal_strlit("alloc::collections::");
                lemma_last_segment_after("alloc::collections::"@, "BTreeMap"@);
                assert("alloc::collections::BTreeMap"@ =~= "alloc::collections::"@ + "BTreeMap"@);
            }
        },
        StandardType::Box => {
            if j == 0 {
                lemma_last_segment_after(Seq::empty(), "Box"@);
                assert(Seq::<char>::empty() + "Box"@ =~= "Box"@);
            } else if j == 1 {
                reveal_strlit("std::boxed::Box");
                reveal_strlit("std::boxed::");
                lemma_last_segment_after("std::boxed::"@, "Box"@);
                assert("std::boxed::Box"@ =~= "std::boxed::"@ + "Box"@);
            } else {
                reveal_strlit("alloc::boxed::Box");
                reveal_strlit("alloc::boxed::");
                lemma_last_segment_after("alloc::boxed::"@, "Box"@);
                assert("alloc::boxed::Box"@ =~= "alloc::boxed::"@ + "Box"@);
            }
        },
        StandardType::Arc => {
            if j == 0 {
                reveal_strlit("std::sync::Arc");
                reveal_strlit("std::sync::");
                lemma_last_segment_after("std::sync::"@, "Arc"@);
                assert("std::sync::Arc"@ =~= "std::sync::"@ + "Arc"@);
            } else {
                reveal_strlit("alloc::sync::Arc");
                reveal_strlit("alloc::sync::");
                lemma_last_segment_after("alloc::sync::"@, "Arc"@);
                assert("alloc::sync::Arc"@ =~= "alloc::sync::"@ + "Arc"@);
            }
            assert("Arc"@[0] != "Vec"@[0] && "Arc"@[0] != "Box"@[0]);
            assert(spec_from_leaf("Arc"@) == Some(StandardType::Arc));
        },
    }
}

/// The views of a list of texts.
pub open spec fn text_views(texts: Seq<&str>) -> Seq<Seq<char>> {
    texts.map_values(|t: &str| t@)
}

impl StandardType {
    /// The standard type a path's last segment may name.
    pub fn from_leaf(leaf: &str) -> (standard: Option<Self>)
        ensures
            standard == spec_from_leaf(leaf@),
    {
        proof {
            reveal_strlit("String");
            reveal_strlit("Vec");
            reveal_strlit("Option");
            reveal_strlit("Result");
            reveal_strlit("HashMap");
            reveal_strlit("BTreeMap");
            reveal_strlit("Box");
            reveal_strlit("Arc");
        }
        if text_eq(leaf, "String") {
            Some(StandardType::String)
        } else if text_eq(leaf, "Vec") {
            Some(StandardType::Vec)
        } else if text_eq(leaf, "Option") {
            Some(StandardType::Option)
        } else if text_eq(leaf, "Result") {
            Some(StandardType::Result)
        } else if text_eq(leaf, "HashMap") {
            Some(StandardType::HashMap)
        } else if text_eq(leaf, "BTreeMap") {
            Some(StandardType::BTreeMap)
        } else if text_eq(leaf, "Box") {
            Some(StandardType::Box)
        } else if text_eq(leaf, "Arc") {
            Some(StandardType::Arc)
        } else {
            None
        }
    }

    /// Whether this standard type may be written as `path`.
    pub fn accepts_path(self, path: &str) -> (accepts: bool)
        ensures
            accepts == spec_paths(self).contains(path@),
    {
        let paths = self.paths();
        let mut i: usize = 0;
        while i < paths.len()
            invariant
                i <= paths.len(),
                text_views(paths@) == spec_paths(self),
                forall|j: int| 0 <= j < i ==> (#[trigger] paths@[j])@ != path@,
            decreases paths.len() - i,
        {
            if text_eq(paths[i], path) {
                proof {
                    assert(text_views(paths@)[i as int] == path@);
                }
                return true;
            }
            i = i + 1;
        }
        proof {
            if spec_paths(self).contains(path@) {
                let j = choose|j: int| 0 <= j < spec_paths(self).len() && spec_paths(self)[j] == path@;
                assert(text_views(paths@)[j] == paths@[j]@);
            }
        }
        false
    }

    /// The paths this standard type may be written with.
    pub fn paths(self) -> (paths: Vec<&'static str>)
        ensures
            text_views(paths@) == spec_paths(self),
    {
        proof {
            reveal_strlit("String");
            reveal_strlit("std::string::String");
            reveal_strlit("alloc::string::String");
            reveal_strlit("Vec");
            reveal_strlit("std::vec::Vec");
            reveal_strlit("alloc::vec::Vec");
            reveal_strlit("Option");
            reveal_strlit("std::option::Option");
            reveal_strlit("core::option::Option");
            reveal_strlit("Result");
            reveal_strlit("std::result::Result");
            reveal_strlit("core::result::Result");
            reveal_strlit("HashMap");
            reveal_strlit("std::collections::HashMap");
            reveal_strlit("BTreeMap");
            reveal_strlit("std::collections::BTreeMap");
            reveal_strlit("alloc::collections::BTreeMap");
            reveal_strlit("Box");
            reveal_strlit("std::boxed::Box");
            reveal_strlit("alloc::boxed::Box");
            reveal_strlit("std::sync::Arc");
            reveal_strlit("alloc::sync::Arc");
        }
        let paths = match self {
            StandardType::String => vec!["String", "std::string::String", "alloc::string::String"],
            StandardType::Vec => vec!["Vec", "std::vec::Vec", "alloc::vec::Vec"],
            StandardType::Option => vec!["Option", "std::option::Option", "core::option::Option"],
            StandardType::Result => vec!["Result", "std::result::Result", "core::result::Result"],
            StandardType::HashMap => vec!["HashMap", "std::collections::HashMap"],
            StandardType::BTreeMap => vec![
                "BTreeMap",
                "std::collections::BTreeMap",
                "alloc::collections::BTreeMap",
            ],
            StandardType::Box => vec!["Box", "std::boxed::Box", "alloc::boxed::Box"],
            StandardType::Arc => vec!["std::sync::Arc", "alloc::sync::Arc"],
        };
        proof {
            assert(text_views(paths@) =~= spec_paths(self));
        }
        paths
    }
}

} // verus!
