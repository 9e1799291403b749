//! Import resolution for a Jsonnet evaluator: relative and absolute lookups
//! against the filesystem, a library search path, a user hook, sources
//! compiled into the program, and reporting of loaded files to the build.
use vstd::prelude::*;
use crate::filesystem::{Kind, canonical_spec};
use crate::paths::{join, join_spec};
use crate::source::SourceModel;

pub mod paths;
pub mod source;
pub mod filesystem;
pub mod from_fn;
pub mod embedded;
pub mod tracer;

pub use crate::from_fn::FnImportResolver;
pub use crate::source::{FromSource, SourceEmbed, SourceId, ResolveError};
pub use crate::tracer::CargoTracer;
pub use crate::embedded::resolve_embed;

verus! {

/// Builds a resolver around a hook.
pub fn from_fn<F>(resolver: F) -> (r: FnImportResolver<F>)
    ensures
        r.hook_fn() == resolver,
{
    FnImportResolver::new(resolver)
}

/// What a search of the library roots needs next.
#[derive(Debug)]
pub enum SearchStep {
    /// Tell whether this path exists.
    Probe(String),
    /// This path exists: canonicalize it for the result.
    Canonicalize(String),
    /// No root holds the path.
    NotFound,
}

pub enum SearchModel {
    Probe(Seq<char>),
    Canonicalize(Seq<char>),
    NotFound,
}

impl View for SearchStep {
    type V = SearchModel;

    open spec fn view(&self) -> SearchModel {
        match self {
            SearchStep::Probe(p) => SearchModel::Probe(p@),
            SearchStep::Canonicalize(p) => SearchModel::Canonicalize(p@),
            SearchStep::NotFound => SearchModel::NotFound,
        }
    }
}

/// The index of the first `true` in `s`.
pub open spec fn first_found(s: Seq<bool>) -> Option<int>
    decreases s.len(),
{
    if s.len() == 0 {
        None
    } else if s[0] {
        Some(0)
    } else {
        match first_found(s.drop_first()) {
            Some(i) => Some(i + 1),
            None => None,
        }
    }
}

proof fn lemma_first_found(s: Seq<bool>)
    ensures
        match first_found(s) {
            Some(i) => 0 <= i < s.len() && s[i] && forall|j: int| 0 <= j < i ==> !s[j],
            None => forall|j: int| 0 <= j < s.len() ==> !s[j],
        },
    decreases s.len(),
{
    if s.len() > 0 && !s[0] {
        lemma_first_found(s.drop_first());
        assert forall|j: int| 1 <= j < s.len() implies s[j] == s.drop_first()[j - 1] by {}
    }
}

/// The next step of a search of `libraries` for `path`, where `probed[k]`
/// tells whether the path exists under root `k`: the first root that has it
/// wins; otherwise the next root is probed, until none is left.
pub open spec fn search_spec(libraries: Seq<Seq<char>>, path: Seq<char>, probed: Seq<bool>) -> SearchModel {
    match first_found(probed) {
        Some(i) => SearchModel::Canonicalize(join_spec(libraries[i], path)),
        None => if probed.len() < libraries.len() {
            SearchModel::Probe(join_spec(libraries[probed.len() as int], path))
        } else {
            SearchModel::NotFound
        },
    }
}

pub open spec fn roots_view(libraries: Seq<String>) -> Seq<Seq<char>> {
    libraries.map_values(|l: String| l@)
}

/// One step of a search of the library roots for `path`; `probed` holds
/// the answers to the probes made so far, root by root in order.
pub fn resolve_from(libraries: &Vec<String>, path: &str, probed: &Vec<bool>) -> (r: SearchStep)
    requires
        probed.len() <= libraries.len(),
    ensures
        r@ == search_spec(roots_view(libraries@), path@, probed@),
{
    proof {
        lemma_first_found(probed@);
    }
    let mut i: usize = 0;
    while i < probed.len()
        invariant
            i <= probed.len() <= libraries.len(),
            forall|j: int| 0 <= j < i ==> !probed@[j],
        decreases probed.len() - i,
    {
        if probed[i] {
            proof {
                lemma_first_found(probed@);
                let k = first_found(probed@)->Some_0;
                assert(k == i) by {
                    if k < i {
                    } else if k > i {
                    }
                }
            }
            return SearchStep::Canonicalize(join(libraries[i].as_str(), path));
        }
        i = i + 1;
    }
    if i < libraries.len() {
        SearchStep::Probe(join(libraries[i].as_str(), path))
    } else {
        SearchStep::NotFound
    }
}

/// The roots are searched in the order given: a path under the first root
/// that has it is the one taken, whatever later roots hold; a root is probed
/// only after every earlier one lacked the path; and a path no root has is
/// reported as not found, not as an error.
pub proof fn lemma_search_priority(
    libraries: Seq<Seq<char>>,
    path: Seq<char>,
    probed: Seq<bool>,
    i: int,
)
    requires
        probed.len() <= libraries.len(),
        0 <= i < probed.len(),
    ensures
        probed[i] && (forall|j: int| 0 <= j < i ==> !probed[j]) ==> search_spec(libraries, path, probed)
            == SearchModel::Canonicalize(join_spec(libraries[i], path)),
        (forall|j: int| 0 <= j < probed.len() ==> !probed[j]) ==> (search_spec(libraries, path, probed)
            == if probed.len() < libraries.len() {
            SearchModel::Probe(join_spec(libraries[probed.len() as int], path))
        } else {
            SearchModel::NotFound
        }),
{
    lemma_first_found(probed);
    if first_found(probed) is Some {
        let k = first_found(probed)->Some_0;
        if probed[i] && (forall|j: int| 0 <= j < i ==> !probed[j]) {
            assert(k == i) by {
                if k < i {
                    assert(!probed[k]);
                } else if k > i {
                    assert(!probed[i]);
                }
            }
        }
    }
}

/// Two lookups whose paths canonicalize to the same text give equal
/// identities, whatever paths they started from.
pub proof fn lemma_canonical_identity(kind: Kind, c1: Seq<char>, c2: Seq<char>)
    requires
        c1 == c2,
    ensures
        canonical_spec(kind, Ok(c1)) == canonical_spec(kind, Ok(c2)),
        canonical_spec(kind, Ok(c1)) is Ok,
        kind == Kind::File ==> canonical_spec(kind, Ok(c1)) == Ok::<SourceModel, crate::source::ErrorModel>(SourceModel::File(c1)),
{
}

} // verus!
