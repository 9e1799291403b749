//! A resolver wrapper that reports every regular file it loads to the build
//! system, so that the build reruns when the file changes.
use vstd::prelude::*;
use vstd::string::*;
use crate::source::{SourceId, SourceModel};

verus! {

/// The fixed text that starts a rerun directive.
pub open spec fn directive_prefix() -> Seq<char> {
    seq!['c', 'a', 'r', 'g', 'o', ':', 'r', 'e', 'r', 'u', 'n', '-', 'i', 'f', '-', 'c', 'h', 'a', 'n', 'g', 'e', 'd', '=']
}

/// The notification to emit before loading `id`: one rerun directive naming
/// a regular file's path, nothing for any other source.
pub open spec fn notice_spec(id: SourceModel) -> Option<Seq<char>> {
    match id {
        SourceModel::File(p) => Some(directive_prefix() + p),
        _ => None,
    }
}

/// Wraps a resolver; lookups pass through unchanged.
pub struct CargoTracer<T> {
    wrapped: T,
}

impl<T> CargoTracer<T> {
    /// The wrapped resolver.
    pub closed spec fn inner_spec(&self) -> T {
        self.wrapped
    }

    pub fn new(value: T) -> (r: Self)
        ensures
            r.inner_spec() == value,
    {
        CargoTracer { wrapped: value }
    }

    /// The wrapped resolver, which every operation is handed to.
    pub fn inner(&self) -> (r: &T)
        ensures
            *r == self.inner_spec(),
    {
        &self.wrapped
    }

    /// The line to emit before `id` is loaded, if any.
    pub fn notice(&self, id: &SourceId) -> (r: Option<String>)
        ensures
            match notice_spec(id@) {
                Some(line) => r is Some && r->Some_0@ == line,
                None => r is None,
            },
    {
        match id {
            SourceId::File(p) => {
                let mut line = String::from_str("cargo:rerun-if-changed=");
                line.append(p.as_str());
                proof {
                    reveal_strlit("cargo:rerun-if-changed=");
                    assert(line@ =~= directive_prefix() + p@);
                }
                Some(line)
            },
            _ => None,
        }
    }
}

} // verus!
