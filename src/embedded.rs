//! Sources compiled into the program: a bundle of assets addressed by
//! logical paths, and the lookup of an import among them.
use vstd::prelude::*;
use vstd::string::*;
use crate::paths::{find_last_slash, last_slash, lemma_last_slash_bounds};
use crate::source::{FromModel, FromSource, SourceEmbed, SourceId, SourceModel};

verus! {

/// The bundle's assets. Where two share a path the later one counts.
pub struct EmbedBundle {
    entries: Vec<SourceEmbed>,
}

/// The bytes of the last asset in `entries` stored under `key`.
pub open spec fn bundle_lookup(entries: Seq<(Seq<char>, Seq<u8>)>, key: Seq<char>) -> Option<
    Seq<u8>,
>
    decreases entries.len(),
{
    if entries.len() == 0 {
        None
    } else if entries.last().0 == key {
        Some(entries.last().1)
    } else {
        bundle_lookup(entries.drop_last(), key)
    }
}

impl View for EmbedBundle {
    type V = Seq<(Seq<char>, Seq<u8>)>;

    closed spec fn view(&self) -> Seq<(Seq<char>, Seq<u8>)> {
        self.entries@.map_values(|e: SourceEmbed| (e.path@, e.data@))
    }
}

impl EmbedBundle {
    /// An empty bundle.
    pub fn new() -> (r: Self)
        ensures
            r@ == Seq::<(Seq<char>, Seq<u8>)>::empty(),
    {
        let r = EmbedBundle { entries: Vec::new() };
        assert(r@ =~= Seq::<(Seq<char>, Seq<u8>)>::empty());
        r
    }

    /// Adds an asset, which hides any earlier one under the same path.
    pub fn insert(&mut self, path: String, data: Vec<u8>)
        ensures
            final(self)@ == old(self)@.push((path@, data@)),
    {
        let e = SourceEmbed::new(path, data);
        self.entries.push(e);
        assert(final(self)@ =~= old(self)@.push((e.path@, e.data@)));
    }

    /// The bytes stored under `key`.
    pub fn get(&self, key: &String) -> (r: Option<&Vec<u8>>)
        ensures
            match bundle_lookup(self@, key@) {
                Some(d) => r is Some && r->Some_0@ == d,
                None => r is None,
            },
    {
        let mut i: usize = self.entries.len();
        assert(self@.subrange(0, i as int) =~= self@);
        while i > 0
            invariant
                i <= self.entries.len(),
                bundle_lookup(self@, key@) == bundle_lookup(self@.subrange(0, i as int), key@),
            decreases i,
        {
            let ghost prefix = self@.subrange(0, i as int);
            assert(prefix.drop_last() =~= self@.subrange(0, i - 1));
            assert(prefix.last() == (self.entries[i - 1].path@, self.entries[i - 1].data@));
            if self.entries[i - 1].path == *key {
                return Some(&self.entries[i - 1].data);
            }
            i = i - 1;
        }
        None
    }
}

/// `path` without a leading `./`.
pub open spec fn strip_dot_slash(path: Seq<char>) -> Seq<char> {
    if path.len() >= 2 && path[0] == '.' && path[1] == '/' {
        path.subrange(2, path.len() as int)
    } else {
        path
    }
}

/// The key an import of `path` is looked up under. From a bundled source
/// that sits in a folder, it is that folder joined with `path` (a leading
/// `./` dropped); from one at the bundle's root, or from a physical place,
/// it is `path` itself.
pub open spec fn embed_key_spec(from: FromModel, path: Seq<char>) -> Seq<char> {
    match from {
        FromModel::Virtual(sibling) => {
            let i = last_slash(sibling);
            if i >= 0 {
                sibling.subrange(0, i) + seq!['/'] + strip_dot_slash(path)
            } else {
                path
            }
        },
        FromModel::Physical(_) => path,
    }
}

/// Computes the bundle key for an import of `path` from `from`.
pub fn embed_key(from: &FromSource, path: &str) -> (r: String)
    ensures
        r@ == embed_key_spec(from@, path@),
{
    match from {
        FromSource::Virtual(sibling) => {
            proof {
                lemma_last_slash_bounds(sibling@);
            }
            match find_last_slash(sibling.as_str()) {
            Some(i) => {
                let mut r = String::from_str(sibling.as_str().substring_char(0, i));
                r.append("/");
                let n = path.unicode_len();
                if n >= 2 && path.get_char(0) == '.' && path.get_char(1) == '/' {
                    r.append(path.substring_char(2, n));
                } else {
                    r.append(path);
                }
                proof {
                    reveal_strlit("/");
                    assert(r@ =~= embed_key_spec(from@, path@));
                }
                r
            },
            None => String::from_str(path),
        }
        },
        FromSource::Physical(_) => String::from_str(path),
    }
}

/// Looks an import of `path` from `from` up in the bundle: the asset under
/// the computed key, or nothing when the bundle has none.
pub fn resolve_embed(bundle: &EmbedBundle, from: &FromSource, path: &str) -> (r: Option<SourceId>)
    ensures
        match bundle_lookup(bundle@, embed_key_spec(from@, path@)) {
            Some(d) => r is Some && r->Some_0@ == SourceModel::Embed(
                embed_key_spec(from@, path@),
                d,
            ),
            None => r is None,
        },
{
    let key = embed_key(from, path);
    match bundle.get(&key) {
        Some(data) => {
            let bytes = data.clone();
            assert(bytes@ =~= data@);
            Some(SourceId::Embed(SourceEmbed::new(key, bytes)))
        },
        None => None,
    }
}

} // verus!
