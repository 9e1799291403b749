//! A model of slash-separated filesystem paths, with the few operations the
//! resolvers need: joining, taking the containing directory, taking the last
//! component.
use vstd::prelude::*;
use vstd::string::*;

verus! {

/// Index of the last `/` in `s`, or -1 when there is none.
pub open spec fn last_slash(s: Seq<char>) -> int
    decreases s.len(),
{
    if s.len() == 0 {
        -1
    } else if s.last() == '/' {
        s.len() - 1
    } else {
        last_slash(s.drop_last())
    }
}

/// The last separator lies inside the text, and none follows it.
pub proof fn lemma_last_slash_bounds(s: Seq<char>)
    ensures
        -1 <= last_slash(s) < s.len(),
        last_slash(s) >= 0 ==> s[last_slash(s)] == '/',
        forall|k: int| last_slash(s) < k < s.len() ==> s[k] != '/',
    decreases s.len(),
{
    if s.len() > 0 && s.last() != '/' {
        lemma_last_slash_bounds(s.drop_last());
        assert forall|k: int| last_slash(s) < k < s.len() implies s[k] != '/' by {
            if k < s.len() - 1 {
                assert(s[k] == s.drop_last()[k]);
            }
        }
    }
}

/// `path` appended to `base`: an absolute `path` stands for itself, an empty
/// base leaves `path` as it is, and otherwise one separator lies between.
pub open spec fn join_spec(base: Seq<char>, path: Seq<char>) -> Seq<char> {
    if path.len() > 0 && path[0] == '/' {
        path
    } else if base.len() == 0 {
        path
    } else if base.last() == '/' {
        base + path
    } else {
        base + seq!['/'] + path
    }
}

/// The containing directory: everything before the last separator (the root
/// for a path directly under it, empty for a path with no separator).
pub open spec fn parent_spec(p: Seq<char>) -> Seq<char> {
    let i = last_slash(p);
    if i < 0 {
        Seq::empty()
    } else if i == 0 {
        seq!['/']
    } else {
        p.subrange(0, i)
    }
}

/// The text after the last separator.
pub open spec fn last_component(p: Seq<char>) -> Seq<char> {
    p.subrange(last_slash(p) + 1, p.len() as int)
}

/// The last component, where it names an entry (not empty, `.` or `..`).
pub open spec fn file_name_spec(p: Seq<char>) -> Option<Seq<char>> {
    let n = last_component(p);
    if n.len() == 0 || n == seq!['.'] || n == seq!['.', '.'] {
        None
    } else {
        Some(n)
    }
}

/// Finds the index of the last `/` in `s`.
pub fn find_last_slash(s: &str) -> (r: Option<usize>)
    ensures
        match r {
            Some(i) => i as int == last_slash(s@),
            None => last_slash(s@) == -1,
        },
{
    let n = s.unicode_len();
    let mut i: usize = n;
    assert(s@.subrange(0, n as int) =~= s@);
    while i > 0
        invariant
            i <= n == s@.len(),
            last_slash(s@) == last_slash(s@.subrange(0, i as int)),
        decreases i,
    {
        assert(s@.subrange(0, i as int).drop_last() =~= s@.subrange(0, i - 1));
        if s.get_char(i - 1) == '/' {
            return Some(i - 1);
        }
        i = i - 1;
    }
    None
}

/// Joins `path` onto `base`.
pub fn join(base: &str, path: &str) -> (r: String)
    ensures
        r@ == join_spec(base@, path@),
{
    let pn = path.unicode_len();
    let bn = base.unicode_len();
    if pn > 0 && path.get_char(0) == '/' {
        String::from_str(path)
    } else if bn == 0 {
        String::from_str(path)
    } else if base.get_char(bn - 1) == '/' {
        let mut r = String::from_str(base);
        r.append(path);
        r
    } else {
        let mut r = String::from_str(base);
        r.append("/");
        r.append(path);
        proof {
            reveal_strlit("/");
            assert(r@ =~= base@ + seq!['/'] + path@);
        }
        r
    }
}

/// The directory that contains `p`.
pub fn parent(p: &str) -> (r: String)
    ensures
        r@ == parent_spec(p@),
{
    proof {
        lemma_last_slash_bounds(p@);
    }
    match find_last_slash(p) {
        None => String::new(),
        Some(i) => {
            if i == 0 {
                proof {
                    reveal_strlit("/");
                }
                String::from_str("/")
            } else {
                String::from_str(p.substring_char(0, i))
            }
        },
    }
}

/// The last component of `p`, where it names an entry.
pub fn file_name(p: &str) -> (r: Option<String>)
    ensures
        match r {
            Some(n) => file_name_spec(p@) == Some(n@),
            None => file_name_spec(p@) is None,
        },
{
    proof {
        lemma_last_slash_bounds(p@);
    }
    let n = p.unicode_len();
    let start: usize = match find_last_slash(p) {
        None => 0,
        Some(i) => i + 1,
    };
    let name = p.substring_char(start, n);
    let k = name.unicode_len();
    if k == 0 {
        return None;
    }
    if k == 1 && name.get_char(0) == '.' {
        assert(name@ =~= seq!['.']);
        return None;
    }
    if k == 2 && name.get_char(0) == '.' && name.get_char(1) == '.' {
        assert(name@ =~= seq!['.', '.']);
        return None;
    }
    proof {
        if name@ == seq!['.'] {
            assert(name@[0] == '.');
        }
        if name@ == seq!['.', '.'] {
            assert(name@[1] == '.');
        }
    }
    Some(String::from_str(name))
}

} // verus!
