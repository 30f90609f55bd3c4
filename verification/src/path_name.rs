//! Deriving a repository's display name from its path: the last
//! `/`-separated segment, once trailing separators are dropped; empty when
//! nothing remains.

use vstd::prelude::*;

verus! {

/// `e` marks the end of `p` once trailing separators are stripped: everything
/// from `e` on is a `/`, and `e` itself is tight.
pub open spec fn trailing_bounds(p: Seq<char>, e: int) -> bool {
    &&& 0 <= e <= p.len()
    &&& forall|j: int| e <= j < p.len() ==> p[j] == '/'
    &&& e == 0 || p[e - 1] != '/'
}

/// `s` marks the start of the separator-free segment that ends at `e`.
pub open spec fn segment_bounds(p: Seq<char>, s: int, e: int) -> bool {
    &&& 0 <= s <= e
    &&& forall|j: int| s <= j < e ==> p[j] != '/'
    &&& s == 0 || p[s - 1] == '/'
}

/// Where the name ends in `p`.
pub open spec fn name_end(p: Seq<char>) -> int {
    choose|e: int| trailing_bounds(p, e)
}

/// Where the name starts in `p`.
pub open spec fn name_start(p: Seq<char>) -> int {
    choose|s: int| segment_bounds(p, s, name_end(p))
}

/// The display name carried by a path.
pub open spec fn repo_name_of(p: Seq<char>) -> Seq<char> {
    p.subrange(name_start(p), name_end(p))
}

proof fn lemma_trailing_unique(p: Seq<char>, e1: int, e2: int)
    requires
        trailing_bounds(p, e1),
        trailing_bounds(p, e2),
    ensures
        e1 == e2,
{
    if e1 < e2 {
        assert(p[e2 - 1] == '/');
    }
    if e2 < e1 {
        assert(p[e1 - 1] == '/');
    }
}

proof fn lemma_segment_unique(p: Seq<char>, e: int, s1: int, s2: int)
    requires
        segment_bounds(p, s1, e),
        segment_bounds(p, s2, e),
    ensures
        s1 == s2,
{
    if s1 < s2 {
        assert(p[s2 - 1] != '/');
    }
    if s2 < s1 {
        assert(p[s1 - 1] != '/');
    }
}

proof fn lemma_trailing_exists(p: Seq<char>)
    ensures
        exists|e: int| trailing_bounds(p, e),
    decreases p.len(),
{
    if p.len() == 0 {
        assert(trailing_bounds(p, 0));
    } else if p[p.len() - 1] == '/' {
        lemma_trailing_exists(p.drop_last());
        let e = choose|e: int| trailing_bounds(p.drop_last(), e);
        assert(forall|j: int| e <= j < p.len() - 1 ==> p.drop_last()[j] == p[j]);
        assert(trailing_bounds(p, e));
    } else {
        assert(trailing_bounds(p, p.len() as int));
    }
}

proof fn lemma_segment_exists(p: Seq<char>, e: int)
    requires
        0 <= e <= p.len(),
    ensures
        exists|s: int| segment_bounds(p, s, e),
    decreases e,
{
    if e == 0 {
        assert(segment_bounds(p, 0, 0));
    } else if p[e - 1] == '/' {
        assert(segment_bounds(p, e, e));
    } else {
        let e1: int = e - 1;
        lemma_segment_exists(p, e1);
        let s = choose|s: int| segment_bounds(p, s, e1);
        assert(segment_bounds(p, s, e));
    }
}

/// Every path has its name bounds: `repo_name_of` is well defined, with
/// `name_end` and `name_start` satisfying the two shape predicates.
pub proof fn lemma_repo_name_bounds(p: Seq<char>)
    ensures
        trailing_bounds(p, name_end(p)),
        segment_bounds(p, name_start(p), name_end(p)),
{
    lemma_trailing_exists(p);
    assert(trailing_bounds(p, name_end(p)));
    lemma_segment_exists(p, name_end(p));
}

/// The name's place in a path is determined: any pair of bounds that
/// satisfies the two shape predicates delimits exactly `repo_name_of`.
pub proof fn lemma_repo_name(p: Seq<char>, s: int, e: int)
    requires
        trailing_bounds(p, e),
        segment_bounds(p, s, e),
    ensures
        repo_name_of(p) == p.subrange(s, e),
{
    assert(trailing_bounds(p, name_end(p)));
    lemma_trailing_unique(p, e, name_end(p));
    assert(segment_bounds(p, name_start(p), name_end(p)));
    lemma_segment_unique(p, name_end(p), s, name_start(p));
}

/// The display name of a repository path.
pub fn repo_name(path: &str) -> (r: String)
    ensures
        r@ == repo_name_of(path@),
{
    let n: usize = path.unicode_len();
    let mut e: usize = n;
    while e > 0 && path.get_char(e - 1) == '/'
        invariant
            e <= n,
            n == path@.len(),
            forall|j: int| e <= j < n ==> path@[j] == '/',
        decreases e,
    {
        e = e - 1;
    }
    let mut s: usize = e;
    while s > 0 && path.get_char(s - 1) != '/'
        invariant
            s <= e,
            e <= n,
            n == path@.len(),
            forall|j: int| s <= j < e ==> path@[j] != '/',
        decreases s,
    {
        s = s - 1;
    }
    let seg = path.substring_char(s, e);
    proof {
        lemma_repo_name(path@, s as int, e as int);
    }
    String::from_str(seg)
}

} // verus!
