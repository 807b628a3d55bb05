use vstd::prelude::*;
use vstd::string::StrSliceExecFns;

use crate::post::BlogPost;

verus! {

/// The outcome of a lookup that matched nothing: an explicit signal, never a
/// sentinel value.
#[derive(Debug, Clone, Copy, PartialEq, Eq, Structural)]
pub enum LookupError {
    NotFound,
}

/// The first post of `posts`, in order, whose title equals `query` exactly
/// (codepoint equality, no normalization), or `None` if there is none.
pub open spec fn spec_find(posts: Seq<BlogPost>, query: Seq<char>) -> Option<BlogPost>
    decreases posts.len(),
{
    if posts.len() == 0 {
        None
    } else if posts[0].title@ == query {
        Some(posts[0])
    } else {
        spec_find(posts.drop_first(), query)
    }
}

/// Exact codepoint equality of two string slices.
pub fn str_eq(a: &str, b: &str) -> (r: bool)
    ensures
        r == (a@ == b@),
{
    let n = a.unicode_len();
    let m = b.unicode_len();
    if n != m {
        proof {
            assert(a@ != b@);
        }
        return false;
    }
    let mut i: usize = 0;
    while i < n
        invariant
            n == a@.len(),
            n == b@.len(),
            i <= n,
            forall|j: int| 0 <= j < i ==> a@[j] == b@[j],
        decreases n - i,
    {
        if a.get_char(i) != b.get_char(i) {
            proof {
                assert(a@[i as int] != b@[i as int]);
            }
            return false;
        }
        i = i + 1;
    }
    proof {
        assert(a@ =~= b@);
    }
    true
}

/// Scan the collection in order and return the first post whose title is
/// exactly `query_title`, or `LookupError::NotFound` if no title matches.
pub fn find<'a>(posts: &'a Vec<BlogPost>, query_title: &str) -> (r: Result<
    &'a BlogPost,
    LookupError,
>)
    ensures
        r is Ok <==> spec_find(posts@, query_title@) is Some,
        r matches Ok(p) ==> Some(*p) == spec_find(posts@, query_title@),
        r matches Err(e) ==> e == LookupError::NotFound,
{
    let n = posts.len();
    let mut i: usize = 0;
    proof {
        assert(posts@.skip(0) =~= posts@);
    }
    while i < n
        invariant
            n == posts@.len(),
            i <= n,
            spec_find(posts@, query_title@) == spec_find(posts@.skip(i as int), query_title@),
        decreases n - i,
    {
        if str_eq(posts[i].title.as_str(), query_title) {
            proof {
                assert(posts@.skip(i as int)[0] == posts@[i as int]);
            }
            return Ok(&posts[i]);
        }
        proof {
            assert(posts@.skip(i as int)[0] == posts@[i as int]);
            assert(posts@.skip(i as int).drop_first() =~= posts@.skip(i + 1));
        }
        i = i + 1;
    }
    proof {
        assert(posts@.skip(n as int) =~= Seq::<BlogPost>::empty());
    }
    Err(LookupError::NotFound)
}

/// Law: a lookup succeeds exactly when some post carries the queried title,
/// and what it returns is the first such post in collection order.
pub proof fn lemma_find_finds_first(posts: Seq<BlogPost>, query: Seq<char>)
    ensures
        spec_find(posts, query) is Some <==> (exists|i: int|
            0 <= i < posts.len() && posts[i].title@ == query),
        spec_find(posts, query) matches Some(p) ==> (exists|i: int|
            0 <= i < posts.len() && posts[i] == p && posts[i].title@ == query && (forall|j: int|
                0 <= j < i ==> posts[j].title@ != query)),
    decreases posts.len(),
{
    if posts.len() == 0 {
    } else if posts[0].title@ == query {
        assert(0 <= 0 < posts.len() && posts[0].title@ == query);
    } else {
        lemma_find_finds_first(posts.drop_first(), query);
        let rest = posts.drop_first();
        if spec_find(posts, query) is Some {
            let i = choose|i: int|
                0 <= i < rest.len() && rest[i] == spec_find(rest, query)->Some_0
                    && rest[i].title@ == query && (forall|j: int|
                    0 <= j < i ==> rest[j].title@ != query);
            assert(posts[i + 1] == rest[i]);
            assert(forall|j: int| 0 <= j < i + 1 ==> posts[j].title@ != query) by {
                assert(forall|j: int| 1 <= j < i + 1 ==> posts[j] == rest[j - 1]);
            }
        } else {
            assert(forall|i: int|
                0 <= i < posts.len() ==> posts[i].title@ != query) by {
                assert(forall|i: int| 1 <= i < posts.len() ==> posts[i] == rest[i - 1]);
            }
        }
    }
}

/// Law: a title that no post of the collection carries is reported as not
/// found.
pub proof fn lemma_absent_title_not_found(posts: Seq<BlogPost>, query: Seq<char>)
    requires
        forall|i: int| 0 <= i < posts.len() ==> posts[i].title@ != query,
    ensures
        spec_find(posts, query) is None,
{
    lemma_find_finds_first(posts, query);
}

/// Law: looking up the title of a post of the collection returns that very
/// post, provided the collection's titles are pairwise distinct.
pub proof fn lemma_find_own_title(posts: Seq<BlogPost>, i: int)
    requires
        0 <= i < posts.len(),
        forall|j: int, k: int| 0 <= j < k < posts.len() ==> posts[j].title@ != posts[k].title@,
    ensures
        spec_find(posts, posts[i].title@) == Some(posts[i]),
    decreases posts.len(),
{
    if i == 0 {
    } else {
        assert(posts[0].title@ != posts[i].title@);
        let rest = posts.drop_first();
        assert(forall|j: int, k: int|
            0 <= j < k < rest.len() ==> rest[j].title@ != rest[k].title@) by {
            assert(forall|j: int| 0 <= j < rest.len() ==> rest[j] == posts[j + 1]);
        }
        assert(rest[i - 1] == posts[i]);
        lemma_find_own_title(rest, i - 1);
    }
}

/// Law: the outcome of a lookup is a function of the collection and the
/// queried title alone, so repeated identical lookups against an unmutated
/// collection return identical results.
pub proof fn lemma_find_idempotent(
    posts: Seq<BlogPost>,
    query: Seq<char>,
    r1: Option<BlogPost>,
    r2: Option<BlogPost>,
)
    requires
        r1 == spec_find(posts, query),
        r2 == spec_find(posts, query),
    ensures
        r1 == r2,
{
}

} // verus!
