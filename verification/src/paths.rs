//! Path arithmetic on `/`-separated relative paths: joining a directory and a
//! relative path, and taking a path's final component (its file name). The
//! self-replace policy compares file names, so the facts proved here carry
//! most of its guarantees.

use vstd::prelude::*;

verus! {

/// `a` and `b` joined with a single separator.
pub open spec fn join_path(a: Seq<char>, b: Seq<char>) -> Seq<char> {
    a + "/"@ + b
}

/// The final component of a path: everything after the last separator, or the
/// whole path when it has none.
pub open spec fn last_comp(s: Seq<char>) -> Seq<char>
    decreases s.len(),
{
    if s.len() == 0 {
        s
    } else if s.last() == '/' {
        Seq::empty()
    } else {
        last_comp(s.drop_last()).push(s.last())
    }
}

/// The final component is the suffix that begins right after the last
/// separator.
pub proof fn lemma_last_comp_subrange(s: Seq<char>, i: int)
    requires
        0 <= i <= s.len(),
        forall|j: int| i <= j < s.len() ==> s[j] != '/',
        i == 0 || s[i - 1] == '/',
    ensures
        last_comp(s) == s.subrange(i, s.len() as int),
    decreases s.len(),
{
    if s.len() == i {
        if i == 0 {
            assert(last_comp(s) =~= s.subrange(i, s.len() as int));
        } else {
            assert(s.last() == '/');
            assert(last_comp(s) =~= s.subrange(i, s.len() as int));
        }
    } else {
        assert(s.last() != '/');
        lemma_last_comp_subrange(s.drop_last(), i);
        assert(s.subrange(i, s.len() as int) =~= s.drop_last().subrange(
            i,
            s.drop_last().len() as int,
        ).push(s.last()));
    }
}

/// Appending separator-free text extends the final component by that text.
pub proof fn lemma_last_comp_append_no_slash(x: Seq<char>, y: Seq<char>)
    requires
        forall|j: int| 0 <= j < y.len() ==> y[j] != '/',
    ensures
        last_comp(x + y) == last_comp(x) + y,
    decreases y.len(),
{
    if y.len() == 0 {
        assert(x + y =~= x);
        assert(last_comp(x) + y =~= last_comp(x));
    } else {
        lemma_last_comp_append_no_slash(x, y.drop_last());
        assert((x + y).drop_last() =~= x + y.drop_last());
        assert((x + y).len() > 0 && (x + y).last() == y.last());
        assert(last_comp(x + y) == (last_comp(x) + y.drop_last()).push(y.last()));
        assert((last_comp(x) + y.drop_last()).push(y.last()) =~= last_comp(x) + y);
    }
}

/// When the appended text contains a separator, the final component comes
/// from that text alone.
pub proof fn lemma_last_comp_append_with_slash(x: Seq<char>, y: Seq<char>)
    requires
        exists|j: int| 0 <= j < y.len() && y[j] == '/',
    ensures
        last_comp(x + y) == last_comp(y),
    decreases y.len(),
{
    assert(y.len() > 0);
    if y.last() == '/' {
        assert((x + y).last() == '/');
        assert(last_comp(x + y) =~= last_comp(y));
    } else {
        let j = choose|j: int| 0 <= j < y.len() && y[j] == '/';
        assert(j < y.len() - 1);
        assert(y.drop_last()[j] == '/');
        lemma_last_comp_append_with_slash(x, y.drop_last());
        assert((x + y).drop_last() =~= x + y.drop_last());
        assert((x + y).last() == y.last());
    }
}

/// A path without separators is its own final component.
pub proof fn lemma_last_comp_no_slash(s: Seq<char>)
    requires
        forall|j: int| 0 <= j < s.len() ==> s[j] != '/',
    ensures
        last_comp(s) == s,
{
    lemma_last_comp_append_no_slash(Seq::empty(), s);
    assert(Seq::empty() + s =~= s);
    assert(last_comp(Seq::<char>::empty()) + s =~= s);
}

/// The final component of a joined path is the final component of its
/// relative part.
pub proof fn lemma_last_comp_join(a: Seq<char>, b: Seq<char>)
    ensures
        last_comp(join_path(a, b)) == last_comp(b),
{
    reveal_strlit("/");
    let y = "/"@ + b;
    assert(y[0] == '/');
    assert(a + y =~= join_path(a, b));
    lemma_last_comp_append_with_slash(a, y);
    if exists|j: int| 0 <= j < b.len() && b[j] == '/' {
        lemma_last_comp_append_with_slash("/"@, b);
    } else {
        lemma_last_comp_append_no_slash("/"@, b);
        assert("/"@.last() == '/');
        assert(last_comp("/"@) =~= Seq::<char>::empty());
        assert(last_comp("/"@) + b =~= b);
        lemma_last_comp_no_slash(b);
    }
}

/// Whether two strings hold the same characters.
pub fn str_eq(a: &str, b: &str) -> (r: bool)
    ensures
        r == (a@ == b@),
{
    let na = a.unicode_len();
    let nb = b.unicode_len();
    if na != nb {
        proof {
            if a@ == b@ {
                assert(a@.len() == b@.len());
            }
        }
        return false;
    }
    let mut j: usize = 0;
    while j < na
        invariant
            j <= na,
            na == a@.len(),
            na == b@.len(),
            forall|k: int| 0 <= k < j ==> a@[k] == b@[k],
        decreases na - j,
    {
        if a.get_char(j) != b.get_char(j) {
            proof {
                if a@ == b@ {
                    assert(a@[j as int] == b@[j as int]);
                }
            }
            return false;
        }
        j += 1;
    }
    proof {
        assert(a@ =~= b@);
    }
    true
}

/// Joins a directory and a relative path with a single separator.
pub fn join(a: &str, b: &str) -> (r: String)
    ensures
        r@ == join_path(a@, b@),
{
    let mut s = String::from_str(a);
    s.append("/");
    s.append(b);
    s
}

/// The final component of a path, as a borrowed suffix.
pub fn last_component<'a>(s: &'a str) -> (r: &'a str)
    ensures
        r@ == last_comp(s@),
{
    let n = s.unicode_len();
    let mut cut: usize = 0;
    let mut j: usize = 0;
    while j < n
        invariant
            j <= n,
            n == s@.len(),
            cut <= j,
            cut == 0 || s@[cut - 1] == '/',
            forall|k: int| cut <= k < j ==> s@[k] != '/',
        decreases n - j,
    {
        if s.get_char(j) == '/' {
            cut = j + 1;
        }
        j += 1;
    }
    proof {
        lemma_last_comp_subrange(s@, cut as int);
    }
    s.substring_char(cut, n)
}

} // verus!
