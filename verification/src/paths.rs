//! Paths as character strings and as component lists, and the exact
//! correspondence between the two.  A path string is split on `/`; an
//! absolute path therefore starts with an empty component.

use vstd::prelude::*;

verus! {

/// The components of `s` split on `/`: always at least one component,
/// with an empty component for each leading, trailing or doubled
/// separator.
pub open spec fn spec_split(s: Seq<char>) -> Seq<Seq<char>>
    decreases s.len(),
{
    if s.len() == 0 {
        seq![Seq::<char>::empty()]
    } else {
        let rest = spec_split(s.drop_last());
        if s.last() == '/' {
            rest.push(Seq::<char>::empty())
        } else {
            rest.update(rest.len() - 1, rest.last().push(s.last()))
        }
    }
}

/// Splitting yields at least one component.
pub proof fn lemma_split_nonempty(s: Seq<char>)
    ensures
        spec_split(s).len() >= 1,
    decreases s.len(),
{
    if s.len() > 0 {
        lemma_split_nonempty(s.drop_last());
    }
}

/// The components of the path string `s`.
pub fn path_components(s: &String) -> (r: Vec<String>)
    ensures
        r.deep_view() == spec_split(s@),
{
    let st = s.as_str();
    let n = st.unicode_len();
    let mut r: Vec<String> = Vec::new();
    let mut start: usize = 0;
    let mut i: usize = 0;
    proof {
        assert(s@.subrange(0, 0) =~= Seq::<char>::empty());
        assert(r.deep_view() =~= Seq::<Seq<char>>::empty());
        assert(r.deep_view().push(s@.subrange(0, 0)) =~= seq![Seq::<char>::empty()]);
    }
    while i < n
        invariant
            st@ == s@,
            n == s@.len(),
            start <= i <= n,
            r.deep_view().push(s@.subrange(start as int, i as int)) == spec_split(
                s@.subrange(0, i as int),
            ),
        decreases n - i,
    {
        let ghost pre = s@.subrange(0, i as int);
        let ghost cur = s@.subrange(start as int, i as int);
        let ghost post = s@.subrange(0, i as int + 1);
        proof {
            assert(post.drop_last() =~= pre);
            assert(post.last() == s@[i as int]);
            lemma_split_nonempty(pre);
        }
        let c = st.get_char(i);
        if c == '/' {
            let comp = st.substring_char(start, i).to_owned();
            let ghost r0 = r.deep_view();
            r.push(comp);
            proof {
                assert(r.deep_view() =~= r0.push(cur));
                assert(spec_split(post) == spec_split(pre).push(Seq::<char>::empty()));
                assert(s@.subrange(i as int + 1, i as int + 1) =~= Seq::<char>::empty());
                assert(r.deep_view().push(s@.subrange(i as int + 1, i as int + 1)) =~= spec_split(
                    pre,
                ).push(Seq::<char>::empty()));
            }
            start = i + 1;
        } else {
            proof {
                let sp = spec_split(pre);
                assert(sp == r.deep_view().push(cur));
                assert(sp.len() == r.deep_view().len() + 1);
                assert(spec_split(post) == sp.update(sp.len() - 1, sp.last().push(s@[i as int])));
                assert(sp.last() == cur);
                assert(s@.subrange(start as int, i as int + 1) =~= cur.push(s@[i as int]));
                assert(sp.update(sp.len() - 1, cur.push(s@[i as int])) =~= r.deep_view().push(
                    s@.subrange(start as int, i as int + 1),
                ));
            }
        }
        i += 1;
    }
    let comp = st.substring_char(start, n).to_owned();
    let ghost r0 = r.deep_view();
    r.push(comp);
    proof {
        assert(s@.subrange(0, n as int) =~= s@);
        assert(r.deep_view() =~= r0.push(s@.subrange(start as int, n as int)));
    }
    r
}

/// `path` resolved against the working directory `cwd`: taken as it
/// stands when absolute, placed under `cwd` otherwise.
pub open spec fn spec_resolve(cwd: Seq<Seq<char>>, path: Seq<char>) -> Seq<Seq<char>> {
    if path.len() > 0 && path[0] == '/' {
        spec_split(path)
    } else {
        cwd + spec_split(path)
    }
}

/// Resolve `path` against `cwd`, component by component.
pub fn resolve_path(cwd: &Vec<String>, path: &String) -> (r: Vec<String>)
    ensures
        r.deep_view() == spec_resolve(cwd.deep_view(), path@),
{
    let st = path.as_str();
    let comps = path_components(path);
    if st.unicode_len() > 0 && st.get_char(0) == '/' {
        comps
    } else {
        let mut r = crate::fsmodel::clone_path(cwd);
        let ghost r0 = r.deep_view();
        let mut rest = comps;
        r.append(&mut rest);
        proof {
            assert(r.deep_view() =~= cwd.deep_view() + spec_split(path@));
        }
        r
    }
}

/// What follows the last `/` of `s`; all of `s` when it has none.
pub open spec fn spec_after_last_slash(s: Seq<char>) -> Seq<char>
    decreases s.len(),
{
    if s.len() == 0 {
        s
    } else if s.last() == '/' {
        Seq::<char>::empty()
    } else {
        spec_after_last_slash(s.drop_last()).push(s.last())
    }
}

/// The name of the directory a path string points at: its last
/// component.
pub fn after_last_slash(s: &String) -> (r: String)
    ensures
        r@ == spec_after_last_slash(s@),
{
    let st = s.as_str();
    let n = st.unicode_len();
    let mut k: usize = n;
    let mut found = false;
    while k > 0 && !found
        invariant
            st@ == s@,
            n == s@.len(),
            k <= n,
            found ==> k >= 1 && s@[k as int - 1] == '/',
            forall|j: int| k <= j < n ==> s@[j] != '/',
        decreases k + (if found { 0int } else { 1int }),
    {
        if st.get_char(k - 1) == '/' {
            found = true;
        } else {
            k -= 1;
        }
    }
    let r = st.substring_char(k, n).to_owned();
    proof {
        if found {
            lemma_after_slash(s@, k as int - 1);
        } else {
            lemma_after_no_slash(s@);
            assert(s@.subrange(0, n as int) =~= s@);
        }
    }
    r
}

/// When `s[k]` is the last `/`, what follows it is the suffix from
/// `k + 1`.
proof fn lemma_after_slash(s: Seq<char>, k: int)
    requires
        0 <= k < s.len(),
        s[k] == '/',
        forall|j: int| k < j < s.len() ==> s[j] != '/',
    ensures
        spec_after_last_slash(s) == s.subrange(k + 1, s.len() as int),
    decreases s.len(),
{
    if k == s.len() - 1 {
        assert(s.subrange(k + 1, s.len() as int) =~= Seq::<char>::empty());
    } else {
        let s1 = s.drop_last();
        assert forall|j: int| k < j < s1.len() implies s1[j] != '/' by {
            assert(s1[j] == s[j]);
        }
        lemma_after_slash(s1, k);
        assert(s.subrange(k + 1, s.len() as int) =~= s1.subrange(k + 1, s1.len() as int).push(
            s.last(),
        ));
    }
}

/// A string without `/` is its own last component.
proof fn lemma_after_no_slash(s: Seq<char>)
    requires
        forall|j: int| 0 <= j < s.len() ==> s[j] != '/',
    ensures
        spec_after_last_slash(s) == s,
    decreases s.len(),
{
    if s.len() > 0 {
        let s1 = s.drop_last();
        assert forall|j: int| 0 <= j < s1.len() implies s1[j] != '/' by {
            assert(s1[j] == s[j]);
        }
        lemma_after_no_slash(s1);
        assert(s1.push(s.last()) =~= s);
    }
}

} // verus!
