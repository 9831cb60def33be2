//! Paths as strings of characters, with `/` as the separator.
//!
//! Joining, taking the parent and taking the file name follow the rules of
//! `std::path::Path` for the paths this library handles (no `.` components).
use vstd::prelude::*;

verus! {

/// `s` without its trailing separators.
pub open spec fn trim_end_seps(s: Seq<char>) -> Seq<char>
    decreases s.len(),
{
    if s.len() > 0 && s.last() == '/' {
        trim_end_seps(s.drop_last())
    } else {
        s
    }
}

/// The index of the last separator in `s`, or -1 where there is none.
pub open spec fn last_sep(s: Seq<char>) -> int
    decreases s.len(),
{
    if s.len() == 0 {
        -1
    } else if s.last() == '/' {
        s.len() - 1
    } else {
        last_sep(s.drop_last())
    }
}

/// `base` with `part` appended as a further component; an absolute `part`
/// replaces `base`.
pub open spec fn join_path(base: Seq<char>, part: Seq<char>) -> Seq<char> {
    if part.len() > 0 && part[0] == '/' {
        part
    } else if base.len() == 0 || base.last() == '/' {
        base + part
    } else {
        base + seq!['/'] + part
    }
}

/// The path without its last component; `None` for the root and the empty path.
pub open spec fn parent_path(p: Seq<char>) -> Option<Seq<char>> {
    let t = trim_end_seps(p);
    if t.len() == 0 {
        None
    } else if last_sep(t) < 0 {
        Some(Seq::empty())
    } else {
        let h = trim_end_seps(t.subrange(0, last_sep(t)));
        if h.len() == 0 {
            Some(seq!['/'])
        } else {
            Some(h)
        }
    }
}

/// The last component of the path; `None` where there is none, or it is `..`.
pub open spec fn file_name_of(p: Seq<char>) -> Option<Seq<char>> {
    let t = trim_end_seps(p);
    let name = t.subrange(last_sep(t) + 1, t.len() as int);
    if name.len() == 0 || name == seq!['.', '.'] {
        None
    } else {
        Some(name)
    }
}

/// The path after `level` steps to the parent, or `None` where one of them has none.
pub open spec fn nth_parent(p: Seq<char>, level: nat) -> Option<Seq<char>>
    decreases level,
{
    if level == 0 {
        Some(p)
    } else {
        match nth_parent(p, (level - 1) as nat) {
            Some(q) => parent_path(q),
            None => None,
        }
    }
}

/// The first `k` for which `nth_parent(p, k + 1)` is `None`, searched below `level`.
pub open spec fn first_missing_parent(p: Seq<char>, level: nat) -> nat
    decreases level,
{
    if level == 0 {
        0
    } else if nth_parent(p, (level - 1) as nat) is Some && nth_parent(p, level) is None {
        (level - 1) as nat
    } else {
        first_missing_parent(p, (level - 1) as nat)
    }
}

/// The path and each of its ancestors in turn, as `Path::ancestors` gives them.
pub open spec fn ancestors(p: Seq<char>) -> Seq<Seq<char>>
    decreases p.len(),
{
    match parent_path(p) {
        Some(q) => if q.len() < p.len() {
            seq![p] + ancestors(q)
        } else {
            seq![p]
        },
        None => seq![p],
    }
}

pub proof fn lemma_trim_is_prefix(s: Seq<char>)
    ensures
        trim_end_seps(s).len() <= s.len(),
        trim_end_seps(s) == s.subrange(0, trim_end_seps(s).len() as int),
        trim_end_seps(s).len() > 0 ==> trim_end_seps(s).last() != '/',
    decreases s.len(),
{
    if s.len() > 0 && s.last() == '/' {
        lemma_trim_is_prefix(s.drop_last());
        assert(s.drop_last().subrange(0, trim_end_seps(s).len() as int) =~= s.subrange(
            0,
            trim_end_seps(s).len() as int,
        ));
    } else {
        assert(s.subrange(0, s.len() as int) =~= s);
    }
}

pub proof fn lemma_last_sep_bounds(s: Seq<char>)
    ensures
        -1 <= last_sep(s) < s.len(),
        last_sep(s) >= 0 ==> s[last_sep(s)] == '/',
        forall|j: int| last_sep(s) < j < s.len() ==> s[j] != '/',
    decreases s.len(),
{
    if s.len() > 0 && s.last() != '/' {
        lemma_last_sep_bounds(s.drop_last());
        assert forall|j: int| last_sep(s) < j < s.len() implies s[j] != '/' by {
            if j < s.len() - 1 {
                assert(s.drop_last()[j] == s[j]);
            }
        }
    }
}

/// A parent is shorter than the path it was taken from.
pub proof fn lemma_parent_shorter(p: Seq<char>)
    ensures
        parent_path(p) matches Some(q) ==> q.len() < p.len(),
{
    let t = trim_end_seps(p);
    lemma_trim_is_prefix(p);
    if t.len() > 0 && last_sep(t) >= 0 {
        lemma_last_sep_bounds(t);
        lemma_trim_is_prefix(t.subrange(0, last_sep(t)));
    }
}

/// The characters of `s`, one by one.
pub fn chars_of(s: &str) -> (v: Vec<char>)
    ensures
        v@ == s@,
{
    let n = s.unicode_len();
    let mut v: Vec<char> = Vec::new();
    let mut i: usize = 0;
    while i < n
        invariant
            n == s@.len(),
            i <= n,
            v@ == s@.subrange(0, i as int),
        decreases n - i,
    {
        v.push(s.get_char(i));
        i = i + 1;
        assert(v@ =~= s@.subrange(0, i as int));
    }
    assert(v@ =~= s@);
    v
}

/// The length of the first `n` characters of `cs` once trailing separators are dropped.
fn trimmed_len(cs: &Vec<char>, n: usize) -> (m: usize)
    requires
        n <= cs@.len(),
    ensures
        m <= n,
        trim_end_seps(cs@.subrange(0, n as int)) == cs@.subrange(0, m as int),
{
    let mut m = n;
    while m > 0 && cs[m - 1] == '/'
        invariant
            m <= n <= cs@.len(),
            trim_end_seps(cs@.subrange(0, n as int)) == trim_end_seps(cs@.subrange(0, m as int)),
        decreases m,
    {
        assert(cs@.subrange(0, m as int).drop_last() =~= cs@.subrange(0, m - 1));
        m = m - 1;
    }
    m
}

/// The index of the last separator among the first `n` characters of `cs`.
fn last_sep_before(cs: &Vec<char>, n: usize) -> (r: Option<usize>)
    requires
        n <= cs@.len(),
    ensures
        match r {
            Some(i) => i < n && last_sep(cs@.subrange(0, n as int)) == i as int,
            None => last_sep(cs@.subrange(0, n as int)) == -1,
        },
{
    let mut m = n;
    while m > 0 && cs[m - 1] != '/'
        invariant
            m <= n <= cs@.len(),
            last_sep(cs@.subrange(0, n as int)) == last_sep(cs@.subrange(0, m as int)),
        decreases m,
    {
        assert(cs@.subrange(0, m as int).drop_last() =~= cs@.subrange(0, m - 1));
        m = m - 1;
    }
    if m == 0 {
        None
    } else {
        Some(m - 1)
    }
}

/// `base` joined with `part`, as `PathBuf::push` does.
pub fn join(base: &str, part: &str) -> (r: String)
    ensures
        r@ == join_path(base@, part@),
{
    let n = part.unicode_len();
    if n > 0 && part.get_char(0) == '/' {
        return part.to_owned();
    }
    let m = base.unicode_len();
    let mut r = base.to_owned();
    if !(m == 0 || base.get_char(m - 1) == '/') {
        r.append("/");
        proof {
            reveal_strlit("/");
        }
    }
    r.append(part);
    r
}

/// The parent of `p`, as `Path::parent` gives it.
pub fn parent(p: &str) -> (r: Option<String>)
    ensures
        r is Some <==> parent_path(p@) is Some,
        r is Some ==> r->0@ == parent_path(p@)->0,
{
    let cs = chars_of(p);
    let t = trimmed_len(&cs, cs.len());
    proof {
        assert(cs@.subrange(0, cs@.len() as int) =~= cs@);
    }
    if t == 0 {
        return None;
    }
    match last_sep_before(&cs, t) {
        None => Some(String::new()),
        Some(i) => {
            let ts = Ghost(cs@.subrange(0, t as int));
            proof {
                lemma_last_sep_bounds(ts@);
                assert(ts@.subrange(0, i as int) =~= cs@.subrange(0, i as int));
            }
            let h = trimmed_len(&cs, i);
            if h == 0 {
                proof {
                    reveal_strlit("/");
                }
                Some(String::from_str("/"))
            } else {
                Some(p.substring_char(0, h).to_owned())
            }
        },
    }
}

/// The last component of `p`, as `Path::file_name` gives it.
pub fn file_name(p: &str) -> (r: Option<String>)
    ensures
        r is Some <==> file_name_of(p@) is Some,
        r is Some ==> r->0@ == file_name_of(p@)->0,
{
    let cs = chars_of(p);
    let t = trimmed_len(&cs, cs.len());
    proof {
        assert(cs@.subrange(0, cs@.len() as int) =~= cs@);
    }
    let start = match last_sep_before(&cs, t) {
        None => 0,
        Some(i) => i + 1,
    };
    let ghost ts = cs@.subrange(0, t as int);
    proof {
        lemma_last_sep_bounds(ts);
        assert(ts.subrange(last_sep(ts) + 1, ts.len() as int) =~= cs@.subrange(
            start as int,
            t as int,
        ));
    }
    if start == t {
        return None;
    }
    if t - start == 2 && cs[start] == '.' && cs[start + 1] == '.' {
        assert(cs@.subrange(start as int, t as int) =~= seq!['.', '.']);
        return None;
    }
    proof {
        if cs@.subrange(start as int, t as int) == seq!['.', '.'] {
            assert(cs@.subrange(start as int, t as int)[0] == cs@[start as int]);
            assert(cs@.subrange(start as int, t as int)[1] == cs@[start + 1]);
        }
    }
    Some(p.substring_char(start, t).to_owned())
}

/// The path `level` steps up from `p`, or the number of steps that could be
/// taken before a step found no parent.
pub fn ancestor_at(p: &str, level: usize) -> (r: Result<String, usize>)
    ensures
        match r {
            Ok(q) => nth_parent(p@, level as nat) == Some(q@),
            Err(k) => nth_parent(p@, level as nat) is None && k == first_missing_parent(
                p@,
                level as nat,
            ),
        },
{
    let mut dir = p.to_owned();
    let mut current: usize = 0;
    while current < level
        invariant
            current <= level,
            nth_parent(p@, current as nat) == Some(dir@),
            forall|j: nat| j <= current ==> #[trigger] nth_parent(p@, j) is Some,
        decreases level - current,
    {
        match parent(dir.as_str()) {
            Some(q) => {
                dir = q;
                current = current + 1;
                proof {
                    assert forall|j: nat| j <= current implies #[trigger] nth_parent(p@, j) is Some by {
                        if j < current {
                            assert(nth_parent(p@, j) is Some);
                        }
                    }
                }
            },
            None => {
                proof {
                    lemma_first_missing(p@, current as nat, level as nat);
                }
                return Err(current);
            },
        }
    }
    Ok(dir)
}

proof fn lemma_first_missing(p: Seq<char>, k: nat, level: nat)
    requires
        k < level,
        forall|j: nat| j <= k ==> #[trigger] nth_parent(p, j) is Some,
        nth_parent(p, k + 1) is None,
    ensures
        nth_parent(p, level) is None,
        first_missing_parent(p, level) == k,
    decreases level,
{
    if level > k + 1 {
        lemma_first_missing(p, k, (level - 1) as nat);
    }
}

/// Each ancestor of `cwd`, from `cwd` itself up to the root, with `name` joined to it.
pub fn in_each_ancestor(cwd: &str, name: &str) -> (r: Vec<String>)
    ensures
        r@.len() == ancestors(cwd@).len(),
        forall|i: int|
            0 <= i < r@.len() ==> #[trigger] r@[i]@ == join_path(ancestors(cwd@)[i], name@),
{
    let mut r: Vec<String> = Vec::new();
    let mut dir = cwd.to_owned();
    let ghost done: Seq<Seq<char>> = Seq::empty();
    loop
        invariant
            ancestors(cwd@) == done + ancestors(dir@),
            r@.len() == done.len(),
            forall|i: int| 0 <= i < r@.len() ==> #[trigger] r@[i]@ == join_path(done[i], name@),
        decreases dir@.len(),
    {
        r.push(join(dir.as_str(), name));
        proof {
            lemma_parent_shorter(dir@);
        }
        match parent(dir.as_str()) {
            Some(q) => {
                if q.unicode_len() >= dir.unicode_len() {
                    proof {
                        assert(ancestors(dir@) == seq![dir@]);
                    }
                    assert(r@.len() == ancestors(cwd@).len()) by {
                        assert(ancestors(cwd@) =~= done.push(dir@));
                    }
                    assert(forall|i: int| 0 <= i < r@.len() ==> #[trigger] r@[i]@ == join_path(ancestors(cwd@)[i], name@)) by {
                        assert(ancestors(cwd@) =~= done.push(dir@));
                    }
                    return r;
                }
                proof {
                    assert(ancestors(dir@) == seq![dir@] + ancestors(q@));
                    assert(done + ancestors(dir@) =~= done.push(dir@) + ancestors(q@));
                    done = done.push(dir@);
                }
                dir = q;
            },
            None => {
                proof {
                    assert(ancestors(cwd@) =~= done.push(dir@));
                }
                return r;
            },
        }
    }
}

} // verus!
