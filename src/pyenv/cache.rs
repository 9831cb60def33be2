//! Answers of the real `pyenv`, kept for the length of one run and keyed by
//! the exact argument vector, in two domains that are cleared by rule.
use vstd::prelude::*;

use crate::argv0::views;

verus! {

/// A domain of the cache.
#[derive(Debug, Clone, Copy, PartialEq, Eq, Structural)]
pub enum CacheType {
    /// Help texts and other answers that change only when `pyenv` does.
    Help,
    /// Answers that list the installed versions.
    Versions,
}

/// The domains that a change to domain `t` clears.
pub open spec fn invalidated(t: CacheType) -> Seq<CacheType> {
    match t {
        CacheType::Help => seq![CacheType::Help, CacheType::Versions],
        CacheType::Versions => seq![CacheType::Versions],
    }
}

impl CacheType {
    /// The domains that a change to this one clears: `Help` clears both,
    /// `Versions` only itself.
    pub fn invalidates(&self) -> (r: Vec<CacheType>)
        ensures
            r@ == invalidated(*self),
    {
        match self {
            CacheType::Help => vec![CacheType::Help, CacheType::Versions],
            CacheType::Versions => vec![CacheType::Versions],
        }
    }
}

/// What to do with the cache around a delegated command.
#[derive(Debug, Clone, Copy, PartialEq, Eq, Structural)]
pub enum CacheBehavior {
    /// Answer from the domain where the arguments were seen; else run and keep the answer.
    Cache(CacheType),
    /// Run, and leave the cache alone.
    Ignore,
    /// Clear the domains that this one invalidates, then run without keeping the answer.
    Invalidate(CacheType),
}

/// What a run of `pyenv` gave: its exit code and its two output streams.
#[derive(Debug)]
pub struct Output {
    pub status: i32,
    pub stdout: Vec<u8>,
    pub stderr: Vec<u8>,
}

impl View for Output {
    type V = (i32, Seq<u8>, Seq<u8>);

    open spec fn view(&self) -> (i32, Seq<u8>, Seq<u8>) {
        (self.status, self.stdout@, self.stderr@)
    }
}

fn copy_bytes(v: &Vec<u8>) -> (r: Vec<u8>)
    ensures
        r@ == v@,
{
    let mut r: Vec<u8> = Vec::new();
    let mut i: usize = 0;
    while i < v.len()
        invariant
            i <= v@.len(),
            r@ == v@.subrange(0, i as int),
        decreases v@.len() - i,
    {
        r.push(v[i]);
        i = i + 1;
        assert(r@ =~= v@.subrange(0, i as int));
    }
    assert(v@.subrange(0, i as int) =~= v@);
    r
}

impl Output {
    /// A copy, byte for byte.
    pub fn duplicate(&self) -> (r: Output)
        ensures
            r@ == self@,
    {
        Output {
            status: self.status,
            stdout: copy_bytes(&self.stdout),
            stderr: copy_bytes(&self.stderr),
        }
    }
}

/// One kept answer: the argument vector and what `pyenv` gave for it.
#[derive(Debug)]
pub struct CacheEntry {
    pub args: Vec<String>,
    pub output: Output,
}

/// A kept answer, as values.
pub type Record = (Seq<Seq<char>>, (i32, Seq<u8>, Seq<u8>));

impl View for CacheEntry {
    type V = Record;

    open spec fn view(&self) -> Record {
        (views(self.args@), self.output@)
    }
}

/// The cache, as values: the answers of each domain, oldest first.
pub struct CacheView {
    pub help: Seq<Record>,
    pub versions: Seq<Record>,
}

/// The answers kept in domain `t`.
pub open spec fn domain(c: CacheView, t: CacheType) -> Seq<Record> {
    match t {
        CacheType::Help => c.help,
        CacheType::Versions => c.versions,
    }
}

/// `c` with domain `t` replaced by `d`.
pub open spec fn with_domain(c: CacheView, t: CacheType, d: Seq<Record>) -> CacheView {
    match t {
        CacheType::Help => CacheView { help: d, versions: c.versions },
        CacheType::Versions => CacheView { help: c.help, versions: d },
    }
}

/// The answer kept for `key` among `records`: the first with that key.
pub open spec fn lookup(records: Seq<Record>, key: Seq<Seq<char>>) -> Option<
    (i32, Seq<u8>, Seq<u8>),
>
    decreases records.len(),
{
    if records.len() == 0 {
        None
    } else if records[0].0 == key {
        Some(records[0].1)
    } else {
        lookup(records.drop_first(), key)
    }
}

/// `c` with every domain that `t` invalidates emptied.
pub open spec fn cleared(c: CacheView, t: CacheType) -> CacheView {
    match t {
        CacheType::Help => CacheView { help: Seq::empty(), versions: Seq::empty() },
        CacheType::Versions => CacheView { help: c.help, versions: Seq::empty() },
    }
}

/// Before `pyenv` runs with arguments `key`: the cache afterwards, and the
/// kept answer to give instead of running, where there is one.
pub open spec fn before_run(c: CacheView, b: CacheBehavior, key: Seq<Seq<char>>) -> (
    CacheView,
    Option<(i32, Seq<u8>, Seq<u8>)>,
) {
    match b {
        CacheBehavior::Cache(t) => (c, lookup(domain(c, t), key)),
        CacheBehavior::Ignore => (c, None),
        CacheBehavior::Invalidate(t) => (cleared(c, t), None),
    }
}

/// After `pyenv` ran with arguments `key` and gave `out`: the cache afterwards.
pub open spec fn after_run(
    c: CacheView,
    b: CacheBehavior,
    key: Seq<Seq<char>>,
    out: (i32, Seq<u8>, Seq<u8>),
) -> CacheView {
    match b {
        CacheBehavior::Cache(t) => if lookup(domain(c, t), key) is None {
            with_domain(c, t, domain(c, t).push((key, out)))
        } else {
            c
        },
        _ => c,
    }
}

proof fn lemma_lookup_push(records: Seq<Record>, r: Record, key: Seq<Seq<char>>)
    ensures
        lookup(records.push(r), key) == if lookup(records, key) is Some {
            lookup(records, key)
        } else if r.0 == key {
            Some(r.1)
        } else {
            None
        },
    decreases records.len(),
{
    if records.len() > 0 {
        assert(records.push(r)[0] == records[0]);
        assert(records.push(r).drop_first() =~= records.drop_first().push(r));
        lemma_lookup_push(records.drop_first(), r, key);
    } else {
        assert(records.push(r)[0] == r);
        assert(records.push(r).drop_first() =~= Seq::<Record>::empty());
        assert(lookup(Seq::<Record>::empty(), key) is None);
    }
}

/// Two identical `Cache` calls run `pyenv` at most once: after the first
/// (which ran it only if nothing was kept, and kept what it gave), the second
/// finds an answer, the same as the first gave.
pub proof fn lemma_cache_idempotent(
    c: CacheView,
    t: CacheType,
    key: Seq<Seq<char>>,
    out: (i32, Seq<u8>, Seq<u8>),
)
    ensures
        ({
            let (c1, r1) = before_run(c, CacheBehavior::Cache(t), key);
            let c2 = match r1 {
                Some(_) => c1,
                None => after_run(c1, CacheBehavior::Cache(t), key, out),
            };
            let first = match r1 {
                Some(o) => o,
                None => out,
            };
            before_run(c2, CacheBehavior::Cache(t), key) == (c2, Some(first))
        }),
{
    lemma_lookup_push(domain(c, t), (key, out), key);
}

/// After an `Invalidate(t)` call, a `Cache` call in any domain that `t`
/// invalidates finds nothing kept, so `pyenv` runs afresh.
pub proof fn lemma_invalidate_then_miss(
    c: CacheView,
    t: CacheType,
    u: CacheType,
    key: Seq<Seq<char>>,
    out: (i32, Seq<u8>, Seq<u8>),
)
    requires
        invalidated(t).contains(u),
    ensures
        ({
            let c1 = after_run(before_run(c, CacheBehavior::Invalidate(t), key).0, CacheBehavior::Invalidate(t), key, out);
            before_run(c1, CacheBehavior::Cache(u), key).1 is None
        }),
{
    if t == CacheType::Versions {
        assert(invalidated(t)[0] == CacheType::Versions);
    }
}

/// No key is kept twice in one domain.
pub open spec fn unique_keys(records: Seq<Record>) -> bool {
    forall|i: int, j: int| 0 <= i < j < records.len() ==> records[i].0 != records[j].0
}

/// Each domain keeps each argument vector at most once.
pub open spec fn cache_wf(c: CacheView) -> bool {
    unique_keys(c.help) && unique_keys(c.versions)
}

proof fn lemma_lookup_none(records: Seq<Record>, key: Seq<Seq<char>>)
    requires
        lookup(records, key) is None,
    ensures
        forall|i: int| 0 <= i < records.len() ==> records[i].0 != key,
    decreases records.len(),
{
    if records.len() > 0 {
        lemma_lookup_none(records.drop_first(), key);
        assert forall|i: int| 0 <= i < records.len() implies records[i].0 != key by {
            if i > 0 {
                assert(records[i] == records.drop_first()[i - 1]);
            }
        }
    }
}

/// Running through the cache keeps each argument vector at most once per domain.
pub proof fn lemma_runs_keep_keys_unique(
    c: CacheView,
    b: CacheBehavior,
    key: Seq<Seq<char>>,
    out: (i32, Seq<u8>, Seq<u8>),
)
    requires
        cache_wf(c),
    ensures
        cache_wf(before_run(c, b, key).0),
        cache_wf(after_run(c, b, key, out)),
{
    if let CacheBehavior::Cache(t) = b {
        if lookup(domain(c, t), key) is None {
            lemma_lookup_none(domain(c, t), key);
            let d = domain(c, t).push((key, out));
            assert(unique_keys(d)) by {
                assert forall|i: int, j: int| 0 <= i < j < d.len() implies d[i].0 != d[j].0 by {
                    if j == d.len() - 1 {
                        assert(d[i] == domain(c, t)[i]);
                    } else {
                        assert(d[i] == domain(c, t)[i] && d[j] == domain(c, t)[j]);
                    }
                }
            }
        }
    }
}

/// The kept answers of one run.
#[derive(Debug)]
pub struct Cache {
    help: Vec<CacheEntry>,
    versions: Vec<CacheEntry>,
}

pub open spec fn records(entries: Seq<CacheEntry>) -> Seq<Record> {
    entries.map_values(|e: CacheEntry| e@)
}

/// Whether two argument vectors are the same, string by string.
fn same_args(a: &Vec<String>, b: &Vec<String>) -> (r: bool)
    ensures
        r == (views(a@) == views(b@)),
{
    if a.len() != b.len() {
        assert(views(a@).len() != views(b@).len());
        return false;
    }
    let mut i: usize = 0;
    while i < a.len()
        invariant
            a@.len() == b@.len(),
            i <= a@.len(),
            forall|k: int| 0 <= k < i ==> a@[k]@ == b@[k]@,
        decreases a@.len() - i,
    {
        if a[i] != b[i] {
            assert(views(a@)[i as int] != views(b@)[i as int]);
            return false;
        }
        i = i + 1;
    }
    assert(views(a@) =~= views(b@));
    true
}

impl View for Cache {
    type V = CacheView;

    closed spec fn view(&self) -> CacheView {
        CacheView { help: records(self.help@), versions: records(self.versions@) }
    }
}

impl Cache {
    /// An empty cache.
    pub fn new() -> (r: Self)
        ensures
            r@.help == Seq::<Record>::empty(),
            r@.versions == Seq::<Record>::empty(),
            cache_wf(r@),
    {
        let r = Cache { help: Vec::new(), versions: Vec::new() };
        assert(r@.help =~= Seq::<Record>::empty());
        assert(r@.versions =~= Seq::<Record>::empty());
        r
    }

    fn cache_for(&self, t: &CacheType) -> (r: &Vec<CacheEntry>)
        ensures
            records(r@) == domain(self@, *t),
    {
        match t {
            CacheType::Help => &self.help,
            CacheType::Versions => &self.versions,
        }
    }

    /// The answer kept in domain `t` for `args`.
    pub fn get(&self, t: &CacheType, args: &Vec<String>) -> (r: Option<Output>)
        ensures
            match r {
                Some(o) => lookup(domain(self@, *t), views(args@)) == Some(o@),
                None => lookup(domain(self@, *t), views(args@)) is None,
            },
    {
        let entries = self.cache_for(t);
        let ghost all = records(entries@);
        let n = entries.len();
        let mut i: usize = 0;
        assert(all.subrange(0, n as int) =~= all);
        while i < n
            invariant
                n == entries@.len(),
                all == records(entries@),
                domain(self@, *t) == all,
                i <= n,
                lookup(all, views(args@)) == lookup(all.subrange(i as int, n as int), views(args@)),
            decreases n - i,
        {
            let e = &entries[i];
            assert(all[i as int] == e@);
            assert(all.subrange(i as int, n as int)[0] == e@);
            if same_args(&e.args, args) {
                let o = e.output.duplicate();
                assert(all.subrange(i as int, n as int)[0].0 == views(args@));
                return Some(o);
            }
            assert(all.subrange(i as int, n as int).drop_first() =~= all.subrange(
                i + 1,
                n as int,
            ));
            i = i + 1;
        }
        assert(all.subrange(i as int, n as int).len() == 0);
        None
    }

    /// Keeps `output` for `args` in domain `t`, where nothing is kept for
    /// `args` there yet.
    pub fn insert(&mut self, t: &CacheType, args: &Vec<String>, output: &Output)
        requires
            cache_wf(old(self)@),
        ensures
            final(self)@ == after_run(old(self)@, CacheBehavior::Cache(*t), views(args@), output@),
            cache_wf(final(self)@),
    {
        proof {
            lemma_runs_keep_keys_unique(self@, CacheBehavior::Cache(*t), views(args@), output@);
        }
        if self.get(t, args).is_none() {
            self.push_entry(t, args, output);
        }
    }

    /// Keeps `output` for `args` in domain `t`, after the answers there.
    fn push_entry(&mut self, t: &CacheType, args: &Vec<String>, output: &Output)
        ensures
            final(self)@ == with_domain(
                old(self)@,
                *t,
                domain(old(self)@, *t).push((views(args@), output@)),
            ),
    {
        let mut copy: Vec<String> = Vec::new();
        let mut i: usize = 0;
        while i < args.len()
            invariant
                i <= args@.len(),
                views(copy@) == views(args@.subrange(0, i as int)),
            decreases args@.len() - i,
        {
            let ghost before = copy@;
            copy.push(args[i].clone());
            i = i + 1;
            assert(views(copy@) =~= views(before).push(args@[i - 1]@));
            assert(views(args@.subrange(0, i as int)) =~= views(args@.subrange(0, i - 1)).push(
                args@[i - 1]@,
            ));
        }
        assert(args@.subrange(0, i as int) =~= args@);
        let entry = CacheEntry { args: copy, output: output.duplicate() };
        match t {
            CacheType::Help => {
                let ghost before = self.help@;
                self.help.push(entry);
                assert(records(self.help@) =~= records(before).push(entry@));
            },
            CacheType::Versions => {
                let ghost before = self.versions@;
                self.versions.push(entry);
                assert(records(self.versions@) =~= records(before).push(entry@));
            },
        }
    }

    /// Empties domain `t` alone.
    fn invalidate_only(&mut self, t: &CacheType)
        ensures
            final(self)@ == with_domain(old(self)@, *t, Seq::empty()),
    {
        match t {
            CacheType::Help => {
                self.help.clear();
                assert(records(self.help@) =~= Seq::<Record>::empty());
            },
            CacheType::Versions => {
                self.versions.clear();
                assert(records(self.versions@) =~= Seq::<Record>::empty());
            },
        }
    }

    /// Empties every domain that `t` invalidates.
    pub fn invalidate(&mut self, t: &CacheType)
        requires
            cache_wf(old(self)@),
        ensures
            final(self)@ == cleared(old(self)@, *t),
            cache_wf(final(self)@),
    {
        let kinds = t.invalidates();
        let mut i: usize = 0;
        while i < kinds.len()
            invariant
                kinds@ == invalidated(*t),
                i <= kinds@.len(),
                i == 0 ==> self@ == old(self)@,
                *t == CacheType::Help && i == 1 ==> self@ == with_domain(old(self)@, CacheType::Help, Seq::empty()),
                i == kinds@.len() ==> self@ == cleared(old(self)@, *t),
            decreases kinds@.len() - i,
        {
            self.invalidate_only(&kinds[i]);
            i = i + 1;
        }
    }
}

impl CacheBehavior {
    /// Before running `pyenv` with `args`: clears what this behaviour
    /// invalidates, and gives the kept answer where one may be used instead of
    /// running (`None`: run it).
    pub fn run(&self, cache: &mut Cache, args: &Vec<String>) -> (r: Option<Output>)
        requires
            cache_wf(old(cache)@),
        ensures
            cache_wf(final(cache)@),
            final(cache)@ == before_run(old(cache)@, *self, views(args@)).0,
            match r {
                Some(o) => before_run(old(cache)@, *self, views(args@)).1 == Some(o@),
                None => before_run(old(cache)@, *self, views(args@)).1 is None,
            },
    {
        proof {
            lemma_runs_keep_keys_unique(cache@, *self, views(args@), (0i32, Seq::empty(), Seq::empty()));
        }
        match self {
            CacheBehavior::Cache(t) => cache.get(t, args),
            CacheBehavior::Ignore => None,
            CacheBehavior::Invalidate(t) => {
                cache.invalidate(t);
                None
            },
        }
    }

    /// After running `pyenv` with `args`, which gave `output`: keeps it where
    /// this behaviour caches and nothing was kept yet, and hands it back.
    pub fn store(&self, cache: &mut Cache, args: &Vec<String>, output: Output) -> (r: Output)
        requires
            cache_wf(old(cache)@),
        ensures
            r == output,
            cache_wf(final(cache)@),
            final(cache)@ == after_run(old(cache)@, *self, views(args@), output@),
    {
        proof {
            lemma_runs_keep_keys_unique(cache@, *self, views(args@), output@);
        }
        if let CacheBehavior::Cache(t) = self {
            cache.insert(t, args, &output);
        }
        output
    }
}

} // verus!
