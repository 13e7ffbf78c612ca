//! Identity and lifecycle bookkeeping of cached per-pane activity instances.
//!
//! The bookkeeping is independent of rendering: the instance type is the
//! host's, and eviction is decided by a host predicate over cache keys.

use vstd::prelude::*;

use crate::ids::{same_text, ActivityId, PaneId, WorkspaceId};

verus! {

/// Stable namespace for a cached per-pane activity.
#[derive(Clone, Debug, PartialEq, Eq, Hash)]
pub struct ActivityCacheKey {
    /// The workspace namespace, or `None` for panes outside a workspace.
    pub workspace: Option<WorkspaceId>,
    /// The pane that owns the cached instance.
    pub pane: PaneId,
    /// The activity definition instantiated in the pane.
    pub activity: ActivityId,
}

impl View for ActivityCacheKey {
    type V = (Option<Seq<char>>, Seq<char>, Seq<char>);

    open spec fn view(&self) -> (Option<Seq<char>>, Seq<char>, Seq<char>) {
        (
            match self.workspace {
                Some(w) => Some(w@),
                None => None,
            },
            self.pane@,
            self.activity@,
        )
    }
}

impl ActivityCacheKey {
    /// Creates a key from all identity scopes that determine an instance's lifetime.
    pub fn new(workspace: Option<WorkspaceId>, pane: PaneId, activity: ActivityId) -> (r: Self)
        ensures
            r.workspace == workspace,
            r.pane == pane,
            r.activity == activity,
    {
        ActivityCacheKey { workspace, pane, activity }
    }

    /// Whether two keys name the same workspace, pane and activity.
    pub fn same(&self, other: &ActivityCacheKey) -> (r: bool)
        ensures
            r == (self@ == other@),
    {
        let workspaces = match (&self.workspace, &other.workspace) {
            (Some(a), Some(b)) => same_text(&a.0, &b.0),
            (None, None) => true,
            _ => false,
        };
        workspaces && same_text(&self.pane.0, &other.pane.0) && same_text(&self.activity.0, &other.activity.0)
    }
}

/// A cached instance with the pane data it was last given.
pub struct CachedActivity<I, D> {
    /// The host's durable activity instance.
    pub instance: I,
    /// The pane data the instance last saw.
    pub data: D,
}

/// Per-pane activity instances keyed by workspace, pane and activity.
///
/// Each key is held at most once, in the order in which it was first inserted.
pub struct ActivityCache<I, D> {
    entries: Vec<(ActivityCacheKey, CachedActivity<I, D>)>,
}

/// Position of the first slot keyed `key`, or `-1`.
pub open spec fn slot_of<I, D>(s: Seq<(ActivityCacheKey, CachedActivity<I, D>)>, key: (
    Option<Seq<char>>,
    Seq<char>,
    Seq<char>,
)) -> int
    decreases s.len(),
{
    if s.len() == 0 {
        -1
    } else if slot_of(s.drop_last(), key) >= 0 {
        slot_of(s.drop_last(), key)
    } else if s.last().0@ == key {
        s.len() - 1
    } else {
        -1
    }
}

/// Whether no two slots share a key.
pub open spec fn keys_unique<I, D>(s: Seq<(ActivityCacheKey, CachedActivity<I, D>)>) -> bool {
    forall|a: int, b: int| 0 <= a < b < s.len() ==> (#[trigger] s[a]).0@ != (#[trigger] s[b]).0@
}

/// The slots whose verdict in `keep` equals `kept`, in order.
pub open spec fn sift<I, D>(s: Seq<(ActivityCacheKey, CachedActivity<I, D>)>, keep: Seq<bool>, kept: bool) -> Seq<
    (ActivityCacheKey, CachedActivity<I, D>),
>
    decreases s.len(),
{
    if s.len() == 0 {
        Seq::empty()
    } else if keep[s.len() - 1] == kept {
        sift(s.drop_last(), keep, kept).push(s.last())
    } else {
        sift(s.drop_last(), keep, kept)
    }
}

/// The instances held by a list of slots, in order.
pub open spec fn instances<I, D>(s: Seq<(ActivityCacheKey, CachedActivity<I, D>)>) -> Seq<I> {
    s.map_values(|e: (ActivityCacheKey, CachedActivity<I, D>)| e.1.instance)
}

proof fn lemma_slot_of<I, D>(s: Seq<(ActivityCacheKey, CachedActivity<I, D>)>, key: (
    Option<Seq<char>>,
    Seq<char>,
    Seq<char>,
), i: int)
    requires
        0 <= i <= s.len(),
        forall|k: int| 0 <= k < i ==> (#[trigger] s[k]).0@ != key,
    ensures
        i < s.len() && s[i].0@ == key ==> slot_of(s, key) == i,
        i == s.len() ==> slot_of(s, key) == -1,
    decreases s.len(),
{
    if s.len() > 0 {
        if i < s.len() {
            if i < s.len() - 1 {
                lemma_slot_of(s.drop_last(), key, i);
            } else {
                lemma_slot_of(s.drop_last(), key, i);
            }
        } else {
            lemma_slot_of(s.drop_last(), key, i - 1);
        }
    }
}

proof fn lemma_sift_unique<I, D>(s: Seq<(ActivityCacheKey, CachedActivity<I, D>)>, keep: Seq<bool>, kept: bool)
    requires
        keys_unique(s),
        keep.len() == s.len(),
    ensures
        keys_unique(sift(s, keep, kept)),
        forall|k: int|
            0 <= k < sift(s, keep, kept).len() ==> exists|j: int| 0 <= j < s.len() && #[trigger] sift(s, keep, kept)[k]
                == s[j],
    decreases s.len(),
{
    if s.len() > 0 {
        let p = s.drop_last();
        let kp = keep.take(p.len() as int);
        assert forall|k: int| 0 <= k < p.len() implies keep[k] == kp[k] by {}
        assert(sift(p, keep, kept) == sift(p, kp, kept)) by {
            lemma_sift_prefix(p, keep, kp, kept);
        }
        lemma_sift_unique(p, kp, kept);
        let r = sift(s, keep, kept);
        if keep[s.len() - 1] == kept {
            assert forall|k: int| 0 <= k < r.len() implies exists|j: int| 0 <= j < s.len() && #[trigger] r[k] == s[j] by {
                if k == r.len() - 1 {
                    assert(r[k] == s[s.len() - 1]);
                } else {
                    assert(r[k] == sift(p, kp, kept)[k]);
                    let j = choose|j: int| 0 <= j < p.len() && sift(p, kp, kept)[k] == p[j];
                    assert(r[k] == s[j]);
                }
            }
            assert forall|a: int, b: int| 0 <= a < b < r.len() implies (#[trigger] r[a]).0@ != (#[trigger] r[b]).0@ by {
                if b == r.len() - 1 {
                    assert(r[a] == sift(p, kp, kept)[a]);
                    let j = choose|j: int| 0 <= j < p.len() && sift(p, kp, kept)[a] == p[j];
                    assert(s[j] == r[a]);
                    assert(s[s.len() - 1] == r[b]);
                } else {
                    assert(r[a] == sift(p, kp, kept)[a]);
                    assert(r[b] == sift(p, kp, kept)[b]);
                }
            }
        } else {
            assert forall|k: int| 0 <= k < r.len() implies exists|j: int| 0 <= j < s.len() && #[trigger] r[k] == s[j] by {
                let j = choose|j: int| 0 <= j < p.len() && sift(p, kp, kept)[k] == p[j];
                assert(r[k] == s[j]);
            }
        }
    }
}

proof fn lemma_sift_prefix<I, D>(
    s: Seq<(ActivityCacheKey, CachedActivity<I, D>)>,
    keep: Seq<bool>,
    other: Seq<bool>,
    kept: bool,
)
    requires
        s.len() <= keep.len(),
        s.len() <= other.len(),
        forall|k: int| 0 <= k < s.len() ==> keep[k] == other[k],
    ensures
        sift(s, keep, kept) == sift(s, other, kept),
    decreases s.len(),
{
    if s.len() > 0 {
        lemma_sift_prefix(s.drop_last(), keep, other, kept);
    }
}

impl<I, D> ActivityCache<I, D> {
    /// The cache's slots, in first-insertion order.
    pub closed spec fn slots(&self) -> Seq<(ActivityCacheKey, CachedActivity<I, D>)> {
        self.entries@
    }

    /// An empty cache.
    pub fn new() -> (r: Self)
        ensures
            r.slots() == Seq::<(ActivityCacheKey, CachedActivity<I, D>)>::empty(),
    {
        ActivityCache { entries: Vec::new() }
    }

    /// The number of cached instances.
    pub fn len(&self) -> (r: usize)
        ensures
            r == self.slots().len(),
    {
        self.entries.len()
    }

    fn position(&self, key: &ActivityCacheKey) -> (r: Option<usize>)
        ensures
            match r {
                Some(i) => i < self.slots().len() && slot_of(self.slots(), key@) == i,
                None => slot_of(self.slots(), key@) == -1,
            },
    {
        let n = self.entries.len();
        for i in 0..n
            invariant
                n == self.slots().len(),
                forall|k: int| 0 <= k < i ==> (#[trigger] self.slots()[k]).0@ != key@,
        {
            if self.entries[i].0.same(key) {
                proof {
                    lemma_slot_of(self.slots(), key@, i as int);
                }
                return Some(i);
            }
        }
        proof {
            lemma_slot_of(self.slots(), key@, n as int);
        }
        None
    }

    /// The cached instance and data for `key`, if any.
    pub fn get(&self, key: &ActivityCacheKey) -> (r: Option<&CachedActivity<I, D>>)
        ensures
            slot_of(self.slots(), key@) == -1 ==> r is None,
            slot_of(self.slots(), key@) != -1 ==> r == Some(&self.slots()[slot_of(self.slots(), key@)].1),
    {
        match self.position(key) {
            Some(i) => Some(&self.entries[i].1),
            None => None,
        }
    }

    /// Caches `instance` with `data` under `key`, replacing in place any
    /// instance already cached under the same key.
    pub fn insert(&mut self, key: ActivityCacheKey, instance: I, data: D)
        ensures
            slot_of(old(self).slots(), key@) == -1 ==> final(self).slots() == old(self).slots().push(
                (key, CachedActivity { instance, data }),
            ),
            slot_of(old(self).slots(), key@) != -1 ==> final(self).slots() == old(self).slots().update(
                slot_of(old(self).slots(), key@),
                (key, CachedActivity { instance, data }),
            ),
            keys_unique(old(self).slots()) ==> keys_unique(final(self).slots()),
    {
        let ghost before = self.entries@;
        match self.position(&key) {
            Some(i) => {
                let ghost k = key@;
                self.entries.set(i, (key, CachedActivity { instance, data }));
                proof {
                    lemma_slot_key(before, k);
                    if keys_unique(before) {
                        assert forall|a: int, b: int| 0 <= a < b < self.entries@.len() implies (
                        #[trigger] self.entries@[a]).0@ != (#[trigger] self.entries@[b]).0@ by {
                            assert(before[i as int].0@ == self.entries@[i as int].0@);
                            if a != i && b != i {
                                assert(self.entries@[a] == before[a] && self.entries@[b] == before[b]);
                            } else if a == i {
                                assert(self.entries@[b] == before[b]);
                            } else {
                                assert(self.entries@[a] == before[a]);
                            }
                        }
                    }
                }
            },
            None => {
                let ghost k = key@;
                self.entries.push((key, CachedActivity { instance, data }));
                proof {
                    if keys_unique(before) {
                        assert forall|a: int, b: int| 0 <= a < b < self.entries@.len() implies (
                        #[trigger] self.entries@[a]).0@ != (#[trigger] self.entries@[b]).0@ by {
                            if b == before.len() {
                                assert(self.entries@[a] == before[a]);
                                if before[a].0@ == k {
                                    lemma_slot_absent(before, k, a);
                                }
                            } else {
                                assert(self.entries@[a] == before[a] && self.entries@[b] == before[b]);
                            }
                        }
                    }
                }
            },
        }
    }

    /// Removes every instance whose key `valid` rejects and returns them,
    /// each once, in cache order; instances whose key it accepts stay, in order.
    pub fn remove_invalid(&mut self, valid: impl Fn(&ActivityCacheKey) -> bool) -> (r: Vec<I>)
        requires
            forall|k: &ActivityCacheKey| #[trigger] valid.requires((k,)),
        ensures
            exists|keep: Seq<bool>|
                {
                    &&& keep.len() == old(self).slots().len()
                    &&& forall|i: int|
                        0 <= i < keep.len() ==> valid.ensures((&old(self).slots()[i].0,), #[trigger] keep[i])
                    &&& final(self).slots() == sift(old(self).slots(), keep, true)
                    &&& r@ == instances(sift(old(self).slots(), keep, false))
                },
            keys_unique(old(self).slots()) ==> keys_unique(final(self).slots()),
    {
        let mut rest: Vec<(ActivityCacheKey, CachedActivity<I, D>)> = Vec::new();
        std::mem::swap(&mut rest, &mut self.entries);
        let ghost all = rest@;
        let ghost mut keep: Seq<bool> = Seq::empty();
        let mut kept: Vec<(ActivityCacheKey, CachedActivity<I, D>)> = Vec::new();
        let mut removed: Vec<I> = Vec::new();
        let n = rest.len();
        let mut i: usize = 0;
        assert(all.take(0) =~= Seq::<(ActivityCacheKey, CachedActivity<I, D>)>::empty());
        assert(instances(Seq::<(ActivityCacheKey, CachedActivity<I, D>)>::empty()) =~= Seq::<I>::empty());
        assert(all.skip(0) =~= all);
        while i < n
            invariant
                n == all.len(),
                i <= n,
                rest@ == all.skip(i as int),
                keep.len() == i,
                forall|k: &ActivityCacheKey| #[trigger] valid.requires((k,)),
                forall|j: int| 0 <= j < i ==> valid.ensures((&all[j].0,), #[trigger] keep[j]),
                kept@ == sift(all.take(i as int), keep, true),
                removed@ == instances(sift(all.take(i as int), keep, false)),
            decreases n - i,
        {
            let entry = rest.remove(0);
            assert(entry == all[i as int]);
            assert(rest@ =~= all.skip(i + 1));
            let ok = valid(&entry.0);
            let ghost old_keep = keep;
            proof {
                keep = keep.push(ok);
                assert(all.take((i + 1) as int).drop_last() =~= all.take(i as int));
                assert(all.take((i + 1) as int).last() == entry);
                lemma_sift_prefix(all.take(i as int), old_keep, keep, true);
                lemma_sift_prefix(all.take(i as int), old_keep, keep, false);
            }
            if ok {
                kept.push(entry);
            } else {
                let ghost prev = removed@;
                let ghost e = entry;
                removed.push(entry.1.instance);
                proof {
                    let s = sift(all.take((i + 1) as int), keep, false);
                    assert(s == sift(all.take(i as int), keep, false).push(e));
                    assert(instances(s) =~= prev.push(e.1.instance));
                }
            }
            i = i + 1;
        }
        assert(all.take(n as int) =~= all);
        self.entries = kept;
        proof {
            if keys_unique(all) {
                lemma_sift_unique(all, keep, true);
            }
        }
        removed
    }

    /// Removes every instance and returns them, each once, in cache order.
    pub fn drain(&mut self) -> (r: Vec<I>)
        ensures
            r@ == instances(old(self).slots()),
            final(self).slots() == Seq::<(ActivityCacheKey, CachedActivity<I, D>)>::empty(),
    {
        self.remove_all()
    }

    fn remove_all(&mut self) -> (r: Vec<I>)
        ensures
            r@ == instances(old(self).slots()),
            final(self).slots() == Seq::<(ActivityCacheKey, CachedActivity<I, D>)>::empty(),
    {
        let mut rest: Vec<(ActivityCacheKey, CachedActivity<I, D>)> = Vec::new();
        std::mem::swap(&mut rest, &mut self.entries);
        let ghost all = rest@;
        let mut out: Vec<I> = Vec::new();
        let n = rest.len();
        let mut i: usize = 0;
        assert(all.skip(0) =~= all);
        assert(instances(all.take(0)) =~= Seq::<I>::empty());
        while i < n
            invariant
                n == all.len(),
                i <= n,
                rest@ == all.skip(i as int),
                out@ == instances(all.take(i as int)),
            decreases n - i,
        {
            let entry = rest.remove(0);
            assert(entry == all[i as int]);
            assert(rest@ =~= all.skip(i + 1));
            let ghost prev = out@;
            out.push(entry.1.instance);
            assert(out@ =~= instances(all.take((i + 1) as int)));
            i = i + 1;
        }
        assert(all.take(n as int) =~= all);
        out
    }
}

proof fn lemma_slot_key<I, D>(s: Seq<(ActivityCacheKey, CachedActivity<I, D>)>, key: (
    Option<Seq<char>>,
    Seq<char>,
    Seq<char>,
))
    ensures
        slot_of(s, key) != -1 ==> 0 <= slot_of(s, key) < s.len() && s[slot_of(s, key)].0@ == key,
        slot_of(s, key) >= -1,
    decreases s.len(),
{
    if s.len() > 0 {
        lemma_slot_key(s.drop_last(), key);
    }
}

proof fn lemma_slot_absent<I, D>(s: Seq<(ActivityCacheKey, CachedActivity<I, D>)>, key: (
    Option<Seq<char>>,
    Seq<char>,
    Seq<char>,
), a: int)
    requires
        0 <= a < s.len(),
        s[a].0@ == key,
    ensures
        slot_of(s, key) != -1,
    decreases s.len(),
{
    if a < s.len() - 1 {
        lemma_slot_absent(s.drop_last(), key, a);
    }
}

/// Eviction partitions the cache: every cached instance is either kept or
/// returned, exactly once, and every rejected key leaves the cache.
pub proof fn lemma_eviction_partitions<I, D>(s: Seq<(ActivityCacheKey, CachedActivity<I, D>)>, keep: Seq<bool>)
    requires
        keep.len() == s.len(),
    ensures
        sift(s, keep, true).len() + sift(s, keep, false).len() == s.len(),
        forall|k: int| 0 <= k < sift(s, keep, true).len() ==> exists|j: int|
            0 <= j < s.len() && keep[j] && #[trigger] sift(s, keep, true)[k] == s[j],
    decreases s.len(),
{
    if s.len() > 0 {
        let p = s.drop_last();
        lemma_sift_prefix(p, keep, keep.take(p.len() as int), true);
        lemma_sift_prefix(p, keep, keep.take(p.len() as int), false);
        lemma_eviction_partitions(p, keep.take(p.len() as int));
        let r = sift(s, keep, true);
        assert forall|k: int| 0 <= k < r.len() implies exists|j: int|
            0 <= j < s.len() && keep[j] && #[trigger] r[k] == s[j] by {
            if keep[s.len() - 1] && k == r.len() - 1 {
                assert(r[k] == s[s.len() - 1]);
            } else {
                assert(r[k] == sift(p, keep.take(p.len() as int), true)[k]);
                let j = choose|j: int|
                    0 <= j < p.len() && keep.take(p.len() as int)[j] && sift(p, keep.take(p.len() as int), true)[k]
                        == p[j];
                assert(r[k] == s[j]);
            }
        }
    }
}

impl<I, D> Default for ActivityCache<I, D> {
    /// An empty cache.
    fn default() -> (r: Self)
        ensures
            r.slots() == Seq::<(ActivityCacheKey, CachedActivity<I, D>)>::empty(),
    {
        ActivityCache::new()
    }
}

/// Position of the first registration for `id`, or `-1`.
pub open spec fn registration_of<F>(s: Seq<(ActivityId, F)>, id: Seq<char>) -> int
    decreases s.len(),
{
    if s.len() == 0 {
        -1
    } else if registration_of(s.drop_last(), id) >= 0 {
        registration_of(s.drop_last(), id)
    } else if s.last().0@ == id {
        s.len() - 1
    } else {
        -1
    }
}

proof fn lemma_registration_of<F>(s: Seq<(ActivityId, F)>, id: Seq<char>, i: int)
    requires
        0 <= i <= s.len(),
        forall|k: int| 0 <= k < i ==> (#[trigger] s[k]).0@ != id,
    ensures
        i < s.len() && s[i].0@ == id ==> registration_of(s, id) == i,
        i == s.len() ==> registration_of(s, id) == -1,
    decreases s.len(),
{
    if s.len() > 0 {
        if i < s.len() {
            lemma_registration_of(s.drop_last(), id, i);
        } else {
            lemma_registration_of(s.drop_last(), id, i - 1);
        }
    }
}

/// Stateful activity factories keyed by activity id; `F` is the host's
/// factory type. Each id is held at most once.
pub struct ActivityFactoryRegistry<F> {
    factories: Vec<(ActivityId, F)>,
}

impl<F> ActivityFactoryRegistry<F> {
    /// The registrations, in first-registration order.
    pub closed spec fn registrations(&self) -> Seq<(ActivityId, F)> {
        self.factories@
    }

    /// An empty registry.
    pub fn new() -> (r: Self)
        ensures
            r.registrations() == Seq::<(ActivityId, F)>::empty(),
    {
        ActivityFactoryRegistry { factories: Vec::new() }
    }

    fn position(&self, id: &ActivityId) -> (r: Option<usize>)
        ensures
            match r {
                Some(i) => i < self.registrations().len() && registration_of(self.registrations(), id@) == i,
                None => registration_of(self.registrations(), id@) == -1,
            },
    {
        let n = self.factories.len();
        for i in 0..n
            invariant
                n == self.registrations().len(),
                forall|k: int| 0 <= k < i ==> (#[trigger] self.registrations()[k]).0@ != id@,
        {
            if same_text(&self.factories[i].0.0, &id.0) {
                proof {
                    lemma_registration_of(self.registrations(), id@, i as int);
                }
                return Some(i);
            }
        }
        proof {
            lemma_registration_of(self.registrations(), id@, n as int);
        }
        None
    }

    /// Registers the factory for `id`, returning the factory it replaces.
    /// A replaced registration keeps its position.
    pub fn register(&mut self, id: ActivityId, factory: F) -> (r: Option<F>)
        ensures
            registration_of(old(self).registrations(), id@) == -1 ==> r is None && final(self).registrations()
                == old(self).registrations().push((id, factory)),
            registration_of(old(self).registrations(), id@) != -1 ==> r == Some(
                old(self).registrations()[registration_of(old(self).registrations(), id@)].1,
            ) && final(self).registrations() == old(self).registrations().update(
                registration_of(old(self).registrations(), id@),
                (id, factory),
            ),
    {
        match self.position(&id) {
            Some(i) => {
                let mut entry = (id, factory);
                self.factories.set_and_swap(i, &mut entry);
                Some(entry.1)
            },
            None => {
                self.factories.push((id, factory));
                None
            },
        }
    }

    /// Registers a factory and returns the registry.
    pub fn with_factory(self, id: ActivityId, factory: F) -> (r: Self)
        ensures
            registration_of(self.registrations(), id@) == -1 ==> r.registrations() == self.registrations().push(
                (id, factory),
            ),
            registration_of(self.registrations(), id@) != -1 ==> r.registrations()
                == self.registrations().update(registration_of(self.registrations(), id@), (id, factory)),
    {
        let mut r = self;
        r.register(id, factory);
        r
    }

    /// The factory used for future instances of `id`, if one is registered.
    pub fn get(&self, id: &ActivityId) -> (r: Option<&F>)
        ensures
            registration_of(self.registrations(), id@) == -1 ==> r is None,
            registration_of(self.registrations(), id@) != -1 ==> r == Some(
                &self.registrations()[registration_of(self.registrations(), id@)].1,
            ),
    {
        match self.position(id) {
            Some(i) => Some(&self.factories[i].1),
            None => None,
        }
    }

    /// Whether `id` has a factory registered.
    pub fn contains(&self, id: &ActivityId) -> (r: bool)
        ensures
            r == (registration_of(self.registrations(), id@) != -1),
    {
        self.position(id).is_some()
    }

    /// Stops using the factory for `id` and returns it.
    pub fn unregister(&mut self, id: &ActivityId) -> (r: Option<F>)
        ensures
            registration_of(old(self).registrations(), id@) == -1 ==> r is None && final(self).registrations()
                == old(self).registrations(),
            registration_of(old(self).registrations(), id@) != -1 ==> r == Some(
                old(self).registrations()[registration_of(old(self).registrations(), id@)].1,
            ) && final(self).registrations() == old(self).registrations().remove(
                registration_of(old(self).registrations(), id@),
            ),
    {
        match self.position(id) {
            Some(i) => Some(self.factories.remove(i).1),
            None => None,
        }
    }
}

impl<F> Default for ActivityFactoryRegistry<F> {
    /// An empty registry.
    fn default() -> (r: Self)
        ensures
            r.registrations() == Seq::<(ActivityId, F)>::empty(),
    {
        ActivityFactoryRegistry::new()
    }
}

} // verus!
