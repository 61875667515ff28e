use vstd::prelude::*;

use crate::ids::AccountId;
use crate::ids::InstanceHandle;

verus! {

/// Records, for each caller, the address of the contract instance that the
/// caller most recently deployed through the factory. A caller has at most
/// one entry; a later successful instantiation by the same caller overwrites
/// the entry, and entries are never removed.
pub struct InstanceDirectory {
    entries: Vec<(AccountId, InstanceHandle)>,
}

/// The mapping described by a sequence of directory entries. Entries are
/// read in order, so if a caller appeared more than once the later entry
/// would win; the directory keeps callers unique, so each entry is the
/// caller's only one.
spec fn map_of(s: Seq<(AccountId, InstanceHandle)>) -> Map<AccountId, InstanceHandle>
    decreases s.len(),
{
    if s.len() == 0 {
        Map::empty()
    } else {
        map_of(s.drop_last()).insert(s.last().0, s.last().1)
    }
}

/// No caller appears in two entries.
spec fn unique_keys(s: Seq<(AccountId, InstanceHandle)>) -> bool {
    forall|i: int, j: int|
        0 <= i < j < s.len() ==> (#[trigger] s[i]).0 != (#[trigger] s[j]).0
}

proof fn lemma_unique_keys_drop_last(s: Seq<(AccountId, InstanceHandle)>)
    requires
        s.len() > 0,
        unique_keys(s),
    ensures
        unique_keys(s.drop_last()),
{
    assert forall|i: int, j: int|
        0 <= i < j < s.drop_last().len() implies (#[trigger] s.drop_last()[i]).0 != (
    #[trigger] s.drop_last()[j]).0 by {
        assert(s.drop_last()[i] == s[i]);
        assert(s.drop_last()[j] == s[j]);
    }
}

/// A caller that appears in no entry is not in the mapping.
proof fn lemma_map_of_no_key(s: Seq<(AccountId, InstanceHandle)>, k: AccountId)
    requires
        forall|i: int| 0 <= i < s.len() ==> (#[trigger] s[i]).0 != k,
    ensures
        !map_of(s).contains_key(k),
    decreases s.len(),
{
    if s.len() > 0 {
        assert forall|i: int|
            0 <= i < s.drop_last().len() implies (#[trigger] s.drop_last()[i]).0 != k by {
            assert(s.drop_last()[i] == s[i]);
        }
        lemma_map_of_no_key(s.drop_last(), k);
        assert(s.last() == s[s.len() - 1]);
    }
}

/// With unique callers, the entry at any index gives that caller's value in
/// the mapping.
proof fn lemma_map_of_match(s: Seq<(AccountId, InstanceHandle)>, i: int)
    requires
        unique_keys(s),
        0 <= i < s.len(),
    ensures
        map_of(s).contains_key(s[i].0),
        map_of(s)[s[i].0] == s[i].1,
    decreases s.len(),
{
    if i == s.len() - 1 {
        assert(s.last() == s[i]);
    } else {
        lemma_unique_keys_drop_last(s);
        assert(s.drop_last()[i] == s[i]);
        lemma_map_of_match(s.drop_last(), i);
        assert(s.last() == s[s.len() - 1]);
        assert(s[s.len() - 1].0 != s[i].0);
    }
}

/// Replacing the entry at index `i` by one for the same caller updates the
/// mapping at that caller alone.
proof fn lemma_map_of_update(
    s: Seq<(AccountId, InstanceHandle)>,
    i: int,
    p: (AccountId, InstanceHandle),
)
    requires
        unique_keys(s),
        0 <= i < s.len(),
        p.0 == s[i].0,
    ensures
        map_of(s.update(i, p)) == map_of(s).insert(p.0, p.1),
    decreases s.len(),
{
    let t = s.update(i, p);
    if i == s.len() - 1 {
        assert(t.drop_last() =~= s.drop_last());
        assert(t.last() == p);
        assert(map_of(t) =~= map_of(s).insert(p.0, p.1));
    } else {
        lemma_unique_keys_drop_last(s);
        assert(t.drop_last() =~= s.drop_last().update(i, p));
        assert(s.drop_last()[i] == s[i]);
        lemma_map_of_update(s.drop_last(), i, p);
        assert(t.last() == s.last());
        assert(s.last() == s[s.len() - 1]);
        assert(s[s.len() - 1].0 != s[i].0);
        assert(map_of(t) =~= map_of(s).insert(p.0, p.1));
    }
}

proof fn lemma_unique_keys_update(
    s: Seq<(AccountId, InstanceHandle)>,
    i: int,
    p: (AccountId, InstanceHandle),
)
    requires
        unique_keys(s),
        0 <= i < s.len(),
        p.0 == s[i].0,
    ensures
        unique_keys(s.update(i, p)),
{
    let t = s.update(i, p);
    assert forall|x: int, y: int|
        0 <= x < y < t.len() implies (#[trigger] t[x]).0 != (#[trigger] t[y]).0 by {
        assert(x != i ==> t[x] == s[x]);
        assert(y != i ==> t[y] == s[y]);
    }
}

impl InstanceDirectory {
    /// Each caller has at most one entry.
    pub closed spec fn wf(&self) -> bool {
        unique_keys(self.entries@)
    }

    /// An empty directory: no caller has deployed anything yet.
    pub fn new() -> (r: Self)
        ensures
            r.wf(),
            r@ == Map::<AccountId, InstanceHandle>::empty(),
    {
        let r = InstanceDirectory { entries: Vec::new() };
        proof {
            assert(r@ =~= Map::<AccountId, InstanceHandle>::empty());
        }
        r
    }

    /// Creates or overwrites the entry for `caller`, recording `handle` as
    /// the instance that caller most recently deployed.
    pub fn insert(&mut self, caller: AccountId, handle: InstanceHandle)
        requires
            old(self).wf(),
        ensures
            final(self).wf(),
            final(self)@ == old(self)@.insert(caller, handle),
    {
        let n = self.entries.len();
        let mut i: usize = 0;
        while i < n
            invariant
                n == self.entries.len(),
                self.entries@ == old(self).entries@,
                self.wf(),
                i <= n,
                forall|j: int| 0 <= j < i ==> (#[trigger] self.entries@[j]).0 != caller,
            decreases n - i,
        {
            if self.entries[i].0 == caller {
                proof {
                    lemma_map_of_update(self.entries@, i as int, (caller, handle));
                    lemma_unique_keys_update(self.entries@, i as int, (caller, handle));
                }
                self.entries[i] = (caller, handle);
                return;
            }
            i = i + 1;
        }
        proof {
            lemma_unique_keys_push(self.entries@, (caller, handle));
        }
        self.entries.push((caller, handle));
        proof {
            assert(self.entries@.drop_last() =~= old(self).entries@);
        }
    }

    /// The instance most recently recorded for `caller`, if any.
    pub fn get(&self, caller: AccountId) -> (r: Option<InstanceHandle>)
        requires
            self.wf(),
        ensures
            r == if self@.contains_key(caller) {
                Some(self@[caller])
            } else {
                None::<InstanceHandle>
            },
    {
        let n = self.entries.len();
        let mut i: usize = 0;
        while i < n
            invariant
                n == self.entries.len(),
                i <= n,
                self.wf(),
                forall|j: int| 0 <= j < i ==> (#[trigger] self.entries@[j]).0 != caller,
            decreases n - i,
        {
            if self.entries[i].0 == caller {
                proof {
                    lemma_map_of_match(self.entries@, i as int);
                }
                return Some(self.entries[i].1);
            }
            i = i + 1;
        }
        proof {
            lemma_map_of_no_key(self.entries@, caller);
        }
        None
    }
}

proof fn lemma_unique_keys_push(s: Seq<(AccountId, InstanceHandle)>, p: (AccountId, InstanceHandle))
    requires
        unique_keys(s),
        forall|i: int| 0 <= i < s.len() ==> (#[trigger] s[i]).0 != p.0,
    ensures
        unique_keys(s.push(p)),
{
    let t = s.push(p);
    assert forall|x: int, y: int|
        0 <= x < y < t.len() implies (#[trigger] t[x]).0 != (#[trigger] t[y]).0 by {
        assert(x < s.len() ==> t[x] == s[x]);
        assert(y < s.len() ==> t[y] == s[y]);
        assert(y == s.len() ==> t[y] == p);
    }
}

impl View for InstanceDirectory {
    type V = Map<AccountId, InstanceHandle>;

    closed spec fn view(&self) -> Map<AccountId, InstanceHandle> {
        map_of(self.entries@)
    }
}

} // verus!
