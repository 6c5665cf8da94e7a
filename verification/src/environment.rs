//! The handle layer's record of one engine instance: an identity token and
//! the process-wide registry of handle identifiers owned by live handles.

use vstd::prelude::*;
use vstd::seq_lib::*;

verus! {

/// The mathematical content of an `Environment`: the identity of the engine
/// instance and the identifiers currently owned by live handles.
pub ghost struct EnvView {
    pub env_id: u64,
    pub dbis: Seq<u32>,
}

impl EnvView {
    /// The registry never holds an identifier twice: at any moment each open
    /// identifier is owned by exactly one live handle.
    pub open spec fn wf(self) -> bool {
        forall|i: int, j: int|
            0 <= i < j < self.dbis.len() ==> self.dbis[i] != self.dbis[j]
    }

    /// Whether `d` is currently owned by a live handle.
    pub open spec fn is_open(self, d: u32) -> bool {
        self.dbis.contains(d)
    }
}

/// One engine instance, as the handle layer sees it.
///
/// The registry of live identifiers is the only mutable shared state in this
/// layer. Every operation that touches it takes the environment by exclusive
/// borrow; that borrow plays the role of the registry mutex of an unverified
/// driver, and in particular serialises the engine's handle-open calls, which
/// must never run concurrently.
pub struct Environment {
    /// Identity of the underlying engine instance. Two `Environment` values
    /// stand for the same instance exactly when their identities are equal.
    pub env_id: u64,
    /// The identifiers currently owned by live handles, each at most once.
    pub dbis: Vec<u32>,
}

impl View for Environment {
    type V = EnvView;

    open spec fn view(&self) -> EnvView {
        EnvView { env_id: self.env_id, dbis: self.dbis@ }
    }
}

impl Environment {
    /// The handle layer's record of a fresh engine instance: the given
    /// identity, with no live handles yet.
    pub fn new(env_id: u64) -> (e: Environment)
        ensures
            e@.env_id == env_id,
            e@.dbis == Seq::<u32>::empty(),
            e@.wf(),
    {
        let e = Environment { env_id, dbis: Vec::new() };
        proof {
            assert(e@.dbis =~= Seq::<u32>::empty());
        }
        e
    }

    /// Whether `d` is currently owned by a live handle of this environment.
    pub fn contains_dbi(&self, d: u32) -> (r: bool)
        ensures
            r == self@.is_open(d),
    {
        let mut i: usize = 0;
        while i < self.dbis.len()
            invariant
                0 <= i <= self.dbis.len(),
                forall|j: int| 0 <= j < i ==> self.dbis@[j] != d,
            decreases self.dbis.len() - i,
        {
            if self.dbis[i] == d {
                proof {
                    assert(self.dbis@[i as int] == d);
                }
                return true;
            }
            i += 1;
        }
        proof {
            assert forall|j: int| 0 <= j < self.dbis@.len() implies self.dbis@[j] != d by {}
        }
        false
    }

    /// Strikes `d` from the registry: the identifier is no longer owned by a
    /// live handle, and the engine may hand the slot out again.
    pub(crate) fn forget_dbi(&mut self, d: u32)
        ensures
            final(self)@.env_id == old(self)@.env_id,
            final(self)@.dbis == old(self)@.dbis.remove_value(d),
    {
        let n = self.dbis.len();
        let mut i: usize = 0;
        while i < n
            invariant
                n == self.dbis.len(),
                self == old(self),
                0 <= i <= n,
                forall|j: int| 0 <= j < i ==> self.dbis@[j] != d,
            decreases n - i,
        {
            if self.dbis[i] == d {
                proof {
                    self.dbis@.index_of_first_ensures(d);
                    assert(self.dbis@.contains(d)) by {
                        assert(self.dbis@[i as int] == d);
                    }
                    let first = self.dbis@.index_of_first(d)->Some_0;
                    assert(first <= i) by {
                        assert(self.dbis@[i as int] == d);
                    }
                    assert(first == i);
                }
                self.dbis.remove(i);
                return;
            }
            i += 1;
        }
        proof {
            self.dbis@.index_of_first_ensures(d);
            assert(!self.dbis@.contains(d));
        }
    }
}

/// Removing an identifier from a duplicate-free registry removes exactly it:
/// the identifier is gone, every other identifier keeps its status, and the
/// registry stays duplicate-free.
pub proof fn lemma_remove_open(env: EnvView, d: u32)
    requires
        env.wf(),
    ensures
        ({
            let after = EnvView { env_id: env.env_id, dbis: env.dbis.remove_value(d) };
            &&& after.wf()
            &&& !after.is_open(d)
            &&& forall|x: u32| x != d ==> after.is_open(x) == env.is_open(x)
        }),
{
    let s = env.dbis;
    s.index_of_first_ensures(d);
    if s.contains(d) {
        let i = s.index_of_first(d)->Some_0;
        let t = s.remove(i);
        s.remove_ensures(i);
        let after = EnvView { env_id: env.env_id, dbis: t };
        assert(after.wf()) by {
            assert forall|k1: int, k2: int| 0 <= k1 < k2 < t.len() implies t[k1] != t[k2] by {
                let m1 = if k1 < i { k1 } else { k1 + 1 };
                let m2 = if k2 < i { k2 } else { k2 + 1 };
                assert(t[k1] == s[m1]);
                assert(t[k2] == s[m2]);
            }
        }
        assert(!after.is_open(d)) by {
            assert forall|k: int| 0 <= k < t.len() implies t[k] != d by {
                let m = if k < i { k } else { k + 1 };
                assert(t[k] == s[m]);
                if k >= i {
                    assert(s[i] == d);
                }
            }
        }
        assert forall|x: u32| x != d implies after.is_open(x) == env.is_open(x) by {
            if t.contains(x) {
                let k = choose|k: int| 0 <= k < t.len() && t[k] == x;
                let m = if k < i { k } else { k + 1 };
                assert(t[k] == s[m]);
                assert(s.contains(x));
            }
            if s.contains(x) {
                let m = choose|m: int| 0 <= m < s.len() && s[m] == x;
                if m < i {
                    assert(t[m] == s[m]);
                } else {
                    assert(m != i);
                    assert(t[m - 1] == s[m]);
                }
                assert(t.contains(x));
            }
        }
    }
}

} // verus!
