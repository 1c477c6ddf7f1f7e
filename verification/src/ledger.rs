//! The ledger: what the host owes an engine instance, as a mathematical
//! value, with the steps that change it and the laws that those steps obey.

use vstd::prelude::*;
use vstd::multiset::Multiset;
use vstd::multiset::lemma_multiset_empty_len;
use vstd::seq_lib::{to_multiset_build, to_multiset_len};
use crate::desc::ValueDesc;
use crate::handle::Ref;
use crate::value::Value;

verus! {

/// What the host owes one engine instance, as a mathematical value: the
/// instance's handle; for each value handle, how many references to it the
/// host owns; and for each backing handle, how many transfer buffers on it
/// the host has open.
pub struct Ledger {
    pub interface: u64,
    pub refs: Multiset<u64>,
    pub buffers: Multiset<u64>,
}

impl Ledger {
    /// The ledger of an instance from which the host has received nothing yet.
    pub open spec fn fresh(interface: u64) -> Ledger {
        Ledger { interface, refs: Multiset::empty(), buffers: Multiset::empty() }
    }

    /// Whether the host owns at least one reference to `value_ptr`.
    pub open spec fn owns(self, value_ptr: u64) -> bool {
        self.refs.count(value_ptr) > 0
    }

    /// Whether `r` is a reference into this instance that the host owns.
    pub open spec fn holds(self, r: Ref) -> bool {
        r.interface() == self.interface && self.owns(r.value_ptr())
    }

    /// Whether `value` may be passed to this instance: a value that lives in
    /// an engine's heap may go to that engine only.
    pub open spec fn accepts(self, value: Value) -> bool {
        value.inner_ref() matches Some(r) ==> r.interface() == self.interface
    }

    /// Whether the host owns the reference that `value` carries, if it
    /// carries one, as a reference into this instance.
    pub open spec fn holds_value(self, value: Value) -> bool {
        value.inner_ref() matches Some(r) ==> self.holds(*r)
    }

    /// The ledger after the host has come to own one more reference.
    pub open spec fn acquire(self, value_ptr: u64) -> Ledger {
        Ledger { refs: self.refs.insert(value_ptr), ..self }
    }

    /// The ledger after one reference has left the host's ownership.
    pub open spec fn release(self, value_ptr: u64) -> Ledger {
        Ledger { refs: self.refs.remove(value_ptr), ..self }
    }

    /// The ledger after a descriptor has come into the host's ownership.
    pub open spec fn acquire_desc(self, desc: ValueDesc) -> Ledger {
        match desc.owned_handle() {
            Some(value_ptr) => self.acquire(value_ptr),
            None => self,
        }
    }

    /// The ledger after a descriptor has left the host's ownership.
    pub open spec fn release_desc(self, desc: ValueDesc) -> Ledger {
        match desc.owned_handle() {
            Some(value_ptr) => self.release(value_ptr),
            None => self,
        }
    }

    /// Whether the host owns the reference that `desc` carries, if it carries
    /// one.
    pub open spec fn owns_desc(self, desc: ValueDesc) -> bool {
        desc.owned_handle() matches Some(value_ptr) ==> self.owns(value_ptr)
    }

    /// The ledger after a value has ended.
    pub open spec fn release_value(self, value: Value) -> Ledger {
        match value.owned_handle() {
            Some(value_ptr) => self.release(value_ptr),
            None => self,
        }
    }

    /// The ledger after the engine has answered one acquire after another
    /// with the handles in `acquired`, in that order.
    pub open spec fn acquire_all(self, acquired: Seq<u64>) -> Ledger
        decreases acquired.len(),
    {
        if acquired.len() == 0 {
            self
        } else {
            self.acquire_all(acquired.drop_last()).acquire(acquired.last())
        }
    }

    /// The ledger after the references in `released` have ended one after
    /// another, in that order.
    pub open spec fn release_all(self, released: Seq<u64>) -> Ledger
        decreases released.len(),
    {
        if released.len() == 0 {
            self
        } else {
            self.release_all(released.drop_last()).release(released.last())
        }
    }

    /// Whether the references in `released` can end one after another, in
    /// that order: each is one that the host still owns when its turn comes.
    pub open spec fn can_release_all(self, released: Seq<u64>) -> bool
        decreases released.len(),
    {
        released.len() > 0 ==> self.can_release_all(released.drop_last()) && self.release_all(
            released.drop_last(),
        ).owns(released.last())
    }

    /// Whether the host has a transfer buffer open on the backing handle
    /// `src`.
    pub open spec fn has_buffer(self, src: u64) -> bool {
        self.buffers.count(src) > 0
    }

    /// The ledger after the engine has lent the host a transfer buffer.
    pub open spec fn open_buffer(self, src: u64) -> Ledger {
        Ledger { buffers: self.buffers.insert(src), ..self }
    }

    /// The ledger after a transfer buffer has gone back to the engine.
    pub open spec fn close_buffer(self, src: u64) -> Ledger {
        Ledger { buffers: self.buffers.remove(src), ..self }
    }
}

/// Acquires add up: after them the host owns what it owned and the acquired
/// handles besides.
pub proof fn lemma_acquire_all(ledger: Ledger, acquired: Seq<u64>)
    ensures
        ledger.acquire_all(acquired) == (Ledger {
            refs: ledger.refs.add(acquired.to_multiset()),
            ..ledger
        }),
    decreases acquired.len(),
{
    if acquired.len() == 0 {
        lemma_no_entries(acquired);
        assert(ledger.refs.add(acquired.to_multiset()) =~= ledger.refs);
    } else {
        let front = acquired.drop_last();
        lemma_acquire_all(ledger, front);
        to_multiset_build(front, acquired.last());
        assert(front.push(acquired.last()) =~= acquired);
        assert(ledger.refs.add(front.to_multiset()).insert(acquired.last())
            =~= ledger.refs.add(acquired.to_multiset()));
    }
}

/// References that the host owns can end in any order, and what is left is
/// what it owned less those references.
pub proof fn lemma_release_all(ledger: Ledger, released: Seq<u64>)
    requires
        released.to_multiset().subset_of(ledger.refs),
    ensures
        ledger.can_release_all(released),
        ledger.release_all(released) == (Ledger {
            refs: ledger.refs.sub(released.to_multiset()),
            ..ledger
        }),
    decreases released.len(),
{
    if released.len() == 0 {
        lemma_no_entries(released);
        assert(ledger.refs.sub(released.to_multiset()) =~= ledger.refs);
    } else {
        let front = released.drop_last();
        let last = released.last();
        to_multiset_build(front, last);
        assert(front.push(last) =~= released);
        assert(front.to_multiset().subset_of(ledger.refs)) by {
            assert forall|h: u64| front.to_multiset().count(h) <= ledger.refs.count(h) by {
                assert(front.to_multiset().count(h) <= released.to_multiset().count(h));
            }
        }
        lemma_release_all(ledger, front);
        assert(ledger.refs.sub(front.to_multiset()).count(last) > 0) by {
            assert(released.to_multiset().count(last) == front.to_multiset().count(last) + 1);
            assert(released.to_multiset().count(last) <= ledger.refs.count(last));
        }
        assert(ledger.refs.sub(front.to_multiset()).remove(last) =~= ledger.refs.sub(
            released.to_multiset(),
        ));
    }
}

/// Every reference ends in exactly one release. Let the host own a reference
/// `first` and clone it any number of times, the engine answering with the
/// handles in `clones`. Then the references it has to end are those clones and
/// `first`, and in whatever order `drops` they end, each release finds its
/// reference still owned, there are as many releases as there are clones and
/// one more, and afterwards the host owns what it owned before less `first`:
/// nothing is left over and nothing else is touched.
pub proof fn lemma_clones_and_drops_balance(
    ledger: Ledger,
    first: u64,
    clones: Seq<u64>,
    drops: Seq<u64>,
)
    requires
        ledger.owns(first),
        drops.to_multiset() == clones.push(first).to_multiset(),
    ensures
        drops.len() == clones.len() + 1,
        ledger.acquire_all(clones).refs.len() == ledger.refs.len() + clones.len(),
        ledger.acquire_all(clones).can_release_all(drops),
        ledger.acquire_all(clones).release_all(drops) == ledger.release(first),
        ledger.release(first).refs.len() == ledger.refs.len() - 1,
{
    let grown = ledger.acquire_all(clones);
    lemma_acquire_all(ledger, clones);
    to_multiset_build(clones, first);
    to_multiset_len(clones);
    to_multiset_len(drops);
    to_multiset_len(clones.push(first));
    assert(drops.to_multiset().subset_of(grown.refs)) by {
        assert forall|h: u64| drops.to_multiset().count(h) <= grown.refs.count(h) by {
            assert(drops.to_multiset().count(h) == clones.to_multiset().insert(first).count(h));
        }
    }
    lemma_release_all(grown, drops);
    assert(grown.refs.sub(drops.to_multiset()) =~= ledger.refs.remove(first));
}

/// A value that lives in one instance is accepted by no instance with another
/// handle.
pub proof fn lemma_foreign_value_not_accepted(home: Ledger, other: Ledger, value: Value)
    requires
        value.inner_ref() is Some,
        home.accepts(value),
        other.interface != home.interface,
    ensures
        !other.accepts(value),
        !other.holds_value(value),
{
}

/// A transfer buffer that is read and released leaves no trace: the ledger
/// is what it was, so that no other buffer and no reference is affected.
pub proof fn lemma_buffer_leaves_no_trace(ledger: Ledger, src: u64)
    ensures
        ledger.open_buffer(src).has_buffer(src),
        ledger.open_buffer(src).refs == ledger.refs,
        ledger.open_buffer(src).close_buffer(src) == ledger,
{
    assert(ledger.buffers.insert(src).remove(src) =~= ledger.buffers);
}

/// A sequence without entries is the empty multiset.
pub(crate) proof fn lemma_no_entries(s: Seq<u64>)
    requires
        s.len() == 0,
    ensures
        s.to_multiset() =~= Multiset::empty(),
{
    to_multiset_len(s);
    lemma_multiset_empty_len(s.to_multiset());
}

} // verus!
