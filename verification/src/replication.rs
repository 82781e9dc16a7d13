//! The replication strategy: full copies of an object kept beside a primary
//! copy, the copies lost and made again from the primary.

use vstd::prelude::*;

verus! {

/// The copies after `count` more copies of the primary, the first of
/// `copies`, have been appended.
pub open spec fn replicated(copies: Seq<Seq<Seq<u8>>>, count: nat) -> Seq<Seq<Seq<u8>>> {
    copies + Seq::new(count, |i: int| copies[0])
}

/// The copies after the last `count` of them have been dropped.
pub open spec fn truncated(copies: Seq<Seq<Seq<u8>>>, count: nat) -> Seq<Seq<Seq<u8>>> {
    copies.take(copies.len() - count)
}

/// Dropping the copies that were appended gives back what was there.
pub proof fn lemma_truncated_replicated(copies: Seq<Seq<Seq<u8>>>, count: nat)
    ensures
        truncated(replicated(copies, count), count) == copies,
{
}

/// A primary alone makes a set of one. After `count` copies have been added
/// and the last `count` of the set have been lost, the primary alone is
/// left; after `count` copies have been added again, the set holds
/// `count + 1` copies, each equal to the primary.
pub proof fn lemma_loss_and_recovery(primary: Seq<Seq<u8>>, count: nat)
    ensures
        truncated(replicated(seq![primary], count), count) == seq![primary],
        truncated(replicated(seq![primary], count), count).len() == 1,
        replicated(truncated(replicated(seq![primary], count), count), count).len() == count + 1,
        forall|i: int|
            0 <= i <= count ==> #[trigger] replicated(
                truncated(replicated(seq![primary], count), count),
                count,
            )[i] == primary,
{
    lemma_truncated_replicated(seq![primary], count);
}

/// Makes a copy of an object, shard by shard.
pub fn copy_object(object: &Vec<Vec<u8>>) -> (copy: Vec<Vec<u8>>)
    ensures
        copy.deep_view() == object.deep_view(),
{
    let copy = object.clone();
    copy
}

/// An object under replication: a primary copy, and after it the replicas
/// that have been made of it and not lost.
pub struct ReplicaSet {
    copies: Vec<Vec<Vec<u8>>>,
}

impl ReplicaSet {
    /// The copies that the set holds, the primary first, each as its shards.
    pub closed spec fn copies(&self) -> Seq<Seq<Seq<u8>>> {
        self.copies.deep_view()
    }

    /// The primary copy.
    pub open spec fn primary(&self) -> Seq<Seq<u8>> {
        self.copies()[0]
    }

    /// The set is well formed: it holds its primary, and every replica is
    /// equal to it.
    pub open spec fn wf(&self) -> bool {
        &&& self.copies().len() > 0
        &&& forall|i: int| 0 <= i < self.copies().len() ==> (#[trigger] self.copies()[i])
            == self.primary()
    }

    /// A set that holds `primary` alone.
    pub fn new(primary: Vec<Vec<u8>>) -> (set: ReplicaSet)
        ensures
            set.wf(),
            set.copies() == seq![primary.deep_view()],
    {
        let mut copies: Vec<Vec<Vec<u8>>> = Vec::new();
        copies.push(primary);
        ReplicaSet { copies }
    }

    /// The number of copies, the primary included.
    pub fn len(&self) -> (count: usize)
        ensures
            count == self.copies().len(),
    {
        self.copies.len()
    }

    /// The copy at `index`, the primary being the copy at zero.
    pub fn copy(&self, index: usize) -> (copy: Vec<Vec<u8>>)
        requires
            index < self.copies().len(),
        ensures
            copy.deep_view() == self.copies()[index as int],
    {
        copy_object(&self.copies[index])
    }

    /// Appends one replica, copied from the primary.
    pub fn replicate(&mut self)
        requires
            old(self).wf(),
        ensures
            final(self).wf(),
            final(self).copies() == replicated(old(self).copies(), 1),
    {
        let ghost before = self.copies();
        let copy = copy_object(&self.copies[0]);
        self.copies.push(copy);
        assert(self.copies.deep_view() =~= replicated(before, 1));
    }

    /// Drops the last `count` replicas. The primary is never among them.
    pub fn lose(&mut self, count: usize)
        requires
            old(self).wf(),
            count < old(self).copies().len(),
        ensures
            final(self).wf(),
            final(self).copies() == truncated(old(self).copies(), count as nat),
    {
        let ghost before = self.copies();
        let kept = self.copies.len() - count;
        self.copies.truncate(kept);
        assert(self.copies.deep_view() =~= truncated(before, count as nat));
    }
}

} // verus!
