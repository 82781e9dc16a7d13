//! The erasure-coding strategy: an object cut into data shards, parity shards
//! computed from them, shards lost at random and rebuilt from the survivors.

use crate::codec::all_present;
use crate::codec::codec_data_shards;
use crate::codec::codec_encode;
use crate::codec::codec_new;
use crate::codec::codec_parity_shards;
use crate::codec::codec_reconstruct;
use crate::codec::codec_verify;
use crate::codec::keeps_present;
use crate::codec::layout_error;
use crate::codec::present_count;
use crate::codec::present_same_length;
use crate::codec::reconstructible;
use crate::codec::rs_parity;
use crate::codec::rs_reconstructed;
use crate::codec::shape_error;
use crate::codec::Codec;
use crate::entropy::draw_below;
use rand::rngs::ThreadRng;
use reed_solomon_erasure::Error;
use vstd::prelude::*;

verus! {

/// Why the codec turned an operation down.
#[derive(Clone, Copy, Debug, PartialEq, Eq, Structural)]
pub enum CodecFault {
    /// Fewer shards were given than the codec has.
    TooFewShards,
    /// More shards were given than the codec has, or more than the field allows.
    TooManyShards,
    /// No data shard, or fewer data shards than the codec has.
    TooFewDataShards,
    /// More data shards than the codec has.
    TooManyDataShards,
    /// No parity shard, or fewer parity shards than the codec has.
    TooFewParityShards,
    /// More parity shards than the codec has.
    TooManyParityShards,
    /// Fewer buffer shards than the codec has parity shards.
    TooFewBufferShards,
    /// More buffer shards than the codec has parity shards.
    TooManyBufferShards,
    /// The shards are not all of one length.
    IncorrectShardSize,
    /// Fewer shards are present than there are data shards.
    TooFewShardsPresent,
    /// The first shard is empty.
    EmptyShard,
    /// The number of flags is not the number of shards.
    InvalidShardFlags,
    /// A shard index is out of range.
    InvalidIndex,
}

/// The fault that stands for an error of the codec.
pub open spec fn fault_of(e: Error) -> CodecFault {
    match e {
        Error::TooFewShards => CodecFault::TooFewShards,
        Error::TooManyShards => CodecFault::TooManyShards,
        Error::TooFewDataShards => CodecFault::TooFewDataShards,
        Error::TooManyDataShards => CodecFault::TooManyDataShards,
        Error::TooFewParityShards => CodecFault::TooFewParityShards,
        Error::TooManyParityShards => CodecFault::TooManyParityShards,
        Error::TooFewBufferShards => CodecFault::TooFewBufferShards,
        Error::TooManyBufferShards => CodecFault::TooManyBufferShards,
        Error::IncorrectShardSize => CodecFault::IncorrectShardSize,
        Error::TooFewShardsPresent => CodecFault::TooFewShardsPresent,
        Error::EmptyShard => CodecFault::EmptyShard,
        Error::InvalidShardFlags => CodecFault::InvalidShardFlags,
        Error::InvalidIndex => CodecFault::InvalidIndex,
    }
}

/// Turns an error of the codec into the fault that stands for it.
pub fn to_fault(e: Error) -> (fault: CodecFault)
    ensures
        fault == fault_of(e),
{
    match e {
        Error::TooFewShards => CodecFault::TooFewShards,
        Error::TooManyShards => CodecFault::TooManyShards,
        Error::TooFewDataShards => CodecFault::TooFewDataShards,
        Error::TooManyDataShards => CodecFault::TooManyDataShards,
        Error::TooFewParityShards => CodecFault::TooFewParityShards,
        Error::TooManyParityShards => CodecFault::TooManyParityShards,
        Error::TooFewBufferShards => CodecFault::TooFewBufferShards,
        Error::TooManyBufferShards => CodecFault::TooManyBufferShards,
        Error::IncorrectShardSize => CodecFault::IncorrectShardSize,
        Error::TooFewShardsPresent => CodecFault::TooFewShardsPresent,
        Error::EmptyShard => CodecFault::EmptyShard,
        Error::InvalidShardFlags => CodecFault::InvalidShardFlags,
        Error::InvalidIndex => CodecFault::InvalidIndex,
    }
}

/// The set of `count` shards of `size` bytes each in which every byte is zero.
pub open spec fn zero_set(count: nat, size: nat) -> Seq<Seq<u8>> {
    Seq::new(count, |i: int| Seq::new(size, |j: int| 0u8))
}

/// The shard set in which every shard of `full` is present.
pub open spec fn wrapped(full: Seq<Seq<u8>>) -> Seq<Option<Seq<u8>>> {
    Seq::new(full.len(), |i: int| Some(full[i]))
}

/// The shard set that encoding makes of `shards`: its first `data_shards`
/// shards, followed by their parity.
pub open spec fn encoded(data_shards: nat, parity_shards: nat, shards: Seq<Seq<u8>>) -> Seq<
    Seq<u8>,
> {
    shards.take(data_shards as int) + rs_parity(
        data_shards,
        parity_shards,
        shards.take(data_shards as int),
    )
}

/// The fault with which a codec of these shard counts turns `shards` down
/// for encoding, if any: first for the counts themselves, then for the number
/// of shards, then for their lengths.
pub open spec fn encode_fault(data_shards: nat, parity_shards: nat, shards: Seq<Seq<u8>>) -> Option<
    CodecFault,
> {
    match shape_error(data_shards, parity_shards) {
        Some(e) => Some(fault_of(e)),
        None => match layout_error(data_shards + parity_shards, shards) {
            Some(e) => Some(fault_of(e)),
            None => None,
        },
    }
}

/// A vector of bytes is its own deep view.
pub proof fn lemma_bytes_deep_view(v: Vec<u8>)
    ensures
        v.deep_view() == v@,
{
    assert(v.deep_view() =~= v@);
}

/// The shard set after the slots in `draws` have been marked as lost, one
/// after another. A slot may stand in `draws` more than once.
pub open spec fn erased(shards: Seq<Option<Seq<u8>>>, draws: Seq<usize>) -> Seq<Option<Seq<u8>>>
    decreases draws.len(),
{
    if draws.len() == 0 {
        shards
    } else {
        erased(shards, draws.drop_last()).update(draws.last() as int, None)
    }
}

/// Erasing one slot takes at most one shard away.
pub proof fn lemma_present_count_erase(shards: Seq<Option<Seq<u8>>>, index: int)
    requires
        0 <= index < shards.len(),
    ensures
        present_count(shards.update(index, None)) + 1 >= present_count(shards),
        present_count(shards.update(index, None)) <= present_count(shards),
    decreases shards.len(),
{
    let erased = shards.update(index, None);
    if index == shards.len() - 1 {
        assert(erased.drop_last() =~= shards.drop_last());
    } else {
        assert(erased.drop_last() =~= shards.drop_last().update(index, None));
        lemma_present_count_erase(shards.drop_last(), index);
    }
}

/// Slot `slot` stands among the slots drawn.
pub open spec fn drawn(draws: Seq<usize>, slot: int) -> bool {
    exists|k: int| 0 <= k < draws.len() && #[trigger] draws[k] == slot
}

/// Marking slots as lost keeps the number of slots, loses what stands in the
/// slots drawn and nothing else, and takes at most as many shards away as
/// there were draws.
pub proof fn lemma_erased(shards: Seq<Option<Seq<u8>>>, draws: Seq<usize>)
    requires
        forall|k: int| 0 <= k < draws.len() ==> (#[trigger] draws[k]) < shards.len(),
    ensures
        erased(shards, draws).len() == shards.len(),
        forall|i: int|
            0 <= i < shards.len() ==> (#[trigger] erased(shards, draws)[i]) == if drawn(draws, i) {
                None
            } else {
                shards[i]
            },
        present_count(erased(shards, draws)) + draws.len() >= present_count(shards),
        present_count(erased(shards, draws)) <= present_count(shards),
    decreases draws.len(),
{
    if draws.len() > 0 {
        let front = draws.drop_last();
        let last = draws.last();
        assert forall|k: int| 0 <= k < front.len() implies (#[trigger] front[k]) < shards.len() by {
            assert(front[k] == draws[k]);
        }
        lemma_erased(shards, front);
        lemma_present_count_erase(erased(shards, front), last as int);
        assert forall|i: int| 0 <= i < shards.len() implies (#[trigger] erased(shards, draws)[i])
            == if drawn(draws, i) {
            None
        } else {
            shards[i]
        } by {
            if drawn(front, i) {
                let k = choose|k: int| 0 <= k < front.len() && #[trigger] front[k] == i;
                assert(draws[k] == i);
            }
            if i == last {
                assert(draws[draws.len() - 1] == i);
            }
            if drawn(draws, i) {
                let k = choose|k: int| 0 <= k < draws.len() && #[trigger] draws[k] == i;
                if k < front.len() {
                    assert(front[k] == i);
                }
            }
        }
    }
}

/// No more shards are present than there are slots; where all are counted
/// present, each slot is filled; where one is counted present, some slot is
/// filled.
pub proof fn lemma_present_count_bounds(shards: Seq<Option<Seq<u8>>>)
    ensures
        present_count(shards) <= shards.len(),
        present_count(shards) == shards.len() <==> forall|i: int|
            0 <= i < shards.len() ==> (#[trigger] shards[i]) is Some,
        present_count(shards) > 0 ==> exists|i: int|
            0 <= i < shards.len() && (#[trigger] shards[i]) is Some,
    decreases shards.len(),
{
    if shards.len() > 0 {
        let front = shards.drop_last();
        lemma_present_count_bounds(front);
        assert(forall|i: int| 0 <= i < front.len() ==> front[i] == shards[i]);
        if present_count(shards) == shards.len() {
            assert(shards.last() is Some);
            assert(present_count(front) == front.len());
            assert forall|i: int| 0 <= i < shards.len() implies (#[trigger] shards[i]) is Some by {
                if i < front.len() {
                    assert(front[i] is Some);
                }
            }
        }
        if forall|i: int| 0 <= i < shards.len() ==> (#[trigger] shards[i]) is Some {
            assert(shards[shards.len() - 1] is Some);
            assert forall|i: int| 0 <= i < front.len() implies (#[trigger] front[i]) is Some by {
                assert(shards[i] is Some);
            }
        }
        if present_count(shards) > 0 {
            if shards.last() is Some {
                assert(shards[shards.len() - 1] is Some);
            } else {
                let i = choose|i: int| 0 <= i < front.len() && (#[trigger] front[i]) is Some;
                assert(shards[i] is Some);
            }
        }
    }
}

/// Where every shard is present, as many are present as there are shards.
pub proof fn lemma_present_count_wrapped(full: Seq<Seq<u8>>)
    ensures
        present_count(wrapped(full)) == full.len(),
{
    lemma_present_count_bounds(wrapped(full));
}

/// A full set of equally long shards from which no more slots are lost than
/// there are parity shards can be rebuilt: at least as many shards are left
/// as there are data shards, and each of them is the shard that it was.
pub proof fn lemma_losses_can_be_rebuilt(
    data_shards: nat,
    parity_shards: nat,
    full: Seq<Seq<u8>>,
    draws: Seq<usize>,
)
    requires
        layout_error(data_shards + parity_shards, full) is None,
        draws.len() <= parity_shards,
        forall|k: int| 0 <= k < draws.len() ==> (#[trigger] draws[k]) < full.len(),
    ensures
        reconstructible(data_shards, parity_shards, erased(wrapped(full), draws)),
        forall|i: int|
            0 <= i < full.len() && !drawn(draws, i) ==> (#[trigger] erased(wrapped(full), draws)[i])
                == Some(full[i]),
{
    let left = erased(wrapped(full), draws);
    lemma_erased(wrapped(full), draws);
    lemma_present_count_wrapped(full);
    assert forall|i: int| 0 <= i < left.len() && (#[trigger] left[i]) is Some implies left[i]->0
        == full[i] by {
        assert(wrapped(full)[i] == Some(full[i]));
    }
    assert(full[0].len() > 0);
}

/// Builds `count` shards of `size` zero bytes each.
pub fn zero_shards(count: usize, size: usize) -> (shards: Vec<Vec<u8>>)
    ensures
        shards.deep_view() == zero_set(count as nat, size as nat),
{
    let mut shards: Vec<Vec<u8>> = Vec::new();
    let mut made: usize = 0;
    assert(shards.deep_view() =~= zero_set(0, size as nat));
    while made < count
        invariant
            made <= count,
            shards.deep_view() == zero_set(made as nat, size as nat),
        decreases count - made,
    {
        let shard: Vec<u8> = vec![0u8; size];
        let ghost before = shards.deep_view();
        let ghost fresh = shard.deep_view();
        shards.push(shard);
        proof {
            assert(fresh =~= Seq::new(size as nat, |j: int| 0u8));
            assert(shards.deep_view() =~= before.push(fresh));
            assert(before.push(fresh) =~= zero_set((made + 1) as nat, size as nat));
        }
        made = made + 1;
    }
    shards
}

/// Tells whether two shards hold the same bytes.
pub fn same_bytes(a: &Vec<u8>, b: &Vec<u8>) -> (same: bool)
    ensures
        same == (a@ == b@),
{
    let same = *a == *b;
    proof {
        if same {
            assert(a@ =~= b@);
        }
    }
    same
}

/// Tells whether two shard sets hold the same shards in the same order.
pub fn same_shards(a: &Vec<Vec<u8>>, b: &Vec<Vec<u8>>) -> (same: bool)
    ensures
        same == (a.deep_view() == b.deep_view()),
{
    if a.len() != b.len() {
        assert(a.deep_view().len() != b.deep_view().len());
        return false;
    }
    let mut at: usize = 0;
    while at < a.len()
        invariant
            at <= a.len(),
            a.len() == b.len(),
            forall|k: int| 0 <= k < at ==> a.deep_view()[k] == b.deep_view()[k],
        decreases a.len() - at,
    {
        proof {
            lemma_bytes_deep_view(a@[at as int]);
            lemma_bytes_deep_view(b@[at as int]);
        }
        if !same_bytes(&a[at], &b[at]) {
            assert(a.deep_view()[at as int] != b.deep_view()[at as int]);
            return false;
        }
        at = at + 1;
    }
    assert(a.deep_view() =~= b.deep_view());
    true
}

/// One object under erasure coding: the encoded shard set as it was made, and
/// the working set from which shards are lost and into which they are rebuilt.
pub struct ErasureRun {
    codec: Codec,
    data_shards: usize,
    parity_shards: usize,
    original: Vec<Vec<u8>>,
    shards: Vec<Option<Vec<u8>>>,
}

impl ErasureRun {
    /// The number of data shards.
    pub closed spec fn data_shards(&self) -> nat {
        self.data_shards as nat
    }

    /// The number of parity shards.
    pub closed spec fn parity_shards(&self) -> nat {
        self.parity_shards as nat
    }

    /// The number of shards, data and parity together.
    pub open spec fn total_shards(&self) -> nat {
        self.data_shards() + self.parity_shards()
    }

    /// The encoded shard set as it was made.
    pub closed spec fn original(&self) -> Seq<Seq<u8>> {
        self.original.deep_view()
    }

    /// The working set: for each slot the shard in it, or `None` where it is
    /// lost.
    pub closed spec fn shards(&self) -> Seq<Option<Seq<u8>>> {
        self.shards.deep_view()
    }

    /// The length of each shard, in bytes.
    pub open spec fn shard_size(&self) -> nat {
        self.original()[0].len()
    }

    /// The codec is the one for the shard counts.
    pub closed spec fn codec_fits(&self) -> bool {
        &&& codec_data_shards(&self.codec) == self.data_shards
        &&& codec_parity_shards(&self.codec) == self.parity_shards
        &&& self.data_shards + self.parity_shards <= usize::MAX
    }

    /// The run is well formed: the shard counts are ones that a codec
    /// accepts, the original is a full set of equally long, non-empty shards
    /// whose parity shards are the parity of its data shards, and the working
    /// set has one slot for each of them, in which a shard, where present,
    /// has that length.
    pub open spec fn wf(&self) -> bool {
        &&& self.codec_fits()
        &&& shape_error(self.data_shards(), self.parity_shards()) is None
        &&& layout_error(self.total_shards(), self.original()) is None
        &&& self.original() == encoded(self.data_shards(), self.parity_shards(), self.original())
        &&& self.shards().len() == self.total_shards()
        &&& forall|i: int|
            0 <= i < self.total_shards() && (#[trigger] self.shards()[i]) is Some
                ==> self.shards()[i]->0.len() == self.shard_size()
    }

    /// Encodes `shards`: computes the parity of the first `data_shards` of
    /// them into the `parity_shards` that follow.
    ///
    /// Fails where the codec turns the counts or the shards down. Otherwise
    /// the run starts with every shard present.
    pub fn encode(data_shards: usize, parity_shards: usize, shards: Vec<Vec<u8>>) -> (r: Result<
        ErasureRun,
        CodecFault,
    >)
        requires
            data_shards + parity_shards <= usize::MAX,
        ensures
            encode_fault(data_shards as nat, parity_shards as nat, shards.deep_view()) matches Some(
                fault,
            ) ==> r == Err::<ErasureRun, CodecFault>(fault),
            encode_fault(data_shards as nat, parity_shards as nat, shards.deep_view()) is None
                ==> r is Ok,
            r matches Ok(run) ==> {
                &&& run.wf()
                &&& run.data_shards() == data_shards
                &&& run.parity_shards() == parity_shards
                &&& run.original() == encoded(
                    data_shards as nat,
                    parity_shards as nat,
                    shards.deep_view(),
                )
                &&& run.shards() == wrapped(run.original())
            },
    {
        let codec = match codec_new(data_shards, parity_shards) {
            Ok(codec) => codec,
            Err(e) => {
                return Err(to_fault(e));
            },
        };
        let ghost given = shards.deep_view();
        let mut original = shards;
        match codec_encode(&codec, &mut original) {
            Ok(()) => {},
            Err(e) => {
                return Err(to_fault(e));
            },
        }
        let ghost full = original.deep_view();
        proof {
            let d = data_shards as int;
            assert(full.take(d) =~= given.take(d));
            assert(full.len() == given.len()) by {
                assert(full.take(d).len() == d);
                assert(full.skip(d) =~= rs_parity(
                    data_shards as nat,
                    parity_shards as nat,
                    given.take(d),
                ));
            }
            assert(full =~= encoded(data_shards as nat, parity_shards as nat, full));
        }
        let mut working: Vec<Option<Vec<u8>>> = Vec::new();
        let mut at: usize = 0;
        while at < original.len()
            invariant
                at <= original.len(),
                original.deep_view() == full,
                working.deep_view() =~= wrapped(full).take(at as int),
            decreases original.len() - at,
        {
            let ghost before = working.deep_view();
            let copy = original[at].clone();
            proof {
                lemma_bytes_deep_view(copy);
                lemma_bytes_deep_view(original@[at as int]);
            }
            working.push(Some(copy));
            assert(working.deep_view() =~= before.push(Some(full[at as int])));
            at = at + 1;
        }
        assert(wrapped(full).take(full.len() as int) =~= wrapped(full));
        Ok(ErasureRun { codec, data_shards, parity_shards, original, shards: working })
    }

    /// Marks the shard in slot `index` as lost.
    pub fn erase(&mut self, index: usize)
        requires
            old(self).wf(),
            index < old(self).total_shards(),
        ensures
            final(self).wf(),
            final(self).data_shards() == old(self).data_shards(),
            final(self).parity_shards() == old(self).parity_shards(),
            final(self).original() == old(self).original(),
            final(self).shards() == old(self).shards().update(index as int, None),
    {
        self.shards.set(index, None);
        assert(self.shards.deep_view() =~= old(self).shards.deep_view().update(index as int, None));
    }

    /// Loses shards at random: draws a slot as many times as there are parity
    /// shards and marks each slot drawn as lost. A slot may be drawn twice,
    /// so at most that many shards are lost, and possibly fewer. Returns the
    /// slots in the order in which they were drawn.
    pub fn lose(&mut self, rng: &mut ThreadRng) -> (draws: Vec<usize>)
        requires
            old(self).wf(),
        ensures
            final(self).wf(),
            final(self).data_shards() == old(self).data_shards(),
            final(self).parity_shards() == old(self).parity_shards(),
            final(self).original() == old(self).original(),
            draws@.len() == old(self).parity_shards(),
            forall|k: int| 0 <= k < draws@.len() ==> (#[trigger] draws@[k]) < old(self).total_shards(),
            final(self).shards() == erased(old(self).shards(), draws@),
            present_count(final(self).shards()) + old(self).parity_shards() >= present_count(
                old(self).shards(),
            ),
    {
        let total = self.data_shards + self.parity_shards;
        let mut draws: Vec<usize> = Vec::new();
        while draws.len() < self.parity_shards
            invariant
                self.wf(),
                draws@.len() <= self.parity_shards,
                total == self.total_shards(),
                self.data_shards() == old(self).data_shards(),
                self.parity_shards() == old(self).parity_shards(),
                self.original() == old(self).original(),
                forall|k: int| 0 <= k < draws@.len() ==> (#[trigger] draws@[k]) < total,
                self.shards() == erased(old(self).shards(), draws@),
            decreases self.parity_shards - draws@.len(),
        {
            let index = draw_below(rng, total);
            let ghost before = draws@;
            self.erase(index);
            draws.push(index);
            assert(draws@.drop_last() =~= before);
        }
        proof {
            lemma_erased(old(self).shards(), draws@);
        }
        draws
    }

    /// Rebuilds the shards that are lost from those that are present.
    ///
    /// Succeeds where at least as many shards are present as there are data
    /// shards: every slot is then filled, and what was present is unchanged.
    /// Otherwise fails with `TooFewShardsPresent` and changes nothing.
    pub fn recover(&mut self) -> (r: Result<(), CodecFault>)
        requires
            old(self).wf(),
        ensures
            final(self).wf(),
            final(self).data_shards() == old(self).data_shards(),
            final(self).parity_shards() == old(self).parity_shards(),
            final(self).original() == old(self).original(),
            r is Ok <==> present_count(old(self).shards()) >= old(self).data_shards(),
            r is Ok ==> all_present(
                final(self).shards(),
                rs_reconstructed(
                    old(self).data_shards(),
                    old(self).parity_shards(),
                    old(self).shards(),
                ),
            ),
            r is Ok ==> keeps_present(old(self).shards(), final(self).shards()),
            r is Err ==> r == Err::<(), CodecFault>(CodecFault::TooFewShardsPresent),
            r is Err ==> final(self).shards() == old(self).shards(),
    {
        let ghost before = self.shards();
        proof {
            assert(present_same_length(before));
        }
        match codec_reconstruct(&self.codec, &mut self.shards) {
            Ok(()) => {
                proof {
                    let after = self.shards();
                    lemma_present_count_bounds(before);
                    let kept = choose|i: int| 0 <= i < before.len() && (#[trigger] before[i]) is Some;
                    assert(after[kept] == before[kept]);
                    assert forall|i: int|
                        0 <= i < self.total_shards() && (#[trigger] after[i]) is Some implies after[i]->0.len()
                        == self.shard_size() by {
                        assert(after[i]->0.len() == after[kept]->0.len());
                    }
                }
                Ok(())
            },
            Err(e) => Err(to_fault(e)),
        }
    }

    /// Tells whether the working set is the original again: every shard
    /// present and equal to the one that was encoded. The codec is asked to
    /// check the parity of the working set as well; on a set that equals the
    /// original that check cannot fail.
    pub fn intact(&self) -> (ok: bool)
        requires
            self.wf(),
        ensures
            ok == all_present(self.shards(), self.original()),
    {
        let mut result: Vec<Vec<u8>> = Vec::new();
        let mut at: usize = 0;
        while at < self.shards.len()
            invariant
                self.wf(),
                at <= self.shards.len(),
                result.len() == at,
                forall|k: int|
                    0 <= k < at ==> (#[trigger] self.shards()[k]) == Some(result.deep_view()[k]),
            decreases self.shards.len() - at,
        {
            let ghost before = result.deep_view();
            match &self.shards[at] {
                None => {
                    assert(self.shards()[at as int] is None);
                    return false;
                },
                Some(shard) => {
                    let copy = shard.clone();
                    proof {
                        lemma_bytes_deep_view(copy);
                        lemma_bytes_deep_view(*shard);
                    }
                    result.push(copy);
                    assert(result.deep_view() =~= before.push(self.shards()[at as int]->0));
                },
            }
            at = at + 1;
        }
        let parity_holds = match codec_verify(&self.codec, &result) {
            Ok(holds) => holds,
            Err(_) => false,
        };
        let equal = same_shards(&result, &self.original);
        proof {
            if equal {
                let d = self.data_shards() as int;
                assert(self.original().skip(d) =~= rs_parity(
                    self.data_shards(),
                    self.parity_shards(),
                    self.original().take(d),
                ));
            }
            if all_present(self.shards(), self.original()) {
                assert forall|i: int| 0 <= i < result.len() implies result.deep_view()[i]
                    == self.original()[i] by {
                    assert(self.shards()[i] == Some(result.deep_view()[i]));
                }
                assert(result.deep_view() =~= self.original());
            }
        }
        parity_holds && equal
    }

    /// The shard in slot `index` of the working set, or `None` where it is
    /// lost.
    pub fn shard(&self, index: usize) -> (shard: Option<Vec<u8>>)
        requires
            self.wf(),
            index < self.total_shards(),
        ensures
            shard.deep_view() == self.shards()[index as int],
    {
        match &self.shards[index] {
            None => None,
            Some(bytes) => {
                let copy = bytes.clone();
                proof {
                    lemma_bytes_deep_view(copy);
                    lemma_bytes_deep_view(*bytes);
                }
                Some(copy)
            },
        }
    }

    /// The shard in slot `index` as it was encoded.
    pub fn original_shard(&self, index: usize) -> (shard: Vec<u8>)
        requires
            self.wf(),
            index < self.total_shards(),
        ensures
            shard@ == self.original()[index as int],
    {
        let copy = self.original[index].clone();
        proof {
            lemma_bytes_deep_view(copy);
            lemma_bytes_deep_view(self.original@[index as int]);
        }
        copy
    }

    /// Gives up the run for the object it was made of: the data shards of
    /// the original, without the parity.
    pub fn into_object(self) -> (object: Vec<Vec<u8>>)
        requires
            self.wf(),
        ensures
            object.deep_view() == self.original().take(self.data_shards() as int),
    {
        let mut object = self.original;
        object.truncate(self.data_shards);
        assert(object.deep_view() =~= self.original().take(self.data_shards() as int));
        object
    }
}

} // verus!
