//! The Reed-Solomon codec of `reed_solomon_erasure` over GF(2^8), behind
//! contracts that the rest of the engine is verified against.
//!
//! Nothing in this file is proved: every contract here is taken from the
//! source and the documentation of `reed_solomon_erasure` 4.0.

use reed_solomon_erasure::galois_8::Field;
use reed_solomon_erasure::Error;
use reed_solomon_erasure::ReedSolomon;
use vstd::prelude::*;

verus! {

/// The error type of `reed_solomon_erasure`.
#[verifier::external_type_specification]
pub struct ExError(Error);

/// A Reed-Solomon encoder/decoder over GF(2^8), built for a fixed number of
/// data and parity shards.
///
/// It holds a `reed_solomon_erasure::ReedSolomon<galois_8::Field>`. The verifier
/// sees nothing of it but [`codec_data_shards`] and [`codec_parity_shards`].
#[verifier::external_body]
pub struct Codec {
    inner: ReedSolomon<Field>,
}

/// The order of GF(2^8): a codec has at most this many shards.
pub const FIELD_ORDER: usize = 256;

/// What `ReedSolomon::data_shard_count` returns for the codec.
pub uninterp spec fn codec_data_shards(codec: &Codec) -> nat;

/// What `ReedSolomon::parity_shard_count` returns for the codec.
pub uninterp spec fn codec_parity_shards(codec: &Codec) -> nat;

/// The parity shards that `ReedSolomon::encode` computes from the data shards
/// `data`, for a codec of `data_shards` data and `parity_shards` parity shards.
pub uninterp spec fn rs_parity(data_shards: nat, parity_shards: nat, data: Seq<Seq<u8>>) -> Seq<
    Seq<u8>,
>;

/// The full shard set that `ReedSolomon::reconstruct` leaves behind when it
/// succeeds on `shards`, for a codec of `data_shards` data and
/// `parity_shards` parity shards.
pub uninterp spec fn rs_reconstructed(
    data_shards: nat,
    parity_shards: nat,
    shards: Seq<Option<Seq<u8>>>,
) -> Seq<Seq<u8>>;

/// `r` is the failure `e`.
pub open spec fn fails_with<T>(r: Result<T, Error>, e: Error) -> bool {
    r matches Err(x) && x == e
}

/// The error with which `ReedSolomon::new` turns down the shard counts, if any.
pub open spec fn shape_error(data_shards: nat, parity_shards: nat) -> Option<Error> {
    if data_shards == 0 {
        Some(Error::TooFewDataShards)
    } else if parity_shards == 0 {
        Some(Error::TooFewParityShards)
    } else if data_shards + parity_shards > FIELD_ORDER {
        Some(Error::TooManyShards)
    } else {
        None
    }
}

/// Every shard is as long as the first one.
pub open spec fn same_length(shards: Seq<Seq<u8>>) -> bool {
    forall|i: int| 0 <= i < shards.len() ==> (#[trigger] shards[i]).len() == shards[0].len()
}

/// The error with which `encode` and `verify` turn down a shard set for a
/// codec of `total` shards, if any.
pub open spec fn layout_error(total: nat, shards: Seq<Seq<u8>>) -> Option<Error> {
    if shards.len() < total {
        Some(Error::TooFewShards)
    } else if shards.len() > total {
        Some(Error::TooManyShards)
    } else if total == 0 || shards[0].len() == 0 {
        Some(Error::EmptyShard)
    } else if !same_length(shards) {
        Some(Error::IncorrectShardSize)
    } else {
        None
    }
}

/// How many of the shards are present.
pub open spec fn present_count(shards: Seq<Option<Seq<u8>>>) -> nat
    decreases shards.len(),
{
    if shards.len() == 0 {
        0
    } else {
        present_count(shards.drop_last()) + if shards.last() is Some {
            1nat
        } else {
            0nat
        }
    }
}

/// The shards that are present are all of one length, and not empty.
pub open spec fn present_same_length(shards: Seq<Option<Seq<u8>>>) -> bool {
    &&& forall|i: int|
        0 <= i < shards.len() && (#[trigger] shards[i]) is Some ==> shards[i]->0.len() > 0
    &&& forall|i: int, j: int|
        0 <= i < shards.len() && 0 <= j < shards.len() && (#[trigger] shards[i]) is Some && (
        #[trigger] shards[j]) is Some ==> shards[i]->0.len() == shards[j]->0.len()
}

/// The shard set can be rebuilt by a codec of `data_shards` data and
/// `parity_shards` parity shards: it has the codec's number of slots, what is
/// present is of one length, and at least `data_shards` shards are present.
pub open spec fn reconstructible(
    data_shards: nat,
    parity_shards: nat,
    shards: Seq<Option<Seq<u8>>>,
) -> bool {
    &&& shards.len() == data_shards + parity_shards
    &&& present_same_length(shards)
    &&& present_count(shards) >= data_shards
}

/// Every slot is filled, with the shard of the same index in `full`.
pub open spec fn all_present(shards: Seq<Option<Seq<u8>>>, full: Seq<Seq<u8>>) -> bool {
    &&& shards.len() == full.len()
    &&& forall|i: int| 0 <= i < shards.len() ==> (#[trigger] shards[i]) == Some(full[i])
}

/// What was present in `before` is unchanged in `after`.
pub open spec fn keeps_present(before: Seq<Option<Seq<u8>>>, after: Seq<Option<Seq<u8>>>) -> bool {
    &&& after.len() == before.len()
    &&& forall|i: int|
        0 <= i < before.len() && (#[trigger] before[i]) is Some ==> after[i] == before[i]
}

/// `ReedSolomon::new` for GF(2^8).
///
/// It fails with `TooFewDataShards` when there is no data shard, else with
/// `TooFewParityShards` when there is no parity shard, else with
/// `TooManyShards` when there are more than 256 shards in all; otherwise it
/// returns a codec for these counts. The counts must not overflow when added.
#[verifier::external_body]
pub(crate) fn codec_new(data_shards: usize, parity_shards: usize) -> (r: Result<Codec, Error>)
    requires
        data_shards + parity_shards <= usize::MAX,
    ensures
        shape_error(data_shards as nat, parity_shards as nat) matches Some(e) ==> fails_with(r, e),
        shape_error(data_shards as nat, parity_shards as nat) is None ==> r is Ok,
        r matches Ok(c) ==> codec_data_shards(&c) == data_shards,
        r matches Ok(c) ==> codec_parity_shards(&c) == parity_shards,
{
    match ReedSolomon::new(data_shards, parity_shards) {
        Ok(inner) => Ok(Codec { inner }),
        Err(e) => Err(e),
    }
}

/// `ReedSolomon::encode` on a vector of shards.
///
/// It fails, touching nothing, when the number of shards is not the codec's,
/// when the first shard is empty, or when the shards differ in length.
/// Otherwise it leaves the data shards as they are and overwrites the parity
/// shards, in place, with the parity of the data shards: there are as many
/// shards after the call as before, of the same length.
#[verifier::external_body]
pub(crate) fn codec_encode(codec: &Codec, shards: &mut Vec<Vec<u8>>) -> (r: Result<(), Error>)
    ensures
        layout_error(
            codec_data_shards(codec) + codec_parity_shards(codec),
            old(shards).deep_view(),
        ) matches Some(e) ==> fails_with(r, e),
        layout_error(
            codec_data_shards(codec) + codec_parity_shards(codec),
            old(shards).deep_view(),
        ) is None ==> r is Ok,
        r is Err ==> final(shards).deep_view() == old(shards).deep_view(),
        r is Ok ==> final(shards).deep_view() == old(shards).deep_view().take(
            codec_data_shards(codec) as int,
        ) + rs_parity(
            codec_data_shards(codec),
            codec_parity_shards(codec),
            old(shards).deep_view().take(codec_data_shards(codec) as int),
        ),
        r is Ok ==> same_length(final(shards).deep_view()),
        final(shards).len() == old(shards).len(),
{
    codec.inner.encode(shards)
}

/// `ReedSolomon::verify` on a vector of shards.
///
/// It fails on the shard sets on which `encode` fails. Otherwise it computes
/// the parity of the data shards as `encode` does and tells whether the parity
/// shards given are equal to it.
#[verifier::external_body]
pub(crate) fn codec_verify(codec: &Codec, shards: &Vec<Vec<u8>>) -> (r: Result<bool, Error>)
    ensures
        layout_error(
            codec_data_shards(codec) + codec_parity_shards(codec),
            shards.deep_view(),
        ) matches Some(e) ==> fails_with(r, e),
        layout_error(
            codec_data_shards(codec) + codec_parity_shards(codec),
            shards.deep_view(),
        ) is None ==> r is Ok,
        r matches Ok(b) ==> b == (shards.deep_view().skip(codec_data_shards(codec) as int)
            == rs_parity(
            codec_data_shards(codec),
            codec_parity_shards(codec),
            shards.deep_view().take(codec_data_shards(codec) as int),
        )),
{
    codec.inner.verify(shards)
}

/// `ReedSolomon::reconstruct` on a vector of optional shards.
///
/// It succeeds exactly on the shard sets that are [`reconstructible`]; when
/// it fails nothing is touched, and where only the number of shards present
/// is at fault the error is `TooFewShardsPresent`. When it succeeds every slot
/// is filled, what was present is unchanged, and all shards have one length.
#[verifier::external_body]
pub(crate) fn codec_reconstruct(codec: &Codec, shards: &mut Vec<Option<Vec<u8>>>) -> (r: Result<
    (),
    Error,
>)
    ensures
        r is Ok <==> reconstructible(
            codec_data_shards(codec),
            codec_parity_shards(codec),
            old(shards).deep_view(),
        ),
        r is Err ==> final(shards).deep_view() == old(shards).deep_view(),
        old(shards).len() == codec_data_shards(codec) + codec_parity_shards(codec)
            && present_same_length(old(shards).deep_view()) && present_count(
            old(shards).deep_view(),
        ) < codec_data_shards(codec) ==> fails_with(r, Error::TooFewShardsPresent),
        r is Ok ==> all_present(
            final(shards).deep_view(),
            rs_reconstructed(
                codec_data_shards(codec),
                codec_parity_shards(codec),
                old(shards).deep_view(),
            ),
        ),
        r is Ok ==> keeps_present(old(shards).deep_view(), final(shards).deep_view()),
        r is Ok ==> present_same_length(final(shards).deep_view()),
{
    codec.inner.reconstruct(shards)
}

} // verus!
