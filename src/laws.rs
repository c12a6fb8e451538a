use vstd::bytes::{lemma_auto_spec_u128_to_from_le_bytes, spec_u128_to_le_bytes};
use vstd::prelude::*;

use crate::args::{
    OrderTerms,
    declared_owner_size,
    decode_terms,
    encode_terms,
    DexArgs,
    MIN_ARGS_SIZE,
    NFT_FLAG,
    RECEIVER_LOCK_FLAG,
    SETUP_MAX,
    UNIT_TYPE_HASH_FLAG,
    script_verifies,
};
use crate::bytes::{be_bytes, be_u128};
use crate::cells::{has_lock, is_first_with_lock, lemma_first_with_lock, InputCell, OutputCell};
use crate::error::Error;
use crate::settle::{order_verdict, settle_verdict};

verus! {

/// Whether `lock` is a serialized lock script as the arguments carry it: at
/// least 49 bytes, a well-formed `Script` table, whose first four bytes give
/// its own length.
pub open spec fn is_owner_lock_encoding(lock: Seq<u8>) -> bool {
    &&& 49 <= lock.len() <= u32::MAX
    &&& declared_owner_size(lock) == lock.len()
    &&& script_verifies(lock)
}

/// Encoding order terms and decoding the result gives the same terms back,
/// for every setup whose bits are known, except with the reserved receiver
/// bit, when the token type hash is present exactly when the setup announces
/// it.
pub proof fn lemma_round_trip(d: DexArgs)
    requires
        is_owner_lock_encoding(d.owner_lock@),
        d.setup <= SETUP_MAX,
        d.setup & RECEIVER_LOCK_FLAG == 0,
        d.receiver_lock is None,
        (d.setup & UNIT_TYPE_HASH_FLAG != 0) == (d.unit_type_hash is Some),
    ensures
        encode_terms(d@) is Ok,
        decode_terms(encode_terms(d@)->Ok_0) == Ok::<_, Error>(d@),
{
    let lock = d.owner_lock@;
    let l = lock.len() as int;
    let value = be_bytes(d.total_value);
    lemma_auto_spec_u128_to_from_le_bytes();
    assert(value.len() == 16);
    let head = lock + seq![d.setup] + value;
    let a = encode_terms(d@)->Ok_0;
    assert(a.subrange(0, l) =~= lock);
    assert(a.subrange(0, 4) =~= lock.subrange(0, 4));
    assert(declared_owner_size(a) == l);
    assert(a[l] == d.setup);
    assert(a.subrange(l + 1, l + 17) =~= value);
    assert(value.reverse() =~= spec_u128_to_le_bytes(d.total_value));
    assert(be_u128(a.subrange(l + 1, l + 17)) == d.total_value);
    if d.setup & UNIT_TYPE_HASH_FLAG != 0 {
        let h = d.unit_type_hash->0;
        assert(a == head + h@);
        assert(a.subrange(l + 17, l + 49) =~= h@);
    } else {
        assert(a == head);
    }
    assert(decode_terms(a)->Ok_0 == d@);
}

/// Every argument string shorter than the minimum is refused as invalid
/// arguments.
pub proof fn lemma_short_args_rejected(args: Seq<u8>)
    requires
        args.len() < MIN_ARGS_SIZE,
    ensures
        decode_terms(args) == Err::<OrderTerms, Error>(Error::LockArgsInvalid),
{
}

/// When some input is locked by the maker's own lock, the order check passes
/// whatever the outputs are: the maker's lock is checked by the host on that
/// input, so the maker has authorised the transaction.
pub proof fn lemma_cancellation_precedence(
    d: OrderTerms,
    own: Seq<u8>,
    inputs: Seq<InputCell>,
    outputs: Seq<OutputCell>,
)
    requires
        has_lock(inputs, d.owner_lock),
    ensures
        settle_verdict(d, own, inputs, outputs) == Ok::<(), Error>(()),
{
}

/// The same, for the whole check on lock arguments that decode.
pub proof fn lemma_cancellation_precedence_for_args(
    args: Seq<u8>,
    own: Seq<u8>,
    inputs: Seq<InputCell>,
    outputs: Seq<OutputCell>,
)
    requires
        decode_terms(args) is Ok,
        has_lock(inputs, decode_terms(args)->Ok_0.owner_lock),
    ensures
        order_verdict(args, own, inputs, outputs) == Ok::<(), Error>(()),
{
}

/// Without the maker taking part, the output at the index of the order's
/// input must be locked by the maker's lock: any other lock there fails with
/// the owner-lock mismatch, whatever the outputs pay.
pub proof fn lemma_fulfilment_exactness(
    d: OrderTerms,
    own: Seq<u8>,
    inputs: Seq<InputCell>,
    outputs: Seq<OutputCell>,
    i: int,
)
    requires
        !has_lock(inputs, d.owner_lock),
        is_first_with_lock(inputs, own, i),
        i < outputs.len(),
        outputs[i].lock@ != d.owner_lock,
    ensures
        settle_verdict(d, own, inputs, outputs) == Err::<(), Error>(Error::DexOwnerLockNotMatch),
{
    lemma_first_with_lock(inputs, own, i);
}

/// On the fungible capacity path, when the order cell's capacity plus the
/// required value exceeds the 128-bit range, the check fails with the
/// overflow error and never wraps.
pub proof fn lemma_overflow_rejected(
    d: OrderTerms,
    own: Seq<u8>,
    inputs: Seq<InputCell>,
    outputs: Seq<OutputCell>,
    i: int,
)
    requires
        d.unit_type_hash is None,
        d.setup & NFT_FLAG == 0,
        !has_lock(inputs, d.owner_lock),
        is_first_with_lock(inputs, own, i),
        i < outputs.len(),
        outputs[i].lock@ == d.owner_lock,
        inputs[i].capacity + d.total_value > u128::MAX,
    ensures
        settle_verdict(d, own, inputs, outputs) == Err::<(), Error>(Error::TotalValueOverflow),
{
    lemma_first_with_lock(inputs, own, i);
}

} // verus!
