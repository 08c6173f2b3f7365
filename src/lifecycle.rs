use vstd::prelude::*;
use vstd::bytes::{spec_u64_to_le_bytes, spec_u64_to_le_bytes_open, spec_u64_to_le_bytes_to_open};
use crate::error::EscrowError;
use crate::layout::Identity;
use crate::processor::{
    all_zero, init_rejection, initialized_record, release_rejection, InitEscrowAccounts,
    ReleaseEscrowAccounts,
};
use crate::state::{
    decode_escrow, lemma_escrow_encoding_injective, EscrowState, ESCROW_STATE_LEN,
    RELAYED_ESCROW_STATE_LEN,
};

verus! {

/// Once an `InitEscrow` has been accepted, a second one on the record it
/// wrote is refused with `AlreadyInitialized` (given a signed request on
/// viable storage, which are checked first), so nothing is written again.
pub proof fn lemma_second_init_rejected(
    first: InitEscrowAccounts,
    amount: u64,
    second: InitEscrowAccounts,
    second_amount: u64,
)
    requires
        init_rejection(first, amount) is None,
        second.escrow_data@ == initialized_record(
            first,
            amount,
            decode_escrow(first.escrow_data@)->Some_0,
        ).encoded(),
        second.initializer_is_signer,
        second.escrow_lamports >= second.rent_exempt_minimum,
    ensures
        init_rejection(second, second_amount) == Some(EscrowError::AlreadyInitialized),
{
    let written = initialized_record(first, amount, decode_escrow(first.escrow_data@)->Some_0);
    lemma_escrow_encoding_injective(written);
}

/// A signed release of an active record before its maturity time is
/// refused with `NotMatured`, whatever accounts come with it.
pub proof fn lemma_release_before_maturity(
    acc: ReleaseEscrowAccounts,
    destination_owner: Option<Seq<u8>>,
)
    requires
        acc.taker_is_signer,
        decode_escrow(acc.escrow_data@) matches Some(r) && r.is_initialized && acc.now
            < r.expire_date,
    ensures
        release_rejection(acc, destination_owner) == Some(EscrowError::NotMatured),
{
}

/// A signed release of an active record at or after its maturity time,
/// with the receiver, holding account and refund target the record binds,
/// passes every check.
pub proof fn lemma_release_after_maturity(acc: ReleaseEscrowAccounts, destination_owner: Option<Seq<u8>>)
    requires
        acc.taker_is_signer,
        decode_escrow(acc.escrow_data@) matches Some(r) && {
            &&& r.is_initialized
            &&& acc.now >= r.expire_date
            &&& destination_owner == Some(r.receiver_pubkey@)
            &&& acc.temp_token_account == r.temp_token_account_pubkey
            &&& acc.initializer_main_account == r.initializer_pubkey
        },
    ensures
        release_rejection(acc, destination_owner) is None,
{
}

/// A signed release of a matured record with a wrong receiver, a wrong
/// holding account or a wrong refund target is refused with
/// `IdentityMismatch`, before any token call is planned.
pub proof fn lemma_release_identity_mismatch(
    acc: ReleaseEscrowAccounts,
    destination_owner: Option<Seq<u8>>,
)
    requires
        acc.taker_is_signer,
        decode_escrow(acc.escrow_data@) matches Some(r) && {
            &&& r.is_initialized
            &&& acc.now >= r.expire_date
            &&& {
                ||| destination_owner != Some(r.receiver_pubkey@)
                ||| acc.temp_token_account != r.temp_token_account_pubkey
                ||| acc.initializer_main_account != r.initializer_pubkey
            }
        },
    ensures
        release_rejection(acc, destination_owner) == Some(EscrowError::IdentityMismatch),
{
}

/// The zeroed storage that a settled release leaves holds a blank,
/// uninitialized record, so a second release of it is refused.
pub proof fn lemma_released_record_is_blank(
    acc: ReleaseEscrowAccounts,
    destination_owner: Option<Seq<u8>>,
)
    requires
        all_zero(acc.escrow_data@),
        acc.escrow_data@.len() == ESCROW_STATE_LEN || acc.escrow_data@.len()
            == RELAYED_ESCROW_STATE_LEN,
    ensures
        decode_escrow(acc.escrow_data@) matches Some(r) && r.is_blank(),
        release_rejection(acc, destination_owner) is Some,
        acc.taker_is_signer ==> release_rejection(acc, destination_owner) == Some(
            EscrowError::NotInitialized,
        ),
{
    let s = acc.escrow_data@;
    let z: Identity = vstd::array::spec_array_fill_for_copy_type::<u8, 32>(0u8);
    assert(z@ =~= Seq::new(32, |i: int| 0u8));
    let blank = EscrowState {
        is_initialized: false,
        caller_pubkey: if s.len() == RELAYED_ESCROW_STATE_LEN {
            Some(z)
        } else {
            None
        },
        initializer_pubkey: z,
        receiver_pubkey: z,
        temp_token_account_pubkey: z,
        escrow_amount: 0,
        expire_date: 0,
    };
    let x: u64 = 0;
    spec_u64_to_le_bytes_to_open(x);
    assert(x == 0 ==> {
        &&& (x & 0xff) as u8 == 0
        &&& ((x >> 8) & 0xff) as u8 == 0
        &&& ((x >> 16) & 0xff) as u8 == 0
        &&& ((x >> 24) & 0xff) as u8 == 0
        &&& ((x >> 32) & 0xff) as u8 == 0
        &&& ((x >> 40) & 0xff) as u8 == 0
        &&& ((x >> 48) & 0xff) as u8 == 0
        &&& ((x >> 56) & 0xff) as u8 == 0
    }) by (bit_vector);
    assert(spec_u64_to_le_bytes(x) =~= Seq::new(8, |i: int| 0u8));
    assert((0i64 as u64) == 0u64);
    assert(blank.encoded() =~= s);
    lemma_escrow_encoding_injective(blank);
}

} // verus!
