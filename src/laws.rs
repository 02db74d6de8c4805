use vstd::prelude::*;

use crate::address::{record_slot_of, Address};
use crate::error::MetaIdError;
use crate::ledger::{LedgerView, MintError, TokenError};
use crate::record::{byte_len, uri_check, MAX_URI_LEN};

verus! {

/// A valid URI for an owner whose record slot and mint address are both free
/// is minted, and the new record holds that URI and the time of the call.
pub proof fn lemma_fresh_mint_succeeds(
    pre: LedgerView,
    post: LedgerView,
    owner: Address,
    uri: Seq<char>,
    mint: Address,
    now: i64,
    slot: Seq<u8>,
    bump: u8,
)
    requires
        pre.wf(),
        uri_check(uri) is Ok,
        record_slot_of(pre.program_id, owner@) == Some((slot, bump)),
        !pre.slot_in_use(slot),
        !pre.mint_in_use(mint@),
    ensures
        pre.mint_outcome(owner@, uri, mint@) is Ok,
        pre.minted(post, owner, uri, mint, now) ==> {
            &&& post.records.last().data.owner == owner
            &&& post.records.last().data.metadata_uri@ == uri
            &&& post.records.last().data.created_at == now
            &&& post.records.last().slot@ == slot
        },
{
}

/// An empty URI is refused as invalid, whatever the state.
pub proof fn lemma_empty_uri_refused(pre: LedgerView, owner: Seq<u8>, uri: Seq<char>, mint: Seq<u8>)
    requires
        byte_len(uri) == 0,
    ensures
        pre.mint_outcome(owner, uri, mint) == Err::<(), MintError>(MintError::Invalid(MetaIdError::InvalidMetadataUri)),
{
}

/// A URI over the limit is refused as too long, whatever the state.
pub proof fn lemma_long_uri_refused(pre: LedgerView, owner: Seq<u8>, uri: Seq<char>, mint: Seq<u8>)
    requires
        byte_len(uri) > MAX_URI_LEN,
    ensures
        pre.mint_outcome(owner, uri, mint) == Err::<(), MintError>(MintError::Invalid(MetaIdError::MetadataUriTooLong)),
{
}

/// Once an owner has minted, every later attempt by that owner fails; with a
/// valid URI it fails because the record slot is taken.
pub proof fn lemma_second_mint_fails(
    pre: LedgerView,
    mid: LedgerView,
    owner: Address,
    uri: Seq<char>,
    mint: Address,
    now: i64,
    uri2: Seq<char>,
    mint2: Seq<u8>,
)
    requires
        pre.wf(),
        pre.minted(mid, owner, uri, mint, now),
    ensures
        mid.mint_outcome(owner@, uri2, mint2) is Err,
        uri_check(uri2) is Ok ==> mid.mint_outcome(owner@, uri2, mint2) == Err::<(), MintError>(MintError::AccountInUse),
{
    let (slot, _) = record_slot_of(pre.program_id, owner@)->Some_0;
    let last = mid.records.len() - 1;
    assert(mid.records[last].slot@ == slot);
    assert(mid.slot_in_use(slot));
}

/// After a mint the owner holds exactly one unit, the supply is one, and no
/// signer can mint any more of it.
pub proof fn lemma_minted_token_is_capped(
    pre: LedgerView,
    post: LedgerView,
    owner: Address,
    uri: Seq<char>,
    mint: Address,
    now: i64,
    signer: Seq<u8>,
    amount: u64,
)
    requires
        pre.minted(post, owner, uri, mint, now),
        post.wf(),
    ensures
        post.mint_in_use(mint@),
        post.mints[post.mint_index(mint@)].holder == owner,
        post.mints[post.mint_index(mint@)].holder_amount == 1,
        post.mints[post.mint_index(mint@)].supply == 1,
        post.mint_to_outcome(mint@, signer, amount) == Err::<(), TokenError>(TokenError::MintAuthorityMismatch),
{
    let last = post.mints.len() - 1;
    assert(post.mints[last].address@ == mint@);
    let k = post.mint_index(mint@);
    if k < last {
        assert(post.mints[k].address@ != post.mints[last].address@);
    } else if k > last {
        assert(false);
    }
}

/// Two different owners whose record slots differ both mint, one after the
/// other, each with a record of its own at its own slot.
pub proof fn lemma_distinct_owners_both_mint(
    pre: LedgerView,
    mid: LedgerView,
    post: LedgerView,
    owner_a: Address,
    uri_a: Seq<char>,
    mint_a: Address,
    time_a: i64,
    owner_b: Address,
    uri_b: Seq<char>,
    mint_b: Address,
    time_b: i64,
)
    requires
        pre.wf(),
        owner_a@ != owner_b@,
        uri_check(uri_a) is Ok,
        uri_check(uri_b) is Ok,
        record_slot_of(pre.program_id, owner_a@) is Some,
        record_slot_of(pre.program_id, owner_b@) is Some,
        record_slot_of(pre.program_id, owner_a@)->Some_0.0 != record_slot_of(pre.program_id, owner_b@)->Some_0.0,
        !pre.slot_in_use(record_slot_of(pre.program_id, owner_a@)->Some_0.0),
        !pre.slot_in_use(record_slot_of(pre.program_id, owner_b@)->Some_0.0),
        mint_a@ != mint_b@,
        !pre.mint_in_use(mint_a@),
        !pre.mint_in_use(mint_b@),
        pre.minted(mid, owner_a, uri_a, mint_a, time_a),
        mid.minted(post, owner_b, uri_b, mint_b, time_b),
    ensures
        pre.mint_outcome(owner_a@, uri_a, mint_a@) is Ok,
        mid.mint_outcome(owner_b@, uri_b, mint_b@) is Ok,
        post.records.len() == pre.records.len() + 2,
        post.records[post.records.len() - 2].data.owner == owner_a,
        post.records[post.records.len() - 1].data.owner == owner_b,
        post.records[post.records.len() - 2].slot@ != post.records[post.records.len() - 1].slot@,
{
    let slot_b = record_slot_of(pre.program_id, owner_b@)->Some_0.0;
    if mid.slot_in_use(slot_b) {
        let i = choose|i: int| 0 <= i < mid.records.len() && #[trigger] mid.records[i].slot@ == slot_b;
        if i < pre.records.len() {
            assert(mid.records.drop_last()[i] == mid.records[i]);
        }
    }
    if mid.mint_in_use(mint_b@) {
        let i = choose|i: int| 0 <= i < mid.mints.len() && #[trigger] mid.mints[i].address@ == mint_b@;
        if i < pre.mints.len() {
            assert(mid.mints.drop_last()[i] == mid.mints[i]);
        }
    }
    assert(post.records.drop_last()[post.records.len() - 2] == post.records[post.records.len() - 2]);
}

} // verus!
