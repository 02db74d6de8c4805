use vstd::prelude::*;

use crate::address::{derive_record_slot, record_slot_of, Address};
use crate::error::MetaIdError;
use crate::record::{
    uri_check, validate_metadata_uri, MetaIdData, MetadataArgs, EDITION_MAX_SUPPLY, MINT_AMOUNT, MINT_DECIMALS,
};

verus! {

/// Why the mint instruction failed.
#[derive(Clone, Copy, Debug, PartialEq, Eq, Structural)]
pub enum MintError {
    /// The metadata URI was rejected.
    Invalid(MetaIdError),
    /// The address search found no bump for the owner's record slot.
    NoRecordSlot,
    /// The record slot or the mint address is already initialized.
    AccountInUse,
}

/// Why a further mint into an existing token mint failed.
#[derive(Clone, Copy, Debug, PartialEq, Eq, Structural)]
pub enum TokenError {
    /// No token mint lives at that address.
    UnknownMint,
    /// The signer is not the mint's authority, or the mint has none left.
    MintAuthorityMismatch,
    /// The supply or the holder's balance would pass `u64::MAX`.
    SupplyOverflow,
}

/// An identity record at its derived slot.
#[derive(Clone, Debug)]
pub struct IdentityAccount {
    pub slot: Address,
    pub data: MetaIdData,
}

/// A token mint together with the one associated token account that holds it.
#[derive(Clone, Copy, Debug)]
pub struct TokenMint {
    pub address: Address,
    pub decimals: u8,
    pub supply: u64,
    /// Who may mint more; `None` once the master edition has taken it over.
    pub mint_authority: Option<Address>,
    /// Owner of the associated token account.
    pub holder: Address,
    /// Balance of the associated token account.
    pub holder_amount: u64,
}

/// The metadata record and the master edition of a mint.
#[derive(Clone, Debug)]
pub struct MetadataAccount {
    pub mint: Address,
    pub args: MetadataArgs,
    /// The master edition's cap on further prints.
    pub edition_max_supply: Option<u64>,
}

/// The accounts of the program as sequences, in order of creation.
pub struct LedgerView {
    pub program_id: Seq<u8>,
    pub records: Seq<IdentityAccount>,
    pub mints: Seq<TokenMint>,
    pub metadata: Seq<MetadataAccount>,
}

impl LedgerView {
    pub open spec fn slot_in_use(self, s: Seq<u8>) -> bool {
        exists|i: int| 0 <= i < self.records.len() && #[trigger] self.records[i].slot@ == s
    }

    pub open spec fn mint_in_use(self, m: Seq<u8>) -> bool {
        exists|i: int| 0 <= i < self.mints.len() && #[trigger] self.mints[i].address@ == m
    }

    /// Slots and mint addresses are unique, and every record holds a valid URI.
    pub open spec fn wf(self) -> bool {
        &&& forall|i: int, j: int|
            0 <= i < j < self.records.len() ==> #[trigger] self.records[i].slot@ != #[trigger] self.records[j].slot@
        &&& forall|i: int, j: int|
            0 <= i < j < self.mints.len() ==> #[trigger] self.mints[i].address@ != #[trigger] self.mints[j].address@
        &&& forall|i: int| 0 <= i < self.records.len() ==> (#[trigger] self.records[i]).data.wf()
    }

    /// What the mint instruction answers for `owner`, `uri` and `mint`.
    pub open spec fn mint_outcome(self, owner: Seq<u8>, uri: Seq<char>, mint: Seq<u8>) -> Result<(), MintError> {
        match uri_check(uri) {
            Err(e) => Err(MintError::Invalid(e)),
            Ok(_) => match record_slot_of(self.program_id, owner) {
                None => Err(MintError::NoRecordSlot),
                Some((slot, _)) => if self.slot_in_use(slot) || self.mint_in_use(mint) {
                    Err(MintError::AccountInUse)
                } else {
                    Ok(())
                },
            },
        }
    }

    /// `post` is `self` after a successful mint instruction: one new record,
    /// one new mint of one unit held by the owner, its metadata, its master
    /// edition; nothing else changed.
    pub open spec fn minted(self, post: LedgerView, owner: Address, uri: Seq<char>, mint: Address, now: i64) -> bool {
        match record_slot_of(self.program_id, owner@) {
            None => false,
            Some((slot, bump)) => {
                let rec = post.records.last();
                let tok = post.mints.last();
                let md = post.metadata.last();
                &&& post.program_id == self.program_id
                &&& post.records.len() == self.records.len() + 1
                &&& post.records.drop_last() == self.records
                &&& rec.slot@ == slot
                &&& rec.data.owner == owner
                &&& rec.data.metadata_uri@ == uri
                &&& rec.data.created_at == now
                &&& rec.data.mint == mint
                &&& rec.data.bump == bump
                &&& post.mints.len() == self.mints.len() + 1
                &&& post.mints.drop_last() =~= self.mints
                &&& tok == (TokenMint {
                    address: mint,
                    decimals: 0,
                    supply: 1,
                    mint_authority: None,
                    holder: owner,
                    holder_amount: 1,
                })
                &&& post.metadata.len() == self.metadata.len() + 1
                &&& post.metadata.drop_last() == self.metadata
                &&& md.mint == mint
                &&& md.args.is_for(owner, uri)
                &&& md.edition_max_supply == Some(0u64)
            },
        }
    }

    /// The position of the mint at `m`, where there is one.
    pub open spec fn mint_index(self, m: Seq<u8>) -> int {
        choose|i: int| 0 <= i < self.mints.len() && #[trigger] self.mints[i].address@ == m
    }

    /// What a further mint of `amount` into `mint`, signed by `authority`, answers.
    pub open spec fn mint_to_outcome(self, mint: Seq<u8>, authority: Seq<u8>, amount: u64) -> Result<(), TokenError> {
        if !self.mint_in_use(mint) {
            Err(TokenError::UnknownMint)
        } else {
            let t = self.mints[self.mint_index(mint)];
            if !(t.mint_authority matches Some(a) && a@ == authority) {
                Err(TokenError::MintAuthorityMismatch)
            } else if t.supply + amount > u64::MAX || t.holder_amount + amount > u64::MAX {
                Err(TokenError::SupplyOverflow)
            } else {
                Ok(())
            }
        }
    }

    /// `post` is `self` with `amount` more units of `mint` in supply and in the
    /// holder's account.
    pub open spec fn minted_more(self, post: LedgerView, mint: Seq<u8>, amount: u64) -> bool {
        let i = self.mint_index(mint);
        let t = self.mints[i];
        &&& post.program_id == self.program_id
        &&& post.records == self.records
        &&& post.metadata == self.metadata
        &&& post.mints == self.mints.update(i, TokenMint {
            supply: (t.supply + amount) as u64,
            holder_amount: (t.holder_amount + amount) as u64,
            ..t
        })
    }
}

/// The accounts that the program has created: identity records, token mints
/// and their metadata.
pub struct Ledger {
    program_id: Address,
    records: Vec<IdentityAccount>,
    mints: Vec<TokenMint>,
    metadata: Vec<MetadataAccount>,
}

impl View for Ledger {
    type V = LedgerView;

    closed spec fn view(&self) -> LedgerView {
        LedgerView {
            program_id: self.program_id@,
            records: self.records@,
            mints: self.mints@,
            metadata: self.metadata@,
        }
    }
}

impl Ledger {
    /// An empty ledger for the program at `program_id`.
    pub fn new(program_id: Address) -> (r: Self)
        ensures
            r@.program_id == program_id@,
            r@.records.len() == 0,
            r@.mints.len() == 0,
            r@.metadata.len() == 0,
            r@.wf(),
    {
        Ledger { program_id, records: Vec::new(), mints: Vec::new(), metadata: Vec::new() }
    }

    pub fn program_id(&self) -> (r: &Address)
        ensures
            r@ == self@.program_id,
    {
        &self.program_id
    }

    pub fn records(&self) -> (r: &Vec<IdentityAccount>)
        ensures
            r@ == self@.records,
    {
        &self.records
    }

    pub fn mints(&self) -> (r: &Vec<TokenMint>)
        ensures
            r@ == self@.mints,
    {
        &self.mints
    }

    pub fn metadata(&self) -> (r: &Vec<MetadataAccount>)
        ensures
            r@ == self@.metadata,
    {
        &self.metadata
    }

    fn slot_position(&self, slot: &Address) -> (r: Option<usize>)
        ensures
            match r {
                Some(i) => i < self@.records.len() && self@.records[i as int].slot@ == slot@,
                None => !self@.slot_in_use(slot@),
            },
    {
        let mut i: usize = 0;
        while i < self.records.len()
            invariant
                i <= self.records@.len(),
                forall|j: int| 0 <= j < i ==> #[trigger] self.records@[j].slot@ != slot@,
            decreases self.records@.len() - i,
        {
            if self.records[i].slot == *slot {
                return Some(i);
            }
            i = i + 1;
        }
        None
    }

    fn mint_position(&self, mint: &Address) -> (r: Option<usize>)
        ensures
            match r {
                Some(i) => i < self@.mints.len() && self@.mints[i as int].address@ == mint@,
                None => !self@.mint_in_use(mint@),
            },
    {
        let mut i: usize = 0;
        while i < self.mints.len()
            invariant
                i <= self.mints@.len(),
                forall|j: int| 0 <= j < i ==> #[trigger] self.mints@[j].address@ != mint@,
            decreases self.mints@.len() - i,
        {
            if self.mints[i].address == *mint {
                return Some(i);
            }
            i = i + 1;
        }
        None
    }

    /// Mints `amount` more units of `mint` into its holder's account, signed
    /// by `authority`; only the mint's authority may, within `u64` range.
    pub fn mint_to(&mut self, mint: &Address, authority: &Address, amount: u64) -> (r: Result<(), TokenError>)
        requires
            old(self)@.wf(),
        ensures
            final(self)@.wf(),
            r == old(self)@.mint_to_outcome(mint@, authority@, amount),
            r is Ok ==> old(self)@.minted_more(final(self)@, mint@, amount),
            r is Err ==> final(self)@ == old(self)@,
    {
        let i = match self.mint_position(mint) {
            Some(i) => i,
            None => return Err(TokenError::UnknownMint),
        };
        proof {
            let k = self@.mint_index(mint@);
            assert(self@.mints[i as int].address@ == mint@);
            assert(self@.mints[k].address@ == mint@);
            if k < i {
                assert(self@.mints[k].address@ != self@.mints[i as int].address@);
            } else if k > i {
                assert(self@.mints[i as int].address@ != self@.mints[k].address@);
            }
        }
        let t = self.mints[i];
        let authorized = match t.mint_authority {
            Some(a) => a == *authority,
            None => false,
        };
        if !authorized {
            return Err(TokenError::MintAuthorityMismatch);
        }
        if t.supply > u64::MAX - amount || t.holder_amount > u64::MAX - amount {
            return Err(TokenError::SupplyOverflow);
        }
        self.mints.set(i, TokenMint { supply: t.supply + amount, holder_amount: t.holder_amount + amount, ..t });
        proof {
            assert(self@.mints =~= old(self)@.mints.update(i as int, self@.mints[i as int]));
            assert forall|j: int| 0 <= j < self@.mints.len() implies
                #[trigger] self@.mints[j].address@ == old(self)@.mints[j].address@ by {}
            assert forall|j: int, k: int| 0 <= j < k < self@.mints.len() implies
                #[trigger] self@.mints[j].address@ != #[trigger] self@.mints[k].address@ by {
                assert(old(self)@.mints[j].address@ != old(self)@.mints[k].address@);
            }
            assert(self@.records == old(self)@.records);
        }
        Ok(())
    }

    /// The mint instruction: checks the URI, derives the owner's record slot,
    /// and, where neither the slot nor the mint address is taken, creates the
    /// record, mints one unit into the owner's account, creates the display
    /// metadata and the master edition, which takes over the mint authority.
    /// On any failure nothing changes.
    pub fn mint_metaid(&mut self, owner: Address, metadata_uri: String, mint: Address, now: i64) -> (r: Result<(), MintError>)
        requires
            old(self)@.wf(),
        ensures
            final(self)@.wf(),
            r == old(self)@.mint_outcome(owner@, metadata_uri@, mint@),
            r is Ok ==> old(self)@.minted(final(self)@, owner, metadata_uri@, mint, now),
            r is Err ==> final(self)@ == old(self)@,
    {
        if let Err(e) = validate_metadata_uri(metadata_uri.as_str()) {
            return Err(MintError::Invalid(e));
        }
        let (slot, bump) = match derive_record_slot(&self.program_id, &owner) {
            Some(p) => p,
            None => return Err(MintError::NoRecordSlot),
        };
        if self.slot_position(&slot).is_some() || self.mint_position(&mint).is_some() {
            return Err(MintError::AccountInUse);
        }
        let ghost pre = self@;
        let args = MetadataArgs::for_owner(owner, metadata_uri.clone());
        let data = MetaIdData::new(owner, metadata_uri, now, mint, bump);
        self.records.push(IdentityAccount { slot, data });
        self.mints.push(
            TokenMint {
                address: mint,
                decimals: MINT_DECIMALS,
                supply: 0,
                mint_authority: Some(owner),
                holder: owner,
                holder_amount: 0,
            },
        );
        proof {
            assert(self@.wf()) by {
                assert forall|i: int, j: int| 0 <= i < j < self@.mints.len() implies
                    #[trigger] self@.mints[i].address@ != #[trigger] self@.mints[j].address@ by {
                    if j == self@.mints.len() - 1 {
                        assert(pre.mints[i] == self@.mints[i]);
                    }
                }
                assert forall|i: int, j: int| 0 <= i < j < self@.records.len() implies
                    #[trigger] self@.records[i].slot@ != #[trigger] self@.records[j].slot@ by {
                    if j == self@.records.len() - 1 {
                        assert(pre.records[i] == self@.records[i]);
                    }
                }
            }
            assert(self@.mints[self@.mints.len() - 1].address@ == mint@);
        }
        let minted = self.mint_to(&mint, &owner, MINT_AMOUNT);
        assert(minted is Ok);
        // The metadata record, with the master edition that caps the supply
        // and takes the mint authority away from the owner.
        self.metadata.push(MetadataAccount { mint, args, edition_max_supply: Some(EDITION_MAX_SUPPLY) });
        let last = self.mints.len() - 1;
        let t = self.mints[last];
        self.mints.set(last, TokenMint { mint_authority: None, ..t });
        proof {
            assert(self@.records.drop_last() =~= pre.records);
            assert(self@.metadata.drop_last() =~= pre.metadata);
        }
        Ok(())
    }
}

} // verus!
