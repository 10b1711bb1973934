//! The transaction account store: owns the host-side account records for the
//! lifetime of a transaction, vends scoped read and write leases under the
//! borrow-counter protocol, and tracks cumulative data-resize and lamport
//! deltas against per-transaction caps.

use vstd::prelude::*;
use vstd::slice::slice_to_vec;
use crate::borrow_counter::{BorrowCounter, CounterEvent, event_allowed, event_step};
use crate::errors::InstructionError;

verus! {

/// A 32-byte account address.
pub type Pubkey = [u8; 32];

/// The index of an account within a transaction's account list.
pub type IndexOfAccount = u16;

/// The absolute cap on one account's payload length.
pub const MAX_ACCOUNT_DATA_LEN: u64 = 10 * 1024 * 1024;

/// The cap on the total payload growth across one transaction.
pub const MAX_ACCOUNT_DATA_GROWTH_PER_TRANSACTION: i64 = 20 * 1024 * 1024;

/// An account as loaded for a transaction: its balance, payload, owner, and
/// the two legacy fields kept apart from the guest-visible descriptor.
pub struct AccountSharedData {
    /// The account balance in lamports.
    pub lamports: u64,
    /// The account's data payload.
    pub data: Vec<u8>,
    /// The address of the program owning this account.
    pub owner: Pubkey,
    /// Whether the account holds an executable program.
    pub executable: bool,
    /// The legacy rent-epoch field.
    pub rent_epoch: u64,
}

impl AccountSharedData {
    /// A fresh account: the given balance and owner, `space` zero bytes of
    /// payload, not executable, rent epoch zero.
    pub fn new(lamports: u64, space: usize, owner: &Pubkey) -> (r: AccountSharedData)
        ensures
            r.lamports == lamports,
            r.data@ == Seq::new(space as nat, |i: int| 0u8),
            r.owner == *owner,
            r.executable == false,
            r.rent_epoch == 0,
    {
        let data: Vec<u8> = vec![0u8; space];
        proof {
            assert(data@ =~= Seq::new(space as nat, |i: int| 0u8));
        }
        AccountSharedData { lamports, data, owner: *owner, executable: false, rent_epoch: 0 }
    }
}

/// An account key and the matching account.
pub type TransactionAccount = (Pubkey, AccountSharedData);

/// The logical content of one stored account, key included.
pub ghost struct AccountView {
    /// The account's address.
    pub key: Seq<u8>,
    /// The owning program's address.
    pub owner: Seq<u8>,
    /// The balance in lamports.
    pub lamports: u64,
    /// The data payload.
    pub data: Seq<u8>,
    /// Whether the account holds an executable program.
    pub executable: bool,
    /// The legacy rent-epoch field.
    pub rent_epoch: u64,
}

/// The logical content of a loaded account pair.
pub open spec fn account_view_of(t: TransactionAccount) -> AccountView {
    AccountView {
        key: t.0@,
        owner: t.1.owner@,
        lamports: t.1.lamports,
        data: t.1.data@,
        executable: t.1.executable,
        rent_epoch: t.1.rent_epoch,
    }
}

/// The value a saturating signed-64-bit computation yields for the
/// mathematical result `x`.
pub open spec fn sat_i64(x: int) -> int {
    if x > i64::MAX {
        i64::MAX as int
    } else if x < i64::MIN {
        i64::MIN as int
    } else {
        x
    }
}

/// The plain sum of `new_len - old_len` over a sequence of resize updates.
pub open spec fn total_resize(pairs: Seq<(int, int)>) -> int
    decreases pairs.len(),
{
    if pairs.len() == 0 {
        0
    } else {
        total_resize(pairs.drop_last()) + (pairs.last().1 - pairs.last().0)
    }
}

/// The running resize delta after a sequence of `(old_len, new_len)`
/// updates, each applied with saturating accumulation as
/// `update_accounts_resize_delta` does.
pub open spec fn resize_delta_after(pairs: Seq<(int, int)>) -> int
    decreases pairs.len(),
{
    if pairs.len() == 0 {
        0
    } else {
        sat_i64(resize_delta_after(pairs.drop_last()) + (pairs.last().1 - pairs.last().0))
    }
}

/// Resize accounting: as long as no intermediate total leaves the signed
/// 64-bit range, the running delta after a sequence of updates equals the
/// plain sum of `new_len - old_len` across all of them.
pub proof fn lemma_resize_accumulation(pairs: Seq<(int, int)>)
    requires
        forall|k: int|
            0 <= k <= pairs.len() ==> i64::MIN <= #[trigger] total_resize(pairs.take(k))
                <= i64::MAX,
    ensures
        resize_delta_after(pairs) == total_resize(pairs),
    decreases pairs.len(),
{
    if pairs.len() > 0 {
        let prefix = pairs.drop_last();
        assert forall|k: int|
            0 <= k <= prefix.len() implies i64::MIN <= #[trigger] total_resize(prefix.take(k))
            <= i64::MAX by {
            assert(prefix.take(k) =~= pairs.take(k));
        }
        lemma_resize_accumulation(prefix);
        assert(pairs.take(pairs.len() as int) =~= pairs);
        assert(i64::MIN <= total_resize(pairs) <= i64::MAX);
    }
}

/// Building the store from a loaded account set and immediately
/// reassembling the owned accounts returns exactly the inputs' content:
/// what `new` stores is the inputs' view, and what reassembly returns is
/// the stored view, so the two account lists agree entry by entry.
pub proof fn lemma_store_round_trip(
    accounts: Seq<TransactionAccount>,
    stored: Seq<AccountView>,
    reassembled: Seq<TransactionAccount>,
)
    requires
        stored.len() == accounts.len(),
        forall|k: int| 0 <= k < accounts.len() ==> stored[k] == account_view_of(#[trigger] accounts[k]),
        reassembled.len() == stored.len(),
        forall|k: int|
            0 <= k < reassembled.len() ==> account_view_of(#[trigger] reassembled[k]) == stored[k],
    ensures
        reassembled.len() == accounts.len(),
        forall|k: int|
            0 <= k < accounts.len() ==> account_view_of(#[trigger] reassembled[k])
                == account_view_of(accounts[k]),
{
}

// The hot metadata visible to the guest descriptor table.
struct SVMAccount {
    key: Pubkey,
    owner: Pubkey,
    lamports: u64,
}

// The cold fields kept apart from the guest-visible descriptor.
struct PrivateAccountFields {
    rent_epoch: u64,
    executable: bool,
    payload: Vec<u8>,
}

/// The per-transaction account table: hot metadata, cold fields and payloads
/// in parallel arrays, one borrow counter and one sticky touch flag per
/// account, and the two running deltas.
pub struct TransactionAccounts {
    shared_account_metadata: Vec<SVMAccount>,
    private_account_fields: Vec<PrivateAccountFields>,
    borrow_counters: Vec<BorrowCounter>,
    touched_flags: Vec<bool>,
    resize_delta: i64,
    lamports_delta: i128,
}

impl View for TransactionAccounts {
    type V = Seq<AccountView>;

    closed spec fn view(&self) -> Seq<AccountView> {
        Seq::new(
            self.shared_account_metadata@.len(),
            |k: int|
                AccountView {
                    key: self.shared_account_metadata@[k].key@,
                    owner: self.shared_account_metadata@[k].owner@,
                    lamports: self.shared_account_metadata@[k].lamports,
                    data: self.private_account_fields@[k].payload@,
                    executable: self.private_account_fields@[k].executable,
                    rent_epoch: self.private_account_fields@[k].rent_epoch,
                },
        )
    }
}

/// An immutable lease on one account: a read view of the account's content
/// at the moment it was taken, tied to the reader count of that account.
#[derive(Debug, PartialEq, Eq)]
pub struct AccountRef {
    index: IndexOfAccount,
    lamports: u64,
    data: Vec<u8>,
    owner: Pubkey,
    executable: bool,
    rent_epoch: u64,
}

impl AccountRef {
    /// The index of the leased account.
    pub closed spec fn spec_index(self) -> int {
        self.index as int
    }

    /// The balance this lease reads.
    pub closed spec fn spec_lamports(self) -> u64 {
        self.lamports
    }

    /// The payload this lease reads.
    pub closed spec fn spec_data(self) -> Seq<u8> {
        self.data@
    }

    /// The owner this lease reads.
    pub closed spec fn spec_owner(self) -> Seq<u8> {
        self.owner@
    }

    /// The executable flag this lease reads.
    pub closed spec fn spec_executable(self) -> bool {
        self.executable
    }

    /// The rent epoch this lease reads.
    pub closed spec fn spec_rent_epoch(self) -> u64 {
        self.rent_epoch
    }

    /// Whether this lease reads exactly the content `v` (the key is not part
    /// of a lease).
    pub open spec fn matches(self, v: AccountView) -> bool {
        &&& self.spec_lamports() == v.lamports
        &&& self.spec_data() == v.data
        &&& self.spec_owner() == v.owner
        &&& self.spec_executable() == v.executable
        &&& self.spec_rent_epoch() == v.rent_epoch
    }

    /// The balance of the leased account.
    pub fn lamports(&self) -> (r: u64)
        ensures
            r == self.spec_lamports(),
    {
        self.lamports
    }

    /// The payload of the leased account.
    pub fn data(&self) -> (r: &[u8])
        ensures
            r@ == self.spec_data(),
    {
        self.data.as_slice()
    }

    /// The owner of the leased account.
    pub fn owner(&self) -> (r: &Pubkey)
        ensures
            r@ == self.spec_owner(),
    {
        &self.owner
    }

    /// Whether the leased account is executable.
    pub fn executable(&self) -> (r: bool)
        ensures
            r == self.spec_executable(),
    {
        self.executable
    }

    /// The rent epoch of the leased account.
    pub fn rent_epoch(&self) -> (r: u64)
        ensures
            r == self.spec_rent_epoch(),
    {
        self.rent_epoch
    }
}

/// An exclusive lease on one account: a write view whose changes are applied
/// to the store when the lease is released.
pub struct AccountRefMut {
    index: IndexOfAccount,
    lamports: u64,
    data: Vec<u8>,
    owner: Pubkey,
    executable: bool,
    rent_epoch: u64,
}

impl AccountRefMut {
    /// The index of the leased account.
    pub closed spec fn spec_index(self) -> int {
        self.index as int
    }

    /// The balance this lease holds.
    pub closed spec fn spec_lamports(self) -> u64 {
        self.lamports
    }

    /// The payload this lease holds.
    pub closed spec fn spec_data(self) -> Seq<u8> {
        self.data@
    }

    /// The owner this lease holds.
    pub closed spec fn spec_owner(self) -> Seq<u8> {
        self.owner@
    }

    /// The executable flag this lease holds.
    pub closed spec fn spec_executable(self) -> bool {
        self.executable
    }

    /// The rent epoch this lease holds.
    pub closed spec fn spec_rent_epoch(self) -> u64 {
        self.rent_epoch
    }

    /// Whether this lease holds exactly the content `v` (the key is not part
    /// of a lease).
    pub open spec fn matches(self, v: AccountView) -> bool {
        &&& self.spec_lamports() == v.lamports
        &&& self.spec_data() == v.data
        &&& self.spec_owner() == v.owner
        &&& self.spec_executable() == v.executable
        &&& self.spec_rent_epoch() == v.rent_epoch
    }

    /// The content this lease holds, under the key `key`: what the store
    /// will record when the lease is released.
    pub open spec fn as_view(self, key: Seq<u8>) -> AccountView {
        AccountView {
            key,
            owner: self.spec_owner(),
            lamports: self.spec_lamports(),
            data: self.spec_data(),
            executable: self.spec_executable(),
            rent_epoch: self.spec_rent_epoch(),
        }
    }

    /// The balance this lease holds.
    pub fn lamports(&self) -> (r: u64)
        ensures
            r == self.spec_lamports(),
    {
        self.lamports
    }

    /// The payload this lease holds.
    pub fn data(&self) -> (r: &[u8])
        ensures
            r@ == self.spec_data(),
    {
        self.data.as_slice()
    }

    /// The owner this lease holds.
    pub fn owner(&self) -> (r: &Pubkey)
        ensures
            r@ == self.spec_owner(),
    {
        &self.owner
    }

    /// The executable flag this lease holds.
    pub fn executable(&self) -> (r: bool)
        ensures
            r == self.spec_executable(),
    {
        self.executable
    }

    /// The rent epoch this lease holds.
    pub fn rent_epoch(&self) -> (r: u64)
        ensures
            r == self.spec_rent_epoch(),
    {
        self.rent_epoch
    }

    /// Sets the balance this lease holds.
    pub fn set_lamports(&mut self, lamports: u64)
        ensures
            final(self).spec_index() == old(self).spec_index(),
            final(self).spec_lamports() == lamports,
            final(self).spec_data() == old(self).spec_data(),
            final(self).spec_owner() == old(self).spec_owner(),
            final(self).spec_executable() == old(self).spec_executable(),
            final(self).spec_rent_epoch() == old(self).spec_rent_epoch(),
    {
        self.lamports = lamports;
    }

    /// Replaces the payload this lease holds.
    pub fn set_data(&mut self, data: Vec<u8>)
        ensures
            final(self).spec_index() == old(self).spec_index(),
            final(self).spec_lamports() == old(self).spec_lamports(),
            final(self).spec_data() == data@,
            final(self).spec_owner() == old(self).spec_owner(),
            final(self).spec_executable() == old(self).spec_executable(),
            final(self).spec_rent_epoch() == old(self).spec_rent_epoch(),
    {
        self.data = data;
    }

    /// Sets the owner this lease holds.
    pub fn set_owner(&mut self, owner: Pubkey)
        ensures
            final(self).spec_index() == old(self).spec_index(),
            final(self).spec_lamports() == old(self).spec_lamports(),
            final(self).spec_data() == old(self).spec_data(),
            final(self).spec_owner() == owner@,
            final(self).spec_executable() == old(self).spec_executable(),
            final(self).spec_rent_epoch() == old(self).spec_rent_epoch(),
    {
        self.owner = owner;
    }

    /// Overwrites the owner this lease holds with the 32 bytes of `source`.
    pub fn copy_into_owner_from_slice(&mut self, source: &[u8])
        requires
            source@.len() == 32,
        ensures
            final(self).spec_index() == old(self).spec_index(),
            final(self).spec_lamports() == old(self).spec_lamports(),
            final(self).spec_data() == old(self).spec_data(),
            final(self).spec_owner() == source@,
            final(self).spec_executable() == old(self).spec_executable(),
            final(self).spec_rent_epoch() == old(self).spec_rent_epoch(),
    {
        for j in 0..32usize
            invariant
                source@.len() == 32,
                self.index == old(self).index,
                self.lamports == old(self).lamports,
                self.data == old(self).data,
                self.executable == old(self).executable,
                self.rent_epoch == old(self).rent_epoch,
                self.owner@.len() == 32,
                forall|i: int| 0 <= i < j ==> self.owner@[i] == source@[i],
        {
            self.owner[j] = source[j];
        }
        proof {
            assert(self.owner@ =~= source@);
        }
    }

    /// Sets the executable flag this lease holds.
    pub fn set_executable(&mut self, executable: bool)
        ensures
            final(self).spec_index() == old(self).spec_index(),
            final(self).spec_lamports() == old(self).spec_lamports(),
            final(self).spec_data() == old(self).spec_data(),
            final(self).spec_owner() == old(self).spec_owner(),
            final(self).spec_executable() == executable,
            final(self).spec_rent_epoch() == old(self).spec_rent_epoch(),
    {
        self.executable = executable;
    }

    /// Sets the rent epoch this lease holds.
    pub fn set_rent_epoch(&mut self, epoch: u64)
        ensures
            final(self).spec_index() == old(self).spec_index(),
            final(self).spec_lamports() == old(self).spec_lamports(),
            final(self).spec_data() == old(self).spec_data(),
            final(self).spec_owner() == old(self).spec_owner(),
            final(self).spec_executable() == old(self).spec_executable(),
            final(self).spec_rent_epoch() == epoch,
    {
        self.rent_epoch = epoch;
    }
}

impl TransactionAccounts {
    #[verifier::type_invariant]
    spec fn type_inv(self) -> bool {
        &&& self.private_account_fields@.len() == self.shared_account_metadata@.len()
        &&& self.borrow_counters@.len() == self.shared_account_metadata@.len()
        &&& self.touched_flags@.len() == self.shared_account_metadata@.len()
    }

    /// The borrow-counter values, one per account.
    pub closed spec fn spec_counters(&self) -> Seq<int> {
        Seq::new(self.borrow_counters@.len(), |k: int| self.borrow_counters@[k].spec_count())
    }

    /// The sticky touch flags, one per account.
    pub closed spec fn spec_touched(&self) -> Seq<bool> {
        self.touched_flags@
    }

    /// The running total of payload-length changes this transaction.
    pub closed spec fn spec_resize_delta(&self) -> int {
        self.resize_delta as int
    }

    /// The running 128-bit total of lamport changes this transaction.
    pub closed spec fn spec_lamports_delta(&self) -> int {
        self.lamports_delta as int
    }

    /// Creates the store from the loaded account set: every account's
    /// content is copied in, every counter is free, no account is touched,
    /// and both running deltas are zero.
    pub fn new(accounts: Vec<TransactionAccount>) -> (r: TransactionAccounts)
        ensures
            r@.len() == accounts@.len(),
            forall|k: int| 0 <= k < accounts@.len() ==> r@[k] == account_view_of(accounts@[k]),
            r.spec_counters() == Seq::new(accounts@.len(), |k: int| 0int),
            r.spec_touched() == Seq::new(accounts@.len(), |k: int| false),
            r.spec_resize_delta() == 0,
            r.spec_lamports_delta() == 0,
    {
        let n = accounts.len();
        let mut shared_accounts: Vec<SVMAccount> = Vec::new();
        let mut private_fields: Vec<PrivateAccountFields> = Vec::new();
        let mut borrow_counters: Vec<BorrowCounter> = Vec::new();
        let mut touched_flags: Vec<bool> = Vec::new();
        for k in 0..n
            invariant
                n == accounts@.len(),
                shared_accounts@.len() == k,
                private_fields@.len() == k,
                borrow_counters@.len() == k,
                touched_flags@.len() == k,
                forall|i: int| 0 <= i < k ==> {
                    &&& (#[trigger] shared_accounts@[i]).key == accounts@[i].0
                    &&& shared_accounts@[i].owner == accounts@[i].1.owner
                    &&& shared_accounts@[i].lamports == accounts@[i].1.lamports
                },
                forall|i: int| 0 <= i < k ==> {
                    &&& (#[trigger] private_fields@[i]).payload@ == accounts@[i].1.data@
                    &&& private_fields@[i].executable == accounts@[i].1.executable
                    &&& private_fields@[i].rent_epoch == accounts@[i].1.rent_epoch
                },
                forall|i: int| 0 <= i < k ==> (#[trigger] borrow_counters@[i]).spec_count() == 0,
                forall|i: int| 0 <= i < k ==> (#[trigger] touched_flags@[i]) == false,
        {
            let item = &accounts[k];
            shared_accounts.push(
                SVMAccount { key: item.0, owner: item.1.owner, lamports: item.1.lamports },
            );
            private_fields.push(
                PrivateAccountFields {
                    rent_epoch: item.1.rent_epoch,
                    executable: item.1.executable,
                    payload: slice_to_vec(item.1.data.as_slice()),
                },
            );
            borrow_counters.push(BorrowCounter::default());
            touched_flags.push(false);
        }
        let r = TransactionAccounts {
            shared_account_metadata: shared_accounts,
            private_account_fields: private_fields,
            borrow_counters,
            touched_flags,
            resize_delta: 0,
            lamports_delta: 0,
        };
        proof {
            assert(r.spec_counters() =~= Seq::new(accounts@.len(), |k: int| 0int));
            assert(r.spec_touched() =~= Seq::new(accounts@.len(), |k: int| false));
        }
        r
    }

    /// The number of accounts in the store.
    pub fn len(&self) -> (n: usize)
        ensures
            n == self@.len(),
    {
        self.shared_account_metadata.len()
    }

    /// Marks account `index` as observed; `MissingAccount` when the index is
    /// out of range. Nothing else changes either way.
    pub fn touch(&mut self, index: IndexOfAccount) -> (r: Result<(), InstructionError>)
        ensures
            final(self)@ == old(self)@,
            final(self).spec_counters() == old(self).spec_counters(),
            final(self).spec_resize_delta() == old(self).spec_resize_delta(),
            final(self).spec_lamports_delta() == old(self).spec_lamports_delta(),
            (index as int) < old(self)@.len() ==> r == Ok::<(), InstructionError>(())
                && final(self).spec_touched() == old(self).spec_touched().update(index as int, true),
            (index as int) >= old(self)@.len() ==> r == Err::<(), InstructionError>(
                InstructionError::MissingAccount,
            ) && final(self).spec_touched() == old(self).spec_touched(),
    {
        proof {
            use_type_invariant(&*self);
        }
        let idx = index as usize;
        if idx < self.touched_flags.len() {
            self.touched_flags[idx] = true;
            Ok(())
        } else {
            Err(InstructionError::MissingAccount)
        }
    }

    /// Adds `new_len - old_len` to the running resize delta, saturating.
    /// Both lengths are payload lengths and so fit a signed 64-bit value.
    pub fn update_accounts_resize_delta(&mut self, old_len: usize, new_len: usize) -> (r: Result<
        (),
        InstructionError,
    >)
        requires
            old_len <= i64::MAX,
            new_len <= i64::MAX,
        ensures
            r == Ok::<(), InstructionError>(()),
            final(self)@ == old(self)@,
            final(self).spec_counters() == old(self).spec_counters(),
            final(self).spec_touched() == old(self).spec_touched(),
            final(self).spec_lamports_delta() == old(self).spec_lamports_delta(),
            final(self).spec_resize_delta() == sat_i64(
                old(self).spec_resize_delta() + new_len - old_len,
            ),
    {
        proof {
            use_type_invariant(&*self);
        }
        let length_delta: i64 = (new_len as i64) - (old_len as i64);
        self.resize_delta = match self.resize_delta.checked_add(length_delta) {
            Some(v) => v,
            None => {
                if length_delta > 0 {
                    i64::MAX
                } else {
                    i64::MIN
                }
            },
        };
        Ok(())
    }

    /// Whether a payload may grow from `old_len` to `new_len`:
    /// `InvalidRealloc` when `new_len` exceeds the absolute payload cap,
    /// `MaxAccountsDataAllocationsExceeded` when the running delta plus the
    /// change would exceed the per-transaction growth cap, and success
    /// otherwise. Both lengths are payload lengths and so fit a signed
    /// 64-bit value.
    pub fn can_data_be_resized(&self, old_len: usize, new_len: usize) -> (r: Result<
        (),
        InstructionError,
    >)
        requires
            old_len <= i64::MAX,
            new_len <= i64::MAX,
        ensures
            r == if new_len > MAX_ACCOUNT_DATA_LEN {
                Err::<(), InstructionError>(InstructionError::InvalidRealloc)
            } else if self.spec_resize_delta() + new_len - old_len
                > MAX_ACCOUNT_DATA_GROWTH_PER_TRANSACTION as int {
                Err::<(), InstructionError>(InstructionError::MaxAccountsDataAllocationsExceeded)
            } else {
                Ok::<(), InstructionError>(())
            },
    {
        if new_len as u64 > MAX_ACCOUNT_DATA_LEN {
            return Err(InstructionError::InvalidRealloc);
        }
        let length_delta: i64 = (new_len as i64) - (old_len as i64);
        let projected: i64 = match self.resize_delta.checked_add(length_delta) {
            Some(v) => v,
            None => {
                if length_delta > 0 {
                    i64::MAX
                } else {
                    i64::MIN
                }
            },
        };
        if projected > MAX_ACCOUNT_DATA_GROWTH_PER_TRANSACTION {
            return Err(InstructionError::MaxAccountsDataAllocationsExceeded);
        }
        Ok(())
    }

    /// Takes an immutable lease on account `index`: `MissingAccount` when
    /// the index is out of range; `AccountBorrowFailed` when a writer holds
    /// the account or the reader count is at its cap; otherwise the reader
    /// count rises by one and the lease reads exactly the stored content.
    pub fn try_borrow(&mut self, index: IndexOfAccount) -> (r: Result<AccountRef, InstructionError>)
        ensures
            final(self)@ == old(self)@,
            final(self).spec_touched() == old(self).spec_touched(),
            final(self).spec_resize_delta() == old(self).spec_resize_delta(),
            final(self).spec_lamports_delta() == old(self).spec_lamports_delta(),
            (index as int) >= old(self)@.len() ==> r == Err::<AccountRef, InstructionError>(
                InstructionError::MissingAccount,
            ) && final(self).spec_counters() == old(self).spec_counters(),
            (index as int) < old(self)@.len() && !event_allowed(
                old(self).spec_counters()[index as int],
                CounterEvent::Borrow,
            ) ==> r == Err::<AccountRef, InstructionError>(InstructionError::AccountBorrowFailed)
                && final(self).spec_counters() == old(self).spec_counters(),
            (index as int) < old(self)@.len() && event_allowed(
                old(self).spec_counters()[index as int],
                CounterEvent::Borrow,
            ) ==> ({
                &&& r matches Ok(a)
                &&& a.spec_index() == index as int
                &&& a.matches(old(self)@[index as int])
                &&& final(self).spec_counters() == old(self).spec_counters().update(
                    index as int,
                    event_step(old(self).spec_counters()[index as int], CounterEvent::Borrow),
                )
            }),
    {
        proof {
            use_type_invariant(&*self);
        }
        let idx = index as usize;
        if idx >= self.shared_account_metadata.len() {
            return Err(InstructionError::MissingAccount);
        }
        match self.borrow_counters[idx].try_borrow() {
            Ok(()) => {
                proof {
                    assert(final(self).spec_counters() =~= old(self).spec_counters().update(
                        index as int,
                        event_step(old(self).spec_counters()[index as int], CounterEvent::Borrow),
                    ));
                }
                let shared = &self.shared_account_metadata[idx];
                let private = &self.private_account_fields[idx];
                Ok(
                    AccountRef {
                        index,
                        lamports: shared.lamports,
                        data: slice_to_vec(private.payload.as_slice()),
                        owner: shared.owner,
                        executable: private.executable,
                        rent_epoch: private.rent_epoch,
                    },
                )
            },
            Err(e) => {
                proof {
                    assert(final(self).spec_counters() =~= old(self).spec_counters());
                }
                Err(e)
            },
        }
    }

    /// Takes the exclusive lease on account `index`: `MissingAccount` when
    /// the index is out of range; `AccountBorrowFailed` when any lease is
    /// outstanding; otherwise the counter marks the writer and the lease
    /// holds exactly the stored content.
    pub fn try_borrow_mut(&mut self, index: IndexOfAccount) -> (r: Result<
        AccountRefMut,
        InstructionError,
    >)
        ensures
            final(self)@ == old(self)@,
            final(self).spec_touched() == old(self).spec_touched(),
            final(self).spec_resize_delta() == old(self).spec_resize_delta(),
            final(self).spec_lamports_delta() == old(self).spec_lamports_delta(),
            (index as int) >= old(self)@.len() ==> r == Err::<AccountRefMut, InstructionError>(
                InstructionError::MissingAccount,
            ) && final(self).spec_counters() == old(self).spec_counters(),
            (index as int) < old(self)@.len() && !event_allowed(
                old(self).spec_counters()[index as int],
                CounterEvent::BorrowMut,
            ) ==> r == Err::<AccountRefMut, InstructionError>(InstructionError::AccountBorrowFailed)
                && final(self).spec_counters() == old(self).spec_counters(),
            (index as int) < old(self)@.len() && event_allowed(
                old(self).spec_counters()[index as int],
                CounterEvent::BorrowMut,
            ) ==> ({
                &&& r matches Ok(a)
                &&& a.spec_index() == index as int
                &&& a.matches(old(self)@[index as int])
                &&& final(self).spec_counters() == old(self).spec_counters().update(
                    index as int,
                    event_step(old(self).spec_counters()[index as int], CounterEvent::BorrowMut),
                )
            }),
    {
        proof {
            use_type_invariant(&*self);
        }
        let idx = index as usize;
        if idx >= self.shared_account_metadata.len() {
            return Err(InstructionError::MissingAccount);
        }
        match self.borrow_counters[idx].try_borrow_mut() {
            Ok(()) => {
                proof {
                    assert(final(self).spec_counters() =~= old(self).spec_counters().update(
                        index as int,
                        event_step(
                            old(self).spec_counters()[index as int],
                            CounterEvent::BorrowMut,
                        ),
                    ));
                }
                let shared = &self.shared_account_metadata[idx];
                let private = &self.private_account_fields[idx];
                Ok(
                    AccountRefMut {
                        index,
                        lamports: shared.lamports,
                        data: slice_to_vec(private.payload.as_slice()),
                        owner: shared.owner,
                        executable: private.executable,
                        rent_epoch: private.rent_epoch,
                    },
                )
            },
            Err(e) => {
                proof {
                    assert(final(self).spec_counters() =~= old(self).spec_counters());
                }
                Err(e)
            },
        }
    }

    /// Returns an immutable lease: the reader count of its account drops by
    /// one, and nothing else changes.
    pub fn release_borrow(&mut self, lease: AccountRef)
        requires
            lease.spec_index() < old(self)@.len(),
            event_allowed(old(self).spec_counters()[lease.spec_index()], CounterEvent::Release),
        ensures
            final(self)@ == old(self)@,
            final(self).spec_touched() == old(self).spec_touched(),
            final(self).spec_resize_delta() == old(self).spec_resize_delta(),
            final(self).spec_lamports_delta() == old(self).spec_lamports_delta(),
            final(self).spec_counters() == old(self).spec_counters().update(
                lease.spec_index(),
                event_step(old(self).spec_counters()[lease.spec_index()], CounterEvent::Release),
            ),
    {
        proof {
            use_type_invariant(&*self);
        }
        let idx = lease.index as usize;
        self.borrow_counters[idx].release_borrow();
        proof {
            assert(final(self).spec_counters() =~= old(self).spec_counters().update(
                lease.spec_index(),
                event_step(old(self).spec_counters()[lease.spec_index()], CounterEvent::Release),
            ));
        }
    }

    /// Returns the exclusive lease: the lease's content is written back to
    /// its account — the key alone is immutable — the counter steps back
    /// toward free, and nothing else changes.
    pub fn release_borrow_mut(&mut self, lease: AccountRefMut)
        requires
            lease.spec_index() < old(self)@.len(),
            event_allowed(old(self).spec_counters()[lease.spec_index()], CounterEvent::ReleaseMut),
        ensures
            final(self)@ == old(self)@.update(
                lease.spec_index(),
                lease.as_view(old(self)@[lease.spec_index()].key),
            ),
            final(self).spec_touched() == old(self).spec_touched(),
            final(self).spec_resize_delta() == old(self).spec_resize_delta(),
            final(self).spec_lamports_delta() == old(self).spec_lamports_delta(),
            final(self).spec_counters() == old(self).spec_counters().update(
                lease.spec_index(),
                event_step(old(self).spec_counters()[lease.spec_index()], CounterEvent::ReleaseMut),
            ),
    {
        proof {
            use_type_invariant(&*self);
        }
        let AccountRefMut { index, lamports, data, owner, executable, rent_epoch } = lease;
        let idx = index as usize;
        let key = self.shared_account_metadata[idx].key;
        self.shared_account_metadata[idx] = SVMAccount { key, owner, lamports };
        self.private_account_fields[idx] = PrivateAccountFields {
            rent_epoch,
            executable,
            payload: data,
        };
        self.borrow_counters[idx].release_borrow_mut();
        proof {
            assert(final(self)@ =~= old(self)@.update(
                idx as int,
                AccountView {
                    key: old(self)@[idx as int].key,
                    owner: owner@,
                    lamports,
                    data: final(self)@[idx as int].data,
                    executable,
                    rent_epoch,
                },
            ));
            assert(final(self).spec_counters() =~= old(self).spec_counters().update(
                idx as int,
                event_step(old(self).spec_counters()[idx as int], CounterEvent::ReleaseMut),
            ));
        }
    }

    /// Adds `balance` to the running 128-bit lamport delta; fails with
    /// `ArithmeticOverflow`, changing nothing, exactly when the checked
    /// addition overflows.
    pub fn add_lamports_delta(&mut self, balance: i128) -> (r: Result<(), InstructionError>)
        ensures
            final(self)@ == old(self)@,
            final(self).spec_counters() == old(self).spec_counters(),
            final(self).spec_touched() == old(self).spec_touched(),
            final(self).spec_resize_delta() == old(self).spec_resize_delta(),
            i128::MIN <= old(self).spec_lamports_delta() + balance <= i128::MAX ==> r == Ok::<
                (),
                InstructionError,
            >(()) && final(self).spec_lamports_delta() == old(self).spec_lamports_delta() + balance,
            !(i128::MIN <= old(self).spec_lamports_delta() + balance <= i128::MAX) ==> r == Err::<
                (),
                InstructionError,
            >(InstructionError::ArithmeticOverflow)
                && final(self).spec_lamports_delta() == old(self).spec_lamports_delta(),
    {
        proof {
            use_type_invariant(&*self);
        }
        match self.lamports_delta.checked_add(balance) {
            Some(v) => {
                self.lamports_delta = v;
                Ok(())
            },
            None => Err(InstructionError::ArithmeticOverflow),
        }
    }

    /// The running 128-bit lamport delta.
    pub fn get_lamports_delta(&self) -> (r: i128)
        ensures
            r == self.spec_lamports_delta(),
    {
        self.lamports_delta
    }

    /// The running payload-resize delta.
    pub fn resize_delta(&self) -> (r: i64)
        ensures
            r == self.spec_resize_delta(),
    {
        self.resize_delta
    }

    /// The key of account `index`, when the index is in range.
    pub fn account_key(&self, index: IndexOfAccount) -> (r: Option<Pubkey>)
        ensures
            (index as int) < self@.len() ==> ({
                &&& r matches Some(k)
                &&& k@ == self@[index as int].key
            }),
            (index as int) >= self@.len() ==> r is None,
    {
        let idx = index as usize;
        if idx < self.shared_account_metadata.len() {
            Some(self.shared_account_metadata[idx].key)
        } else {
            None
        }
    }

    /// The key column of the account table, in account order.
    pub fn account_keys(&self) -> (r: Vec<Pubkey>)
        ensures
            r@.len() == self@.len(),
            forall|k: int| 0 <= k < r@.len() ==> (#[trigger] r@[k])@ == self@[k].key,
    {
        let n = self.shared_account_metadata.len();
        let mut out: Vec<Pubkey> = Vec::new();
        for k in 0..n
            invariant
                n == self@.len(),
                n == self.shared_account_metadata@.len(),
                out@.len() == k,
                forall|i: int| 0 <= i < k ==> (#[trigger] out@[i])@ == self@[i].key,
        {
            out.push(self.shared_account_metadata[k].key);
        }
        out
    }

    /// Consumes the store and reassembles the owned account list: each
    /// account's key and current content, in account order.
    pub fn into_account_shared_data(self) -> (r: Vec<TransactionAccount>)
        ensures
            r@.len() == self@.len(),
            forall|k: int| 0 <= k < r@.len() ==> account_view_of(#[trigger] r@[k]) == self@[k],
    {
        proof {
            use_type_invariant(&self);
        }
        let n = self.shared_account_metadata.len();
        let mut out: Vec<TransactionAccount> = Vec::new();
        for k in 0..n
            invariant
                n == self@.len(),
                n == self.shared_account_metadata@.len(),
                n == self.private_account_fields@.len(),
                out@.len() == k,
                forall|i: int| 0 <= i < k ==> account_view_of(#[trigger] out@[i]) == self@[i],
        {
            let shared = &self.shared_account_metadata[k];
            let private = &self.private_account_fields[k];
            out.push(
                (
                    shared.key,
                    AccountSharedData {
                        lamports: shared.lamports,
                        data: slice_to_vec(private.payload.as_slice()),
                        owner: shared.owner,
                        executable: private.executable,
                        rent_epoch: private.rent_epoch,
                    },
                ),
            );
        }
        out
    }
}

} // verus!
