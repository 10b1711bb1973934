use guest_layout::borrow_counter::BorrowCounter;
use guest_layout::errors::InstructionError;
use guest_layout::transaction_accounts::{
    AccountSharedData, TransactionAccount, TransactionAccounts, MAX_ACCOUNT_DATA_LEN,
};

fn two_accounts() -> Vec<TransactionAccount> {
    let mut key_a = [0u8; 32];
    key_a[0] = 1;
    let mut key_b = [0u8; 32];
    key_b[0] = 2;
    let owner = [9u8; 32];
    vec![
        (key_a, AccountSharedData::new(2, 1, &owner)),
        (key_b, AccountSharedData::new(2, 1, &owner)),
    ]
}

#[test]
fn test_missing_account() {
    let accounts = two_accounts();
    let mut tx_accounts = TransactionAccounts::new(accounts);

    let res = tx_accounts.try_borrow(3);
    assert_eq!(res.err(), Some(InstructionError::MissingAccount));

    let res = tx_accounts.try_borrow_mut(3);
    assert_eq!(res.err(), Some(InstructionError::MissingAccount));
}

#[test]
fn test_invalid_borrow() {
    let accounts = two_accounts();
    let mut tx_accounts = TransactionAccounts::new(accounts);

    // Two immutable borrows are valid
    {
        let acc_1 = tx_accounts.try_borrow(0);
        assert!(acc_1.is_ok());

        let acc_2 = tx_accounts.try_borrow(1);
        assert!(acc_2.is_ok());

        let acc_1_new = tx_accounts.try_borrow(0);
        assert!(acc_1_new.is_ok());

        let lease_1 = acc_1.unwrap();
        let lease_1_new = acc_1_new.unwrap();
        assert_eq!(&lease_1, &lease_1_new);

        tx_accounts.release_borrow(lease_1);
        tx_accounts.release_borrow(lease_1_new);
        tx_accounts.release_borrow(acc_2.unwrap());
    }

    // Two mutable borrows of one account are invalid
    {
        let acc_1 = tx_accounts.try_borrow_mut(0);
        assert!(acc_1.is_ok());

        let acc_2 = tx_accounts.try_borrow_mut(1);
        assert!(acc_2.is_ok());

        let acc_1_new = tx_accounts.try_borrow_mut(0);
        assert_eq!(acc_1_new.err(), Some(InstructionError::AccountBorrowFailed));

        tx_accounts.release_borrow_mut(acc_1.unwrap());
        tx_accounts.release_borrow_mut(acc_2.unwrap());
    }

    // Mutable after immutable must fail
    {
        let acc_1 = tx_accounts.try_borrow(0);
        assert!(acc_1.is_ok());

        let acc_2 = tx_accounts.try_borrow(1);
        assert!(acc_2.is_ok());

        let acc_1_new = tx_accounts.try_borrow_mut(0);
        assert_eq!(acc_1_new.err(), Some(InstructionError::AccountBorrowFailed));

        tx_accounts.release_borrow(acc_1.unwrap());
        tx_accounts.release_borrow(acc_2.unwrap());
    }

    // Immutable after mutable must fail
    {
        let acc_1 = tx_accounts.try_borrow_mut(0);
        assert!(acc_1.is_ok());

        let acc_2 = tx_accounts.try_borrow_mut(1);
        assert!(acc_2.is_ok());

        let acc_1_new = tx_accounts.try_borrow(0);
        assert_eq!(acc_1_new.err(), Some(InstructionError::AccountBorrowFailed));

        tx_accounts.release_borrow_mut(acc_1.unwrap());
        tx_accounts.release_borrow_mut(acc_2.unwrap());
    }

    // Released leases free the account again
    {
        let acc_1 = tx_accounts.try_borrow_mut(0);
        assert!(acc_1.is_ok());
        tx_accounts.release_borrow_mut(acc_1.unwrap());
    }

    {
        let acc_1 = tx_accounts.try_borrow_mut(0);
        assert!(acc_1.is_ok());
        tx_accounts.release_borrow_mut(acc_1.unwrap());
    }
}

#[test]
fn too_many_borrows() {
    let accounts = two_accounts();
    let mut tx_accounts = TransactionAccounts::new(accounts);
    let mut borrows = Vec::new();
    for i in 0..129 {
        let acc = tx_accounts.try_borrow(1);
        if i < 127 {
            assert!(acc.is_ok());
            borrows.push(acc.unwrap());
        } else {
            assert_eq!(acc.err(), Some(InstructionError::AccountBorrowFailed));
        }
    }
}

#[test]
fn test_borrow_counter_protocol() {
    let mut counter = BorrowCounter::default();
    assert!(!counter.is_reading());
    assert!(!counter.is_writing());

    // a balanced, non-interleaved sequence of leases ends on a free counter
    assert!(counter.try_borrow().is_ok());
    assert!(counter.try_borrow().is_ok());
    assert!(counter.is_reading());
    // a writer cannot join readers
    assert_eq!(counter.try_borrow_mut().err(), Some(InstructionError::AccountBorrowFailed));
    counter.release_borrow();
    counter.release_borrow();
    assert!(!counter.is_reading());

    // from a free counter the writer succeeds, and excludes everyone
    assert!(counter.try_borrow_mut().is_ok());
    assert!(counter.is_writing());
    assert_eq!(counter.try_borrow().err(), Some(InstructionError::AccountBorrowFailed));
    assert_eq!(counter.try_borrow_mut().err(), Some(InstructionError::AccountBorrowFailed));
    counter.release_borrow_mut();
    assert!(!counter.is_writing());
    assert!(!counter.is_reading());
}

#[test]
fn test_round_trip() {
    let accounts = two_accounts();
    let expected = two_accounts();
    let tx_accounts = TransactionAccounts::new(accounts);
    let out = tx_accounts.into_account_shared_data();
    assert_eq!(out.len(), expected.len());
    for k in 0..out.len() {
        assert_eq!(out[k].0, expected[k].0);
        assert_eq!(out[k].1.lamports, expected[k].1.lamports);
        assert_eq!(out[k].1.data, expected[k].1.data);
        assert_eq!(out[k].1.owner, expected[k].1.owner);
        assert_eq!(out[k].1.executable, expected[k].1.executable);
        assert_eq!(out[k].1.rent_epoch, expected[k].1.rent_epoch);
    }
}

#[test]
fn test_write_back() {
    let accounts = two_accounts();
    let mut tx_accounts = TransactionAccounts::new(accounts);

    let mut lease = tx_accounts.try_borrow_mut(0).unwrap();
    lease.set_lamports(42);
    lease.set_data(vec![5, 6, 7]);
    lease.set_owner([3u8; 32]);
    lease.set_executable(true);
    lease.set_rent_epoch(11);
    tx_accounts.release_borrow_mut(lease);

    let read = tx_accounts.try_borrow(0).unwrap();
    assert_eq!(read.lamports(), 42);
    assert_eq!(read.data(), &[5, 6, 7]);
    assert_eq!(read.owner(), &[3u8; 32]);
    assert!(read.executable());
    assert_eq!(read.rent_epoch(), 11);
    tx_accounts.release_borrow(read);

    // the key column never changes
    let key = tx_accounts.account_key(0).unwrap();
    assert_eq!(key[0], 1);

    let mut lease = tx_accounts.try_borrow_mut(0).unwrap();
    lease.copy_into_owner_from_slice(&[4u8; 32]);
    tx_accounts.release_borrow_mut(lease);
    let read = tx_accounts.try_borrow(0).unwrap();
    assert_eq!(read.owner(), &[4u8; 32]);
    tx_accounts.release_borrow(read);
}

#[test]
fn test_touch_and_keys() {
    let accounts = two_accounts();
    let mut tx_accounts = TransactionAccounts::new(accounts);
    assert!(tx_accounts.touch(0).is_ok());
    assert_eq!(tx_accounts.touch(5).err(), Some(InstructionError::MissingAccount));
    assert_eq!(tx_accounts.len(), 2);
    let keys = tx_accounts.account_keys();
    assert_eq!(keys.len(), 2);
    assert_eq!(keys[0][0], 1);
    assert_eq!(keys[1][0], 2);
    assert!(tx_accounts.account_key(2).is_none());
}

#[test]
fn test_resize_accounting() {
    let accounts = two_accounts();
    let mut tx_accounts = TransactionAccounts::new(accounts);
    assert_eq!(tx_accounts.resize_delta(), 0);

    // one byte over the absolute payload cap
    let over_cap = (MAX_ACCOUNT_DATA_LEN as usize) + 1;
    assert_eq!(
        tx_accounts.can_data_be_resized(0, over_cap).err(),
        Some(InstructionError::InvalidRealloc)
    );

    // each accepted resize accumulates new_len - old_len, and the running
    // delta is the plain sum across the calls
    let ten_mib = MAX_ACCOUNT_DATA_LEN as usize;
    assert!(tx_accounts.can_data_be_resized(0, ten_mib).is_ok());
    assert!(tx_accounts.update_accounts_resize_delta(0, ten_mib).is_ok());
    assert_eq!(tx_accounts.resize_delta(), ten_mib as i64);
    assert!(tx_accounts.can_data_be_resized(0, ten_mib).is_ok());
    assert!(tx_accounts.update_accounts_resize_delta(0, ten_mib).is_ok());
    assert_eq!(tx_accounts.resize_delta(), 2 * ten_mib as i64);

    // the growth cap is now exhausted: one more byte of growth is refused
    assert_eq!(
        tx_accounts.can_data_be_resized(0, 1).err(),
        Some(InstructionError::MaxAccountsDataAllocationsExceeded)
    );
    // while a pure shrink is still allowed
    assert!(tx_accounts.can_data_be_resized(1, 0).is_ok());
}

#[test]
fn test_lamports_delta() {
    let accounts = two_accounts();
    let mut tx_accounts = TransactionAccounts::new(accounts);
    assert!(tx_accounts.add_lamports_delta(5).is_ok());
    assert_eq!(tx_accounts.get_lamports_delta(), 5);
    assert_eq!(
        tx_accounts.add_lamports_delta(i128::MAX).err(),
        Some(InstructionError::ArithmeticOverflow)
    );
    assert_eq!(tx_accounts.get_lamports_delta(), 5);
    assert!(tx_accounts.add_lamports_delta(-6).is_ok());
    assert_eq!(tx_accounts.get_lamports_delta(), -1);
}
