use guest_layout::address_map::{
    ACCOUNTS_BASE, IX_ACC_META_BASE, IX_META_BASE, IX_PAYLOAD_BASE, REGION_SIZE, RETURN_DATA_BASE,
    TX_CTX_BASE,
};
use guest_layout::guest_instruction::create_ix_array;
use guest_layout::guest_transaction::{RuntimeGuestTransaction, SVMFeatureSet};
use guest_layout::message::{InstructionInput, TransactionMessage};
use guest_layout::transaction_accounts::{AccountSharedData, TransactionAccount};

// is_writable(i) = (i % 2 == 1), is_signer(i) = (i % 2 == 0), for indices 0..10
fn parity_message(instructions: Vec<InstructionInput>) -> TransactionMessage {
    let mut signer_flags = Vec::new();
    let mut writable_flags = Vec::new();
    for i in 0..10usize {
        signer_flags.push(i % 2 == 0);
        writable_flags.push(i % 2 == 1);
    }
    TransactionMessage { instructions, signer_flags, writable_flags }
}

fn sample_instructions() -> Vec<InstructionInput> {
    vec![
        InstructionInput { program_id_index: 2, accounts: vec![1, 2, 3, 4], data: vec![0, 9, 8, 5] },
        InstructionInput { program_id_index: 6, accounts: vec![9, 0], data: vec![0] },
        InstructionInput { program_id_index: 8, accounts: vec![8, 8, 8], data: vec![1, 2, 3] },
    ]
}

fn sample_accounts(n: usize) -> Vec<TransactionAccount> {
    let owner = [7u8; 32];
    let datas: [Vec<u8>; 3] = [
        vec![],
        vec![1, 2, 3, 4, 5],
        vec![11, 12, 13, 14, 15, 16, 17, 18, 19],
    ];
    let executables = [true, false, true];
    let rent_epochs = [0u64, 100, 200, 300];
    let mut accounts = Vec::new();
    for k in 0..n {
        let mut key = [0u8; 32];
        key[0] = (k as u8) + 1;
        accounts.push((
            key,
            AccountSharedData {
                lamports: k as u64,
                data: datas[k % 3].clone(),
                owner,
                executable: executables[k % 3],
                rent_epoch: rent_epochs[k % 4],
            },
        ));
    }
    accounts
}

#[test]
fn test_creation() {
    let transaction_accounts = sample_accounts(6);
    let svm_mes = parity_message(sample_instructions());
    let (_g_instrs, _g_accs) = create_ix_array(&svm_mes);
    let mut runtime_transaction = RuntimeGuestTransaction::new(&transaction_accounts, &svm_mes);

    let ctx = runtime_transaction.context();
    assert_eq!(ctx.return_data_scratchpad.pubkey, [0u8; 32]);
    assert_eq!(ctx.return_data_scratchpad.slice.pointer, RETURN_DATA_BASE);
    assert_eq!(ctx.return_data_scratchpad.slice.length, 0);
    assert_eq!(ctx.cpi_scratchpad.pointer, IX_PAYLOAD_BASE + REGION_SIZE * 3);
    assert_eq!(ctx.cpi_scratchpad.length, 0);
    assert_eq!(ctx.instruction_idx, 0);
    assert_eq!(ctx.instruction_num, 3);
    runtime_transaction.set_instruction_index(80);
    assert_eq!(runtime_transaction.context().instruction_idx, 80);
    assert_eq!(ctx.accounts_no, 6);

    // the buffer pins the wire layout: an 88-byte context record followed by
    // one 88-byte descriptor per account, and the current-instruction index
    // readable back out of its eight little-endian bytes
    assert_eq!(runtime_transaction.as_slice().len(), 88 + 88 * 6);
    let bytes = runtime_transaction.as_slice();
    let mut idx_bytes = [0u8; 8];
    idx_bytes.copy_from_slice(&bytes[64..72]);
    assert_eq!(u64::from_le_bytes(idx_bytes), 80);

    for (idx, tx_account) in transaction_accounts.iter().enumerate() {
        let guest_account = runtime_transaction.account_descriptor(idx);
        assert_eq!(tx_account.0, guest_account.pubkey);
        assert_eq!(tx_account.1.owner, guest_account.owner);
        assert_eq!(tx_account.1.lamports, guest_account.lamports);
        let addr = ACCOUNTS_BASE + REGION_SIZE * idx as u64;
        assert_eq!(addr, guest_account.data.pointer);
        assert_eq!(tx_account.1.data.len() as u64, guest_account.data.length);
    }
}

#[test]
fn test_ix_area() {
    let svm_mes = parity_message(sample_instructions());
    let (g_instrs, g_accs) = create_ix_array(&svm_mes);

    for (idx, c_instr) in svm_mes.instructions.iter().enumerate() {
        let g_instr = &g_instrs[idx];
        assert_eq!(c_instr.program_id_index as u64, g_instr.program_id_idx);
        assert_eq!(0, g_instr.cpi_nesting_level);
        assert_eq!(u16::MAX, g_instr.parent_ix_idx);
        assert_eq!(
            IX_PAYLOAD_BASE + idx as u64 * REGION_SIZE,
            g_instr.ix_data.pointer
        );
        assert_eq!(c_instr.data.len() as u64, g_instr.ix_data.length);
        assert_eq!(c_instr.accounts.len() as u64, g_instr.ix_accounts.length);

        let starting_index = (g_instr.ix_accounts.pointer - IX_ACC_META_BASE) / 4;
        for i in starting_index..(starting_index + g_instr.ix_accounts.length) {
            let g_acc = &g_accs[i as usize];
            let c_acc = c_instr.accounts[(i - starting_index) as usize];
            assert_eq!(c_acc as u16, g_acc.tx_acc_idx);
            assert_eq!(svm_mes.is_writable(c_acc as usize) as u16, g_acc.flags >> 1);
            assert_eq!(svm_mes.is_signer(c_acc as usize) as u16, g_acc.flags & 0x1);
        }
    }
}

#[test]
fn test_projection_offsets() {
    let svm_mes = parity_message(sample_instructions());
    let (g_instrs, g_accs) = create_ix_array(&svm_mes);

    assert_eq!(g_instrs[0].ix_accounts.pointer, IX_ACC_META_BASE);
    assert_eq!(g_instrs[1].ix_accounts.pointer, IX_ACC_META_BASE + 4 * 4);
    assert_eq!(g_instrs[2].ix_accounts.pointer, IX_ACC_META_BASE + 6 * 4);
    // the first reference is account 1: not a signer, writable => 0b10
    assert_eq!(g_accs[0].tx_acc_idx, 1);
    assert_eq!(g_accs[0].flags, 0b10);
}

#[test]
fn test_regions_for_current_instruction() {
    // instruction 1 references account 9, so the table holds ten accounts
    let accounts = sample_accounts(10);
    let msg = parity_message(sample_instructions());
    let mut rt = RuntimeGuestTransaction::new(&accounts, &msg);
    rt.set_instruction_index(1);
    let current = rt.retrieve_instruction();
    assert_eq!(current.program_id_idx, 6);
    assert_eq!(current.ix_accounts.length, 2);
    let regions = rt.prepare_regions();

    assert_eq!(regions.len(), 3 + 2 + 3);
    assert_eq!(regions[0].vm_addr, TX_CTX_BASE);
    assert_eq!(regions[0].len, (88 + 88 * 10) as u64);
    assert!(!regions[0].writable);
    assert_eq!(regions[1].vm_addr, IX_META_BASE);
    assert_eq!(regions[1].len, 44 * 3);
    assert!(!regions[1].writable);
    assert_eq!(regions[2].vm_addr, IX_ACC_META_BASE);
    assert_eq!(regions[2].len, 4 * 9);
    assert!(!regions[2].writable);

    // accounts {9, 0}, once each, in first-appearance order; writable iff odd
    assert_eq!(regions[3].vm_addr, ACCOUNTS_BASE + 9 * REGION_SIZE);
    assert_eq!(regions[3].len, accounts[9].1.data.len() as u64);
    assert!(regions[3].writable);
    assert_eq!(regions[4].vm_addr, ACCOUNTS_BASE);
    assert_eq!(regions[4].len, accounts[0].1.data.len() as u64);
    assert!(!regions[4].writable);

    // then every instruction's payload region, read-only, in order
    for i in 0..3 {
        let r = &regions[5 + i];
        assert_eq!(r.vm_addr, IX_PAYLOAD_BASE + i as u64 * REGION_SIZE);
        assert_eq!(r.len, msg.instructions[i].data.len() as u64);
        assert!(!r.writable);
    }
}

#[test]
fn test_repeated_account_region_writability() {
    // one instruction referencing account 2 three times: one region, and the
    // writable bit is the OR across the occurrences (2 is even: read-only)
    let accounts = sample_accounts(9);
    let msg = parity_message(vec![InstructionInput {
        program_id_index: 8,
        accounts: vec![8, 8, 8],
        data: vec![1, 2, 3],
    }]);
    let mut rt = RuntimeGuestTransaction::new(&accounts, &msg);
    rt.set_instruction_index(0);
    let regions = rt.prepare_regions();
    assert_eq!(regions.len(), 3 + 1 + 1);
    assert_eq!(regions[3].vm_addr, ACCOUNTS_BASE + 8 * REGION_SIZE);
    assert!(!regions[3].writable);
}

#[test]
fn test_set_instruction_index_rewrites_eight_bytes() {
    let accounts = sample_accounts(4);
    let msg = parity_message(sample_instructions());
    let mut rt = RuntimeGuestTransaction::new(&accounts, &msg);
    let before: Vec<u8> = rt.as_slice().to_vec();
    rt.set_instruction_index(2);
    let after: Vec<u8> = rt.as_slice().to_vec();
    assert_eq!(before.len(), after.len());
    for p in 0..before.len() {
        if (64..72).contains(&p) {
            assert_eq!(after[p], 2u64.to_le_bytes()[p - 64]);
        } else {
            assert_eq!(after[p], before[p]);
        }
    }
}

#[test]
fn test_feature_gate() {
    let accounts = sample_accounts(2);
    let msg = parity_message(sample_instructions());
    let off = SVMFeatureSet { enable_abi_v2_programs: false };
    assert!(RuntimeGuestTransaction::new_with_feature_set(&accounts, &msg, &off).is_none());
    let on = SVMFeatureSet { enable_abi_v2_programs: true };
    let built = RuntimeGuestTransaction::new_with_feature_set(&accounts, &msg, &on);
    assert!(built.is_some());
    assert_eq!(built.unwrap().context().accounts_no, 2);
}
