//! Tests of the introspection reader against buffers built by the runtime's
//! own serializer.
use instruction_introspection::model::{ErrorKind, Identifier};
use instruction_introspection::reader::{load_current_index, load_instruction_at};
use instruction_introspection::routine::introspection_identifier;
use solana_program::pubkey::Pubkey;
use solana_program::sysvar::instructions::{
    construct_instructions_data, store_current_index, BorrowedAccountMeta, BorrowedInstruction,
};

fn pk(x: u8) -> Pubkey {
    Pubkey::new_from_array([x; 32])
}

fn sysvar_buffer(records: &[(Pubkey, Vec<u8>)], current: u16) -> Vec<u8> {
    let borrowed: Vec<BorrowedInstruction> = records
        .iter()
        .map(|(p, d)| BorrowedInstruction { program_id: p, accounts: Vec::new(), data: d.as_slice() })
        .collect();
    let mut data = construct_instructions_data(&borrowed);
    store_current_index(&mut data, current);
    data
}

#[test]
fn reader_returns_stored_record() {
    let records = vec![(pk(1), vec![10u8, 11u8]), (pk(2), vec![20u8])];
    let buffer = sysvar_buffer(&records, 0);
    let first = load_instruction_at(&buffer, 0).unwrap();
    assert_eq!(first.program_id.bytes, pk(1).to_bytes().to_vec());
    assert_eq!(first.data, vec![10u8, 11u8]);
    assert_eq!(first.accounts.len(), 0);
    let second = load_instruction_at(&buffer, 1).unwrap();
    assert_eq!(second.program_id.bytes, pk(2).to_bytes().to_vec());
    assert_eq!(second.data, vec![20u8]);
}

#[test]
fn reader_reads_account_references() {
    let target = pk(3);
    let signer_key = pk(7);
    let writable_key = pk(8);
    let payload = vec![42u8];
    let borrowed = vec![BorrowedInstruction {
        program_id: &target,
        accounts: vec![
            BorrowedAccountMeta { pubkey: &signer_key, is_signer: true, is_writable: false },
            BorrowedAccountMeta { pubkey: &writable_key, is_signer: false, is_writable: true },
        ],
        data: payload.as_slice(),
    }];
    let mut buffer = construct_instructions_data(&borrowed);
    store_current_index(&mut buffer, 0);
    let record = load_instruction_at(&buffer, 0).unwrap();
    assert_eq!(record.accounts.len(), 2);
    assert_eq!(record.accounts[0].key.bytes, signer_key.to_bytes().to_vec());
    assert!(record.accounts[0].is_signer);
    assert!(!record.accounts[0].is_writable);
    assert_eq!(record.accounts[1].key.bytes, writable_key.to_bytes().to_vec());
    assert!(!record.accounts[1].is_signer);
    assert!(record.accounts[1].is_writable);
}

#[test]
fn reader_is_deterministic() {
    let records = vec![(pk(4), vec![1u8, 2u8, 3u8]), (pk(5), vec![9u8])];
    let buffer = sysvar_buffer(&records, 1);
    let once = load_instruction_at(&buffer, 1).unwrap();
    let twice = load_instruction_at(&buffer, 1).unwrap();
    assert_eq!(once.program_id.bytes, twice.program_id.bytes);
    assert_eq!(once.data, twice.data);
    assert_eq!(once.accounts.len(), twice.accounts.len());
    for (a, b) in once.accounts.iter().zip(twice.accounts.iter()) {
        assert_eq!(a.key.bytes, b.key.bytes);
        assert_eq!(a.is_signer, b.is_signer);
        assert_eq!(a.is_writable, b.is_writable);
    }
}

#[test]
fn reader_rejects_index_at_count() {
    let records = vec![(pk(1), vec![0u8]), (pk(2), vec![1u8])];
    let buffer = sysvar_buffer(&records, 0);
    assert_eq!(load_instruction_at(&buffer, 2).unwrap_err(), ErrorKind::MalformedData);
    assert_eq!(load_instruction_at(&buffer, 200).unwrap_err(), ErrorKind::MalformedData);
}

#[test]
fn reader_rejects_truncated_buffer() {
    assert_eq!(load_instruction_at(&vec![5u8], 0).unwrap_err(), ErrorKind::MalformedData);
    let records = vec![(pk(1), vec![10u8, 11u8, 12u8])];
    let whole = sysvar_buffer(&records, 0);
    let cut: Vec<u8> = whole[..whole.len() - 6].to_vec();
    assert_eq!(load_instruction_at(&cut, 0).unwrap_err(), ErrorKind::MalformedData);
}

#[test]
fn current_index_reads_trailing_header() {
    let records = vec![(pk(1), vec![0u8])];
    let mut buffer = sysvar_buffer(&records, 7);
    assert_eq!(load_current_index(&buffer), Ok(7));
    store_current_index(&mut buffer, 300);
    assert_eq!(load_current_index(&buffer), Ok(300));
    assert_eq!(load_current_index(&vec![9u8]), Err(ErrorKind::MalformedData));
}

#[test]
fn introspection_identifier_matches_runtime() {
    let ours: Identifier = introspection_identifier();
    let real = solana_program::sysvar::instructions::id();
    assert_eq!(ours.bytes, real.to_bytes().to_vec());
}
