use build_server::instruction::{AccountMeta, UtxoMeta};
use build_server::pubkey::Pubkey;
use build_server::system_instruction::SystemInstruction;

fn key(b: u8) -> Pubkey {
    Pubkey([b; 32])
}

fn only_account(pubkey: Pubkey) -> Vec<AccountMeta> {
    vec![AccountMeta { pubkey, is_signer: true, is_writable: true }]
}

#[test]
fn create_account_data_is_tag_txid_and_vout() {
    let txid = [0xabu8; 32];
    let ix = SystemInstruction::new_create_account_instruction(txid, 0x0102_0304, key(1));
    assert_eq!(ix.program_id, Pubkey::system_program());
    assert_eq!(ix.accounts, only_account(key(1)));
    let mut expected = vec![0u8];
    expected.extend_from_slice(&txid);
    expected.extend_from_slice(&[4, 3, 2, 1]);
    assert_eq!(ix.data, expected);
}

#[test]
fn utxo_meta_is_txid_then_little_endian_vout() {
    let mut txid = [0u8; 32];
    txid[0] = 5;
    let meta = UtxoMeta::from(txid, 258).serialize();
    assert_eq!(&meta[..32], &txid);
    assert_eq!(&meta[32..], &[2, 1, 0, 0]);
}

#[test]
fn write_bytes_data_is_tag_offset_len_and_bytes() {
    let ix = SystemInstruction::new_write_bytes_instruction(7, 3, vec![9, 8, 7], key(2));
    assert_eq!(ix.data, vec![1, 7, 0, 0, 0, 3, 0, 0, 0, 9, 8, 7]);
    assert_eq!(ix.accounts, only_account(key(2)));
    assert_eq!(ix.program_id, Pubkey::system_program());
}

#[test]
fn deploy_and_retract_are_single_tags() {
    let d = SystemInstruction::new_deploy_instruction(key(3));
    assert_eq!(d.data, vec![2]);
    assert_eq!(d.accounts, only_account(key(3)));
    let r = SystemInstruction::new_retract_instruction(key(4));
    assert_eq!(r.data, vec![4]);
    assert_eq!(r.accounts, only_account(key(4)));
}

#[test]
fn assign_ownership_data_is_tag_and_owner() {
    let ix = SystemInstruction::new_assign_ownership_instruction(key(5), key(6));
    let mut expected = vec![3u8];
    expected.extend_from_slice(&[6u8; 32]);
    assert_eq!(ix.data, expected);
    assert_eq!(ix.accounts, only_account(key(5)));
}

#[test]
fn truncate_data_is_tag_and_little_endian_size() {
    let ix = SystemInstruction::new_truncate_instruction(key(7), 0xdead_beef);
    assert_eq!(ix.data, vec![5, 0xef, 0xbe, 0xad, 0xde]);
    assert_eq!(ix.program_id, Pubkey::system_program());
}
