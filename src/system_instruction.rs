use vstd::prelude::*;
use crate::instruction::{AccountMeta, Instruction, UtxoMeta, push_all, push_u32_le, u32_le};
use crate::pubkey::{Pubkey, system_program_bytes};

verus! {

/// Builders of the system program's instructions.
#[derive(Clone, Copy, Debug, PartialEq, Eq, Structural)]
pub struct SystemInstruction;

/// A system program instruction on the single account `pubkey`, which signs
/// and is written, with data `data`.
pub open spec fn system_call(ix: Instruction, pubkey: Pubkey, data: Seq<u8>) -> bool {
    &&& ix.program_id@ == system_program_bytes()
    &&& ix.accounts@ == seq![AccountMeta { pubkey, is_signer: true, is_writable: true }]
    &&& ix.data@ == data
}

fn system_call_with(pubkey: Pubkey, data: Vec<u8>) -> (r: Instruction)
    ensures
        system_call(r, pubkey, data@),
{
    let accounts = vec![AccountMeta { pubkey, is_signer: true, is_writable: true }];
    assert(accounts@ =~= seq![AccountMeta { pubkey, is_signer: true, is_writable: true }]);
    Instruction { program_id: Pubkey::system_program(), accounts, data }
}

impl SystemInstruction {
    /// Creates account `pubkey` from output `vout` of transaction `txid`.
    pub fn new_create_account_instruction(txid: [u8; 32], vout: u32, pubkey: Pubkey) -> (r: Instruction)
        ensures
            system_call(r, pubkey, seq![0u8] + txid@ + u32_le(vout)),
    {
        let mut data: Vec<u8> = vec![0u8];
        let utxo = UtxoMeta::from(txid, vout).serialize();
        push_all(&mut data, utxo.as_slice());
        assert(data@ =~= seq![0u8] + txid@ + u32_le(vout));
        system_call_with(pubkey, data)
    }

    /// Writes `data` into account `pubkey` at `offset`; `len` is the length
    /// the caller declares.
    pub fn new_write_bytes_instruction(offset: u32, len: u32, data: Vec<u8>, pubkey: Pubkey) -> (r: Instruction)
        ensures
            system_call(r, pubkey, seq![1u8] + u32_le(offset) + u32_le(len) + data@),
    {
        let mut bytes: Vec<u8> = vec![1u8];
        push_u32_le(&mut bytes, offset);
        push_u32_le(&mut bytes, len);
        push_all(&mut bytes, data.as_slice());
        assert(bytes@ =~= seq![1u8] + u32_le(offset) + u32_le(len) + data@);
        system_call_with(pubkey, bytes)
    }

    /// Marks the program in account `pubkey` as deployed.
    pub fn new_deploy_instruction(pubkey: Pubkey) -> (r: Instruction)
        ensures
            system_call(r, pubkey, seq![2u8]),
    {
        let data: Vec<u8> = vec![2u8];
        assert(data@ =~= seq![2u8]);
        system_call_with(pubkey, data)
    }

    /// Hands account `pubkey` over to `owner`.
    pub fn new_assign_ownership_instruction(pubkey: Pubkey, owner: Pubkey) -> (r: Instruction)
        ensures
            system_call(r, pubkey, seq![3u8] + owner@),
    {
        let mut data: Vec<u8> = vec![3u8];
        let o = owner.serialize();
        push_all(&mut data, o.as_slice());
        assert(data@ =~= seq![3u8] + owner@);
        system_call_with(pubkey, data)
    }

    /// Takes the program in account `pubkey` out of service.
    pub fn new_retract_instruction(pubkey: Pubkey) -> (r: Instruction)
        ensures
            system_call(r, pubkey, seq![4u8]),
    {
        let data: Vec<u8> = vec![4u8];
        assert(data@ =~= seq![4u8]);
        system_call_with(pubkey, data)
    }

    /// Shrinks or grows account `pubkey` to `new_size` bytes.
    pub fn new_truncate_instruction(pubkey: Pubkey, new_size: u32) -> (r: Instruction)
        ensures
            system_call(r, pubkey, seq![5u8] + u32_le(new_size)),
    {
        let mut data: Vec<u8> = vec![5u8];
        push_u32_le(&mut data, new_size);
        assert(data@ =~= seq![5u8] + u32_le(new_size));
        system_call_with(pubkey, data)
    }
}

} // verus!
