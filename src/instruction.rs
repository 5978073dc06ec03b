use vstd::prelude::*;
use crate::pubkey::Pubkey;

verus! {

/// An account that an instruction reads or writes.
#[derive(Clone, Copy, Debug, PartialEq, Eq)]
pub struct AccountMeta {
    pub pubkey: Pubkey,
    pub is_signer: bool,
    pub is_writable: bool,
}

/// A call of a program: the program, the accounts it touches and its data.
#[derive(Clone, Debug)]
pub struct Instruction {
    pub program_id: Pubkey,
    pub accounts: Vec<AccountMeta>,
    pub data: Vec<u8>,
}

/// The four bytes of `x`, least significant first.
pub open spec fn u32_le(x: u32) -> Seq<u8> {
    seq![(x % 256) as u8, ((x / 256) % 256) as u8, ((x / 65536) % 256) as u8, (x / 16777216) as u8]
}

/// Appends the four bytes of `x`, least significant first.
pub fn push_u32_le(v: &mut Vec<u8>, x: u32)
    ensures
        final(v)@ == old(v)@ + u32_le(x),
{
    v.push((x % 256) as u8);
    v.push(((x / 256) % 256) as u8);
    v.push(((x / 65536) % 256) as u8);
    v.push((x / 16777216) as u8);
    assert(final(v)@ =~= old(v)@ + u32_le(x));
}

/// Appends all of `bytes`.
pub fn push_all(v: &mut Vec<u8>, bytes: &[u8])
    ensures
        final(v)@ == old(v)@ + bytes@,
{
    let mut i: usize = 0;
    while i < bytes.len()
        invariant
            i <= bytes@.len(),
            v@ == old(v)@ + bytes@.take(i as int),
        decreases bytes@.len() - i,
    {
        proof {
            assert(bytes@.take(i as int).push(bytes@[i as int]) =~= bytes@.take(i + 1));
        }
        v.push(bytes[i]);
        i = i + 1;
    }
    assert(bytes@.take(i as int) =~= bytes@);
}

/// A transaction output: the transaction's 32-byte id and the output's index.
#[derive(Clone, Copy, Debug, PartialEq, Eq)]
pub struct UtxoMeta(pub [u8; 36]);

impl UtxoMeta {
    /// The output `vout` of transaction `txid`: the id, then the index least
    /// significant byte first.
    pub fn from(txid: [u8; 32], vout: u32) -> (r: UtxoMeta)
        ensures
            r.0@ == txid@ + u32_le(vout),
    {
        let mut data = [0u8; 36];
        let mut i: usize = 0;
        while i < 32
            invariant
                i <= 32,
                data@.len() == 36,
                forall|j: int| 0 <= j < i ==> data@[j] == txid@[j],
            decreases 32 - i,
        {
            data[i] = txid[i];
            i = i + 1;
        }
        data[32] = (vout % 256) as u8;
        data[33] = ((vout / 256) % 256) as u8;
        data[34] = ((vout / 65536) % 256) as u8;
        data[35] = (vout / 16777216) as u8;
        let r = UtxoMeta(data);
        assert(r.0@ =~= txid@ + u32_le(vout));
        r
    }

    /// The 36 bytes of the output reference.
    pub fn serialize(&self) -> (r: [u8; 36])
        ensures
            r@ == self.0@,
    {
        self.0
    }
}

} // verus!
