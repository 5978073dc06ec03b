use vstd::prelude::*;
use crate::pubkey::Pubkey;

verus! {

/// How many of a message's accounts sign, and how many of the signing and of
/// the other accounts are only read.
#[derive(Clone, Copy, Debug)]
pub struct MessageHeader {
    /// The number of signatures required for this message to be considered valid.
    pub num_required_signatures: u8,
    /// The last `num_readonly_signed_accounts` of the signed keys are read-only accounts.
    pub num_readonly_signed_accounts: u8,
    /// The last `num_readonly_unsigned_accounts` of the unsigned keys are read-only accounts.
    pub num_readonly_unsigned_accounts: u8,
}

/// An instruction of a message: its program, the indices of its accounts and its data.
#[derive(Clone, Debug, PartialEq, Eq)]
pub struct SanitizedInstruction {
    pub program_id: Pubkey,
    pub accounts: Vec<u16>,
    pub data: Vec<u8>,
}

/// A message: header, account keys (signers first) and instructions.
#[derive(Clone, Debug)]
pub struct ArchMessage {
    pub header: MessageHeader,
    pub account_keys: Vec<Pubkey>,
    pub instructions: Vec<SanitizedInstruction>,
}

/// Account `i` of a message with header `h` and `n_keys` keys was asked to be
/// writable: a signer that is not among the read-only signers, or a non-signer
/// that is not among the read-only non-signers.
pub open spec fn writable_index(h: MessageHeader, n_keys: int, i: int) -> bool {
    ||| i < h.num_required_signatures - h.num_readonly_signed_accounts
    ||| (i >= h.num_required_signatures && i < n_keys - h.num_readonly_unsigned_accounts)
}

impl ArchMessage {
    /// Whether the account at index `i` was requested to be writable.
    pub(crate) fn is_writable_index(&self, i: usize) -> (r: bool)
        ensures
            r == writable_index(self.header, self.account_keys@.len() as int, i as int),
    {
        let h = self.header;
        let signed_writable = h.num_required_signatures >= h.num_readonly_signed_accounts
            && i < (h.num_required_signatures - h.num_readonly_signed_accounts) as usize;
        let unsigned_writable = i >= h.num_required_signatures as usize
            && self.account_keys.len() >= h.num_readonly_unsigned_accounts as usize
            && i < self.account_keys.len() - h.num_readonly_unsigned_accounts as usize;
        signed_writable || unsigned_writable
    }

    pub fn header(&self) -> (r: &MessageHeader)
        ensures
            *r == self.header,
    {
        &self.header
    }

    /// Whether the account at `index` signs the message.
    pub fn is_signer(&self, index: usize) -> (r: bool)
        ensures
            r == (index < self.header.num_required_signatures),
    {
        index < self.header().num_required_signatures as usize
    }
}

/// A message with the writability of each account worked out once.
#[derive(Clone, Debug)]
pub struct SanitizedMessage {
    pub message: ArchMessage,
    /// One entry per account key: whether that account is writable.
    pub is_writable_account_cache: Vec<bool>,
}

impl SanitizedMessage {
    /// The cache holds, for each account key, whether it is writable.
    pub open spec fn wf(&self) -> bool {
        let n = self.message.account_keys@.len();
        &&& self.is_writable_account_cache@.len() == n
        &&& forall|i: int| 0 <= i < n ==> #[trigger] self.is_writable_account_cache@[i]
            == writable_index(self.message.header, n as int, i)
    }

    /// Wraps `message`, working out for each account whether it is writable.
    pub fn new(message: ArchMessage) -> (r: SanitizedMessage)
        ensures
            r.message == message,
            r.wf(),
    {
        let mut cache: Vec<bool> = Vec::new();
        let mut i: usize = 0;
        while i < message.account_keys.len()
            invariant
                i <= message.account_keys@.len(),
                cache@.len() == i,
                forall|j: int| 0 <= j < i ==> #[trigger] cache@[j]
                    == writable_index(message.header, message.account_keys@.len() as int, j),
            decreases message.account_keys@.len() - i,
        {
            let w = message.is_writable_index(i);
            cache.push(w);
            i = i + 1;
        }
        SanitizedMessage { message, is_writable_account_cache: cache }
    }

    /// Whether the account at `index` signs the message.
    pub fn is_signer(&self, index: usize) -> (r: bool)
        ensures
            r == (index < self.message.header.num_required_signatures),
    {
        self.message.is_signer(index)
    }

    /// Whether the account at `index` is writable; an index past the last
    /// account is not.
    pub fn is_writable(&self, index: usize) -> (r: bool)
        ensures
            r == (index < self.is_writable_account_cache@.len() && self.is_writable_account_cache@[index as int]),
            self.wf() ==> r == (index < self.message.account_keys@.len() && writable_index(
                self.message.header,
                self.message.account_keys@.len() as int,
                index as int,
            )),
    {
        if index < self.is_writable_account_cache.len() {
            self.is_writable_account_cache[index]
        } else {
            false
        }
    }

    pub fn instructions(&self) -> (r: &Vec<SanitizedInstruction>)
        ensures
            *r == self.message.instructions,
    {
        &self.message.instructions
    }
}

} // verus!
