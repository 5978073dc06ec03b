use vstd::prelude::*;
use crate::instruction::push_all;
use crate::program_error::ProgramError;

verus! {

/// Most seeds a program address may be derived from.
pub const MAX_SEEDS: usize = 16;

/// Longest seed, in bytes.
pub const MAX_SEED_LEN: usize = 32;

/// What `sha256::digest` returns for `data`.
pub uninterp spec fn sha256_hex(data: Seq<u8>) -> Seq<char>;

/// A lower-case hexadecimal digit.
pub open spec fn is_lower_hex_digit(c: char) -> bool {
    ||| ('0' as u32) <= (c as u32) <= ('9' as u32)
    ||| ('a' as u32) <= (c as u32) <= ('f' as u32)
}

/// A hexadecimal digit of either case.
pub open spec fn is_hex_digit(c: char) -> bool {
    ||| ('0' as u32) <= (c as u32) <= ('9' as u32)
    ||| ('a' as u32) <= (c as u32) <= ('f' as u32)
    ||| ('A' as u32) <= (c as u32) <= ('F' as u32)
}

/// Value of a hexadecimal digit.
pub open spec fn hex_value(c: char) -> int {
    if (c as u32) <= ('9' as u32) {
        c as u32 - '0' as u32
    } else if (c as u32) <= ('F' as u32) {
        c as u32 - 'A' as u32 + 10
    } else {
        c as u32 - 'a' as u32 + 10
    }
}

/// The bytes that hexadecimal text `s` spells, two digits each, high digit first.
pub open spec fn hex_bytes(s: Seq<char>) -> Seq<u8> {
    Seq::new(s.len() / 2, |i: int| (hex_value(s[2 * i]) * 16 + hex_value(s[2 * i + 1])) as u8)
}

/// Relies on `sha256::digest` on a byte slice: `hex::encode` of the 32-byte
/// SHA-256 digest of `data`, so 64 lower-case hexadecimal digits.
#[verifier::external_body]
fn sha256_digest(data: &[u8]) -> (r: String)
    ensures
        r@ == sha256_hex(data@),
        r@.len() == 64,
        forall|i: int| 0 <= i < 64 ==> is_lower_hex_digit(#[trigger] r@[i]),
{
    sha256::digest(data)
}

/// Relies on `hex::decode`: it succeeds exactly on text of even length made
/// of hexadecimal digits of either case, and gives the byte of each digit pair.
#[verifier::external_body]
fn hex_decode(s: &str) -> (r: Option<Vec<u8>>)
    ensures
        r is Some <==> (s@.len() % 2 == 0 && forall|i: int| 0 <= i < s@.len() ==> is_hex_digit(#[trigger] s@[i])),
        r matches Some(b) ==> b@ == hex_bytes(s@),
{
    hex::decode(s).ok()
}

/// The bytes of each seed.
pub open spec fn seed_views(seeds: Seq<&[u8]>) -> Seq<Seq<u8>> {
    seeds.map_values(|s: &[u8]| s@)
}

/// Seeds that an address may be derived from: not too many, none too long.
pub open spec fn seeds_ok(seeds: Seq<Seq<u8>>) -> bool {
    &&& seeds.len() <= MAX_SEEDS
    &&& forall|i: int| 0 <= i < seeds.len() ==> (#[trigger] seeds[i]).len() <= MAX_SEED_LEN
}

/// The address derived from `seeds` for program `program_id`: the SHA-256
/// digest of the seeds and the program key, one after another.
pub open spec fn program_address(seeds: Seq<Seq<u8>>, program_id: Seq<u8>) -> Seq<u8> {
    hex_bytes(sha256_hex(seeds.flatten() + program_id))
}

/// A 32-byte account or program key.
#[derive(Clone, Copy, PartialEq, Eq, Hash, PartialOrd, Ord, Debug)]
pub struct Pubkey(pub [u8; 32]);

impl View for Pubkey {
    type V = Seq<u8>;

    open spec fn view(&self) -> Seq<u8> {
        self.0@
    }
}

/// The bytes of the system program's key: all zero but the last, which is one.
pub open spec fn system_program_bytes() -> Seq<u8> {
    Seq::new(32, |i: int| if i == 31 { 1u8 } else { 0u8 })
}

/// `data` followed by zeros up to 32 bytes.
pub open spec fn zero_padded(data: Seq<u8>) -> Seq<u8> {
    Seq::new(32, |i: int| if i < data.len() { data[i] } else { 0u8 })
}

impl Pubkey {
    /// The key's 32 bytes.
    pub fn serialize(&self) -> (r: [u8; 32])
        ensures
            r@ == self@,
    {
        self.0
    }

    /// A key whose first bytes are `data` and whose remaining bytes are zero.
    pub fn from_slice(data: &[u8]) -> (r: Pubkey)
        requires
            data@.len() <= 32,
        ensures
            r@ == zero_padded(data@),
    {
        let mut tmp = [0u8; 32];
        let mut i: usize = 0;
        while i < data.len()
            invariant
                data@.len() <= 32,
                i <= data@.len(),
                tmp@.len() == 32,
                forall|j: int| 0 <= j < i ==> tmp@[j] == data@[j],
                forall|j: int| i <= j < 32 ==> tmp@[j] == 0u8,
            decreases data@.len() - i,
        {
            tmp[i] = data[i];
            i = i + 1;
        }
        let r = Pubkey(tmp);
        assert(r@ =~= zero_padded(data@));
        r
    }

    /// The key of the system program.
    pub fn system_program() -> (r: Pubkey)
        ensures
            r@ == system_program_bytes(),
    {
        let mut tmp = [0u8; 32];
        tmp[31] = 1;
        let r = Pubkey(tmp);
        assert(r@ =~= system_program_bytes());
        r
    }

    /// Whether this is the system program's key.
    pub fn is_system_program(&self) -> (r: bool)
        ensures
            r == (self@ == system_program_bytes()),
    {
        let mut i: usize = 0;
        while i < 31
            invariant
                i <= 31,
                self@.len() == 32,
                forall|j: int| 0 <= j < i ==> self@[j] == 0u8,
            decreases 31 - i,
        {
            if self.0[i] != 0 {
                assert(self@[i as int] != system_program_bytes()[i as int]);
                return false;
            }
            i = i + 1;
        }
        if self.0[31] != 1 {
            assert(self@[31] != system_program_bytes()[31]);
            return false;
        }
        assert(self@ =~= system_program_bytes());
        true
    }

    /// The key whose first eight bytes are `*counter` (most significant
    /// first) and whose other bytes are zero; the counter then moves on, so a
    /// later key is greater than an earlier one.
    pub fn new_unique(counter: &mut u64) -> (r: Pubkey)
        requires
            *old(counter) < u64::MAX,
        ensures
            *final(counter) == *old(counter) + 1,
            r@ == zero_padded(u64_be(*old(counter))),
    {
        let i = *counter;
        *counter = i + 1;
        let mut b = [0u8; 32];
        b[0] = (i / 72057594037927936) as u8;
        b[1] = ((i / 281474976710656) % 256) as u8;
        b[2] = ((i / 1099511627776) % 256) as u8;
        b[3] = ((i / 4294967296) % 256) as u8;
        b[4] = ((i / 16777216) % 256) as u8;
        b[5] = ((i / 65536) % 256) as u8;
        b[6] = ((i / 256) % 256) as u8;
        b[7] = (i % 256) as u8;
        let r = Pubkey(b);
        assert(r@ =~= zero_padded(u64_be(i)));
        r
    }

    /// Relies on `secp256k1::PublicKey::from_slice` (re-exported by `bitcoin`):
    /// whether `pubkey` is a serialized point of the curve. Only 33- and
    /// 65-byte serializations parse.
    #[verifier::external_body]
    pub fn is_on_curve(pubkey: &[u8]) -> (r: bool)
        ensures
            r ==> (pubkey@.len() == 33 || pubkey@.len() == 65),
    {
        bitcoin::secp256k1::PublicKey::from_slice(pubkey).is_ok()
    }

    /// Derives the address of `seeds` for program `program_id`. Too many seeds
    /// or a seed that is too long is refused; a 32-byte digest is never a
    /// serialized curve point, so valid seeds always give an address.
    pub fn create_program_address(seeds: &[&[u8]], program_id: &Pubkey) -> (r: Result<Pubkey, ProgramError>)
        ensures
            r is Ok <==> seeds_ok(seed_views(seeds@)),
            r matches Ok(p) ==> p@ == program_address(seed_views(seeds@), program_id@),
            r matches Err(e) ==> e == ProgramError::MaxSeedLengthExceeded,
    {
        let ghost sv = seed_views(seeds@);
        if seeds.len() > MAX_SEEDS {
            return Err(ProgramError::MaxSeedLengthExceeded);
        }
        let mut buf: Vec<u8> = Vec::new();
        let mut i: usize = 0;
        while i < seeds.len()
            invariant
                sv == seed_views(seeds@),
                i <= seeds@.len(),
                forall|j: int| 0 <= j < i ==> (#[trigger] sv[j]).len() <= MAX_SEED_LEN,
                buf@ == sv.take(i as int).flatten_alt(),
            decreases seeds@.len() - i,
        {
            let seed: &[u8] = seeds[i];
            if seed.len() > MAX_SEED_LEN {
                assert(sv[i as int].len() > MAX_SEED_LEN);
                return Err(ProgramError::MaxSeedLengthExceeded);
            }
            push_all(&mut buf, seed);
            proof {
                assert(sv.take(i + 1).drop_last() =~= sv.take(i as int));
            }
            i = i + 1;
        }
        proof {
            assert(sv.take(i as int) =~= sv);
            sv.lemma_flatten_and_flatten_alt_are_equivalent();
        }
        let key = program_id.serialize();
        push_all(&mut buf, key.as_slice());
        let digest = sha256_digest(buf.as_slice());
        Self::from_hex_digest(digest.as_str())
    }

    /// The key spelled by a 64-digit hexadecimal digest; other text is refused
    /// as invalid seeds.
    pub fn from_hex_digest(digest: &str) -> (r: Result<Pubkey, ProgramError>)
        ensures
            r is Ok <==> (digest@.len() == 64 && forall|i: int| 0 <= i < 64 ==> is_hex_digit(#[trigger] digest@[i])),
            r matches Ok(p) ==> p@ == hex_bytes(digest@),
            r matches Err(e) ==> e == ProgramError::InvalidSeeds,
    {
        if digest.unicode_len() != 64 {
            return Err(ProgramError::InvalidSeeds);
        }
        let hash = match hex_decode(digest) {
            Some(h) => h,
            None => {
                return Err(ProgramError::InvalidSeeds);
            },
        };
        if Self::is_on_curve(hash.as_slice()) {
            return Err(ProgramError::InvalidSeeds);
        }
        let p = Self::from_slice(hash.as_slice());
        assert(p@ =~= hash@);
        Ok(p)
    }

    /// Finds the address of `seeds` with one more seed, the bump byte, tried
    /// from 255 downward; `None` where the seeds are refused.
    pub fn try_find_program_address(seeds: &[&[u8]], program_id: &Pubkey) -> (r: Option<(Pubkey, u8)>)
        ensures
            r is Some <==> seeds_ok(seed_views(seeds@).push(seq![255u8])),
            r matches Some(found) ==> found.1 == 255 && found.0@ == program_address(
                seed_views(seeds@).push(seq![255u8]),
                program_id@,
            ),
    {
        let mut bump: u8 = 255;
        let mut n: usize = 0;
        while n < 255
            invariant
                n == 0,
                bump == 255,
            ensures
                !seeds_ok(seed_views(seeds@).push(seq![255u8])),
            decreases 255 - n,
        {
            let bump_seed = [bump];
            let mut with_bump: Vec<&[u8]> = Vec::new();
            let mut i: usize = 0;
            while i < seeds.len()
                invariant
                    i <= seeds@.len(),
                    with_bump@ == seeds@.take(i as int),
                decreases seeds@.len() - i,
            {
                with_bump.push(seeds[i]);
                i = i + 1;
            }
            with_bump.push(bump_seed.as_slice());
            proof {
                assert(bump_seed@ =~= seq![255u8]);
                assert(seeds@.take(i as int) =~= seeds@);
                assert(seed_views(with_bump@) =~= seed_views(seeds@).push(seq![255u8]));
            }
            match Self::create_program_address(with_bump.as_slice(), program_id) {
                Ok(address) => {
                    return Some((address, bump));
                },
                Err(ProgramError::InvalidSeeds) => {},
                Err(_) => {
                    break;
                },
            }
            bump = bump - 1;
            n = n + 1;
        }
        None
    }

    /// The address of `seeds` and its bump byte; the seeds must leave room for
    /// the bump seed and none may be too long.
    pub fn find_program_address(seeds: &[&[u8]], program_id: &Pubkey) -> (r: (Pubkey, u8))
        requires
            seeds_ok(seed_views(seeds@).push(seq![255u8])),
        ensures
            r.1 == 255,
            r.0@ == program_address(seed_views(seeds@).push(seq![255u8]), program_id@),
    {
        match Self::try_find_program_address(seeds, program_id) {
            Some(found) => found,
            None => {
                assert(false);
                (Pubkey::system_program(), 0)
            },
        }
    }
}

/// The eight bytes of `x`, most significant first.
pub open spec fn u64_be(x: u64) -> Seq<u8> {
    seq![
        (x / 72057594037927936) as u8,
        ((x / 281474976710656) % 256) as u8,
        ((x / 1099511627776) % 256) as u8,
        ((x / 4294967296) % 256) as u8,
        ((x / 16777216) % 256) as u8,
        ((x / 65536) % 256) as u8,
        ((x / 256) % 256) as u8,
        (x % 256) as u8,
    ]
}

/// A key stands for its bytes: `serialize` gives back the bytes it was made
/// from, and `from_slice` of those bytes gives back the key.
pub proof fn lemma_serialize_round_trip(k: Pubkey)
    ensures
        zero_padded(k@) == k@,
{
    assert(zero_padded(k@) =~= k@);
}

} // verus!
