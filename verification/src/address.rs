//! Ledger addresses and transaction signatures as plain bytes.

use vstd::prelude::*;

verus! {

/// The system program, `11111111111111111111111111111111`.
pub const SYSTEM_PROGRAM: [u8; 32] = [
    0, 0, 0, 0, 0, 0, 0, 0, 0, 0, 0, 0, 0, 0, 0, 0,
    0, 0, 0, 0, 0, 0, 0, 0, 0, 0, 0, 0, 0, 0, 0, 0,
];

/// The token program, `TokenkegQfeZyiNwAJbNbGKPFXCWuBvf9Ss623VQ5DA`.
pub const TOKEN_PROGRAM: [u8; 32] = [
    6, 221, 246, 225, 215, 101, 161, 147, 217, 203, 225, 70, 206, 235, 121, 172,
    28, 180, 133, 237, 95, 91, 55, 145, 58, 140, 245, 133, 126, 255, 0, 169,
];

/// The associated-token-account program,
/// `ATokenGPvbdGVxr1b2hvZbsiqW5xWH25efTNsLJA8knL`.
pub const ASSOCIATED_TOKEN_PROGRAM: [u8; 32] = [
    140, 151, 37, 143, 78, 36, 137, 241, 187, 61, 16, 41, 20, 142, 13, 131,
    11, 90, 19, 153, 218, 255, 16, 132, 4, 142, 123, 216, 219, 233, 248, 89,
];

/// The token-metadata program, `metaqbxxUerdq28cj1RbAWkYQm3ybzjb6a8bt518x1s`.
pub const TOKEN_METADATA_PROGRAM: [u8; 32] = [
    11, 112, 101, 177, 227, 209, 124, 69, 56, 157, 82, 127, 107, 4, 195, 205,
    88, 184, 108, 115, 26, 160, 253, 181, 73, 182, 209, 188, 3, 248, 41, 70,
];

/// The candy-machine program, `cndy3Z4yapfJBmL3ShUp5exZKqR3z33thTzeNMm2gRZ`.
pub const CANDY_MACHINE_PROGRAM: [u8; 32] = [
    9, 42, 238, 61, 252, 45, 14, 85, 120, 35, 19, 131, 121, 105, 234, 245,
    33, 81, 192, 150, 192, 107, 92, 42, 130, 240, 134, 165, 3, 232, 44, 52,
];

/// The rent sysvar, `SysvarRent111111111111111111111111111111111`.
pub const RENT_SYSVAR: [u8; 32] = [
    6, 167, 213, 23, 25, 44, 92, 81, 33, 140, 201, 76, 61, 74, 241, 127,
    88, 218, 238, 8, 155, 161, 253, 68, 227, 219, 217, 138, 0, 0, 0, 0,
];

/// The clock sysvar, `SysvarC1ock11111111111111111111111111111111`.
pub const CLOCK_SYSVAR: [u8; 32] = [
    6, 167, 213, 23, 24, 199, 116, 201, 40, 86, 99, 152, 105, 29, 94, 182,
    139, 94, 184, 163, 155, 75, 109, 92, 115, 85, 91, 33, 0, 0, 0, 0,
];

/// The recent-blockhashes sysvar,
/// `SysvarRecentB1ockHashes11111111111111111111`.
pub const RECENT_BLOCKHASHES_SYSVAR: [u8; 32] = [
    6, 167, 213, 23, 25, 44, 86, 142, 224, 138, 132, 95, 115, 210, 151, 136,
    207, 3, 92, 49, 69, 178, 26, 179, 68, 216, 6, 46, 169, 64, 0, 0,
];

/// The instructions sysvar, `Sysvar1nstructions1111111111111111111111111`.
pub const INSTRUCTIONS_SYSVAR: [u8; 32] = [
    6, 167, 213, 23, 24, 123, 209, 102, 53, 218, 212, 4, 85, 253, 194, 192,
    193, 36, 198, 143, 33, 86, 117, 165, 219, 186, 203, 95, 8, 0, 0, 0,
];

/// A 32-byte ledger address: an account, a program or a sysvar.
#[derive(Clone, Copy, Debug, PartialEq, Eq, Hash)]
pub struct Address {
    pub bytes: [u8; 32],
}

impl View for Address {
    type V = Seq<u8>;

    open spec fn view(&self) -> Seq<u8> {
        self.bytes@
    }
}

impl Address {
    /// Builds an address from its 32 bytes.
    pub fn new(bytes: [u8; 32]) -> (a: Address)
        ensures
            a@ == bytes@,
            a.bytes == bytes,
    {
        Address { bytes }
    }

    /// Whether two addresses hold the same bytes.
    pub fn same(&self, other: &Address) -> (r: bool)
        ensures
            r == (self@ == other@),
            r == (*self == *other),
    {
        let mut i: usize = 0;
        while i < 32
            invariant
                i <= 32,
                forall|j: int| 0 <= j < i ==> self.bytes[j] == other.bytes[j],
            decreases 32 - i,
        {
            if self.bytes[i] != other.bytes[i] {
                assert(self@[i as int] != other@[i as int]);
                return false;
            }
            i += 1;
        }
        assert(self@ =~= other@);
        assert(self.bytes =~= other.bytes);
        true
    }

    /// The address as a fresh byte vector, for use as a derivation seed.
    pub fn to_vec(&self) -> (v: Vec<u8>)
        ensures
            v@ == self@,
    {
        let mut v: Vec<u8> = Vec::new();
        let mut i: usize = 0;
        while i < 32
            invariant
                i <= 32,
                v@ == self@.take(i as int),
            decreases 32 - i,
        {
            v.push(self.bytes[i]);
            assert(self@.take(i as int + 1) =~= self@.take(i as int).push(self@[i as int]));
            i += 1;
        }
        assert(self@.take(32) =~= self@);
        v
    }
}

/// A 64-byte transaction signature.
#[derive(Clone, Copy, Debug, PartialEq, Eq)]
pub struct Signature {
    pub bytes: [u8; 64],
}

impl View for Signature {
    type V = Seq<u8>;

    open spec fn view(&self) -> Seq<u8> {
        self.bytes@
    }
}

impl Signature {
    /// Builds a signature from its 64 bytes.
    pub fn new(bytes: [u8; 64]) -> (s: Signature)
        ensures
            s@ == bytes@,
            s.bytes == bytes,
    {
        Signature { bytes }
    }

    /// The signature as a fresh byte vector.
    pub fn to_vec(&self) -> (v: Vec<u8>)
        ensures
            v@ == self@,
    {
        let mut v: Vec<u8> = Vec::new();
        let mut i: usize = 0;
        while i < 64
            invariant
                i <= 64,
                v@ == self@.take(i as int),
            decreases 64 - i,
        {
            v.push(self.bytes[i]);
            assert(self@.take(i as int + 1) =~= self@.take(i as int).push(self@[i as int]));
            i += 1;
        }
        assert(self@.take(64) =~= self@);
        v
    }
}

/// The ledger network a request is sent to.
#[derive(Clone, Copy, Debug, PartialEq, Eq)]
pub enum Cluster {
    Devnet,
    Testnet,
    Mainnet,
    Localnet,
}

} // verus!
