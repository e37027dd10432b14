use vstd::prelude::*;
use crate::elgamal;
use crate::curve::{decoding_failure, Point};
use crate::error::Error;
use crate::keys::{key_failure, EncryptionKey};

verus! {

/// The identifier of an account on the ledger: the 32-byte encoding of the
/// account's encryption key. Two addresses are equal exactly when their
/// bytes are.
#[derive(Clone, Copy, Debug, PartialEq, Eq)]
pub struct PkdAddress {
    bytes: [u8; 32],
}

impl View for PkdAddress {
    type V = Seq<u8>;

    closed spec fn view(&self) -> Seq<u8> {
        self.bytes@
    }
}

impl PkdAddress {
    /// The address with these bytes. Nothing is checked of them.
    pub fn from_bytes(bytes: [u8; 32]) -> (address: PkdAddress)
        ensures
            address@ == bytes@,
    {
        PkdAddress { bytes }
    }

    /// The address of an encryption key: the key's encoding.
    pub fn from_encryption_key(key: &EncryptionKey) -> (address: PkdAddress)
        ensures
            address@ == key@,
            key_failure(address@) is None,
    {
        PkdAddress { bytes: key.to_bytes() }
    }

    /// The encryption key that the address encodes, if it encodes one.
    pub fn to_encryption_key(&self) -> (r: Result<EncryptionKey, Error>)
        ensures
            match r {
                Ok(key) => key_failure(self@) is None && key@ == self@,
                Err(e) => key_failure(self@) == Some(e),
            },
    {
        EncryptionKey::from_bytes(self.bytes)
    }

    /// The address's bytes.
    pub fn to_bytes(&self) -> (bytes: [u8; 32])
        ensures
            bytes@ == self@,
    {
        self.bytes
    }
}

/// The key with which an account's signatures are verified: 32 bytes that
/// this library carries and does not interpret.
#[derive(Clone, Copy, Debug, PartialEq, Eq)]
pub struct SigVerificationKey {
    pub bytes: [u8; 32],
}

/// The identifier of a block authority: 32 bytes that this library carries
/// and does not interpret.
#[derive(Clone, Copy, Debug, PartialEq, Eq)]
pub struct AuthorityId {
    pub bytes: [u8; 32],
}

/// The encoding of a ciphertext: its first point's 32 bytes, then its
/// second point's.
pub open spec fn ciphertext_encoding(ciphertext: (Seq<u8>, Seq<u8>)) -> Seq<u8> {
    ciphertext.0 + ciphertext.1
}

/// What reading a byte string as a ciphertext fails with, if it fails: a
/// string that is not 64 bytes long, or whose first half is no point, fails
/// as the first half does; otherwise it fails as the second half does.
pub open spec fn ciphertext_failure(bytes: Seq<u8>) -> Option<Error> {
    if bytes.len() != 64 {
        Some(Error::PointNotOnCurve)
    } else if decoding_failure(bytes.subrange(0, 32)) is Some {
        decoding_failure(bytes.subrange(0, 32))
    } else {
        decoding_failure(bytes.subrange(32, 64))
    }
}

/// An encrypted balance as the ledger stores it: a byte string.
#[derive(Clone, Debug, PartialEq, Eq)]
pub struct Ciphertext {
    bytes: Vec<u8>,
}

impl View for Ciphertext {
    type V = Seq<u8>;

    closed spec fn view(&self) -> Seq<u8> {
        self.bytes@
    }
}

/// Copies 32 bytes out of a byte string, starting at `from`.
fn take_32(bytes: &Vec<u8>, from: usize) -> (out: [u8; 32])
    requires
        from + 32 <= bytes@.len(),
    ensures
        out@ == bytes@.subrange(from as int, from + 32),
{
    let len = bytes.len();
    let mut out = [0u8; 32];
    let mut i: usize = 0;
    while i < 32
        invariant
            i <= 32,
            len == bytes@.len(),
            from + 32 <= len,
            forall|j: int| 0 <= j < i ==> out@[j] == bytes@[from + j],
        decreases 32 - i,
    {
        out[i] = bytes[from + i];
        i += 1;
    }
    assert(out@ =~= bytes@.subrange(from as int, from + 32));
    out
}

/// Appends 32 bytes to a byte string.
fn append_32(out: &mut Vec<u8>, bytes: &[u8; 32])
    ensures
        final(out)@ == old(out)@ + bytes@,
{
    let ghost before = out@;
    let mut i: usize = 0;
    while i < 32
        invariant
            i <= 32,
            out@ == before + bytes@.subrange(0, i as int),
        decreases 32 - i,
    {
        out.push(bytes[i]);
        assert(out@ =~= before + bytes@.subrange(0, i + 1));
        i += 1;
    }
    assert(bytes@.subrange(0, 32) =~= bytes@);
}

impl Ciphertext {
    /// The stored form of these bytes. Nothing is checked of them.
    pub fn from_bytes(bytes: Vec<u8>) -> (c: Ciphertext)
        ensures
            c@ == bytes@,
    {
        Ciphertext { bytes }
    }

    /// The stored form of a ciphertext: its encoding in 64 bytes.
    pub fn from_ciphertext(ciphertext: &elgamal::Ciphertext) -> (c: Ciphertext)
        ensures
            c@ == ciphertext_encoding(ciphertext@),
            c@.len() == 64,
            ciphertext_failure(c@) is None,
    {
        let mut bytes: Vec<u8> = Vec::new();
        let left = ciphertext.left().to_bytes();
        let right = ciphertext.right().to_bytes();
        append_32(&mut bytes, &left);
        append_32(&mut bytes, &right);
        assert(bytes@ =~= ciphertext_encoding(ciphertext@));
        assert(bytes@.subrange(0, 32) =~= left@);
        assert(bytes@.subrange(32, 64) =~= right@);
        Ciphertext { bytes }
    }

    /// The ciphertext that the stored bytes encode, if they encode one.
    pub fn to_ciphertext(&self) -> (r: Result<elgamal::Ciphertext, Error>)
        ensures
            match r {
                Ok(c) => ciphertext_failure(self@) is None && ciphertext_encoding(c@) == self@,
                Err(e) => ciphertext_failure(self@) == Some(e),
            },
    {
        if self.bytes.len() != 64 {
            return Err(Error::PointNotOnCurve);
        }
        let left = match Point::from_bytes(take_32(&self.bytes, 0)) {
            Ok(p) => p,
            Err(e) => {
                return Err(e);
            },
        };
        let right = match Point::from_bytes(take_32(&self.bytes, 32)) {
            Ok(p) => p,
            Err(e) => {
                return Err(e);
            },
        };
        let c = elgamal::Ciphertext::from_points(left, right);
        assert(ciphertext_encoding(c@) =~= self@);
        Ok(c)
    }

    /// The stored bytes.
    pub fn as_bytes(&self) -> (bytes: &Vec<u8>)
        ensures
            bytes@ == self@,
    {
        &self.bytes
    }
}

/// How reading the verifying-key file can fail.
#[derive(Clone, Copy, Debug, PartialEq, Eq, Structural)]
pub enum ReadFailure {
    /// There is no file at the path.
    NotFound,
    /// The file is there and could not be read.
    Other,
}

/// The verifying key that development chains are built with.
pub const EMBEDDED_VK: [u8; 48] = [
    122, 101, 114, 111, 99, 104, 97, 105, 110, 32, 100, 101, 118, 32, 118, 107,
    0, 1, 2, 3, 4, 5, 6, 7, 8, 9, 10, 11, 12, 13, 14, 15,
    16, 17, 18, 19, 20, 21, 22, 23, 24, 25, 26, 27, 28, 29, 30, 31,
];

/// A prepared verifying key of the proof system: a byte string that this
/// library carries and does not interpret.
#[derive(Clone, Debug, PartialEq, Eq)]
pub struct PreparedVk {
    bytes: Vec<u8>,
}

impl View for PreparedVk {
    type V = Seq<u8>;

    closed spec fn view(&self) -> Seq<u8> {
        self.bytes@
    }
}

impl PreparedVk {
    /// The key with exactly these bytes.
    pub fn from_bytes(bytes: Vec<u8>) -> (vk: PreparedVk)
        ensures
            vk@ == bytes@,
    {
        PreparedVk { bytes }
    }

    /// The key that is built into the library.
    pub fn load_embedded() -> (vk: PreparedVk)
        ensures
            vk@ == EMBEDDED_VK@,
    {
        let mut bytes: Vec<u8> = Vec::new();
        let mut i: usize = 0;
        while i < 48
            invariant
                i <= 48,
                bytes@ == EMBEDDED_VK@.subrange(0, i as int),
            decreases 48 - i,
        {
            bytes.push(EMBEDDED_VK[i]);
            assert(bytes@ =~= EMBEDDED_VK@.subrange(0, i + 1));
            i += 1;
        }
        assert(EMBEDDED_VK@.subrange(0, 48) =~= EMBEDDED_VK@);
        PreparedVk { bytes }
    }

    /// The key that reading a file gave: the file's bytes, unchanged, or
    /// the failure of the read.
    pub fn from_read(outcome: Result<Vec<u8>, ReadFailure>) -> (r: Result<PreparedVk, Error>)
        ensures
            match outcome {
                Ok(bytes) => r is Ok && r->Ok_0@ == bytes@,
                Err(ReadFailure::NotFound) => r == Err::<PreparedVk, Error>(Error::FileNotFound),
                Err(ReadFailure::Other) => r == Err::<PreparedVk, Error>(Error::IoError),
            },
    {
        match outcome {
            Ok(bytes) => Ok(PreparedVk { bytes }),
            Err(ReadFailure::NotFound) => Err(Error::FileNotFound),
            Err(ReadFailure::Other) => Err(Error::IoError),
        }
    }

    /// The key's bytes.
    pub fn as_bytes(&self) -> (bytes: &Vec<u8>)
        ensures
            bytes@ == self@,
    {
        &self.bytes
    }
}

} // verus!
