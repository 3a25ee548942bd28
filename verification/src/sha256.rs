//! Incremental SHA-256 of a file whose bytes arrive piece by piece.
use sha2::{Digest, Sha256};
use vstd::prelude::*;

verus! {

/// The hasher of the crate sha2. What it holds is the message it has taken in so far.
#[verifier::external_body]
pub struct Hasher {
    digest: Sha256,
}

/// The bytes that a hasher has taken in so far.
pub uninterp spec fn absorbed(hasher: Hasher) -> Seq<u8>;

/// The SHA-256 digest of a message.
pub uninterp spec fn sha256(message: Seq<u8>) -> Seq<u8>;

/// `Sha256::new` of the crate sha2: a hasher that has taken in nothing.
#[verifier::external_body]
fn new_hasher() -> (hasher: Hasher)
    ensures
        absorbed(hasher) == Seq::<u8>::empty(),
{
    Hasher { digest: Sha256::new() }
}

/// `Digest::update` of the crate sha2: the hasher takes in `data` behind what it has.
#[verifier::external_body]
fn update(hasher: &mut Hasher, data: &[u8])
    ensures
        absorbed(*final(hasher)) == absorbed(*old(hasher)) + data@,
{
    hasher.digest.update(data);
}

/// `Digest::finalize` of the crate sha2: the 32 bytes of the digest of what the hasher took in.
/// The crate counts the message's bits in a 64-bit word, which bounds the message.
#[verifier::external_body]
fn finalize(hasher: Hasher) -> (digest: Vec<u8>)
    requires
        absorbed(hasher).len() < 0x2000_0000_0000_0000,
    ensures
        digest@ == sha256(absorbed(hasher)),
        digest@.len() == 32,
{
    hasher.digest.finalize().to_vec()
}

/// The lower-case hexadecimal digit of `n`.
pub open spec fn hex_digit(n: nat) -> char {
    if n < 10 {
        (n + '0' as nat) as char
    } else {
        (n - 10 + 'a' as nat) as char
    }
}

/// Two lower-case hexadecimal digits for each byte.
pub open spec fn hex(bytes: Seq<u8>) -> Seq<char>
    decreases bytes.len(),
{
    if bytes.len() == 0 {
        Seq::empty()
    } else {
        hex(bytes.drop_last()).push(hex_digit((bytes.last() / 16) as nat)).push(
            hex_digit((bytes.last() % 16) as nat),
        )
    }
}

fn push_hex_digit(text: &mut String, n: u8)
    requires
        n < 16,
    ensures
        final(text)@ == old(text)@.push(hex_digit(n as nat)),
{
    if n < 10 {
        text.push((n + 48u8) as char);
    } else {
        text.push((n - 10 + 97u8) as char);
    }
}

fn hex_text(bytes: &Vec<u8>) -> (text: String)
    ensures
        text@ == hex(bytes@),
{
    let mut text: String = String::new();
    let mut i: usize = 0;
    while i < bytes.len()
        invariant
            i <= bytes.len(),
            text@ == hex(bytes@.take(i as int)),
        decreases bytes.len() - i,
    {
        assert(bytes@.take(i + 1).drop_last() =~= bytes@.take(i as int));
        let byte: u8 = bytes[i];
        push_hex_digit(&mut text, byte / 16);
        push_hex_digit(&mut text, byte % 16);
        i += 1;
    }
    assert(bytes@.take(i as int) =~= bytes@);
    text
}

/// The largest piece of a file that is read at once.
pub const READ_BYTES: u64 = 4194304;

/// A hasher that has taken in the first bytes of a file.
pub struct HashCursor {
    hasher: Hasher,
    bytes_hashed: u64,
}

/// Why a file could not be hashed as a whole.
#[derive(Clone, Copy, Debug, PartialEq, Eq, Structural)]
pub enum HashError {
    /// The file ended before the given byte could be read.
    UnexpectedEof { at: u64 },
    /// The bytes that were hashed are not the whole file.
    Incomplete,
}

impl HashCursor {
    /// The bytes hashed so far.
    pub closed spec fn message(self) -> Seq<u8> {
        absorbed(self.hasher)
    }

    /// The cursor counts the bytes it has hashed.
    pub closed spec fn wf(self) -> bool {
        self.bytes_hashed == absorbed(self.hasher).len()
    }

    pub fn new() -> (cursor: Self)
        ensures
            cursor.wf(),
            cursor.message() == Seq::<u8>::empty(),
    {
        HashCursor { hasher: new_hasher(), bytes_hashed: 0 }
    }

    pub fn bytes_hashed(&self) -> (n: u64)
        requires
            self.wf(),
        ensures
            n == self.message().len(),
    {
        self.bytes_hashed
    }

    /// How many bytes to read next so that the file is hashed up to `end`; zero once it is.
    pub fn next_read(&self, end: u64) -> (n: usize)
        requires
            self.wf(),
        ensures
            self.message().len() >= end ==> n == 0,
            self.message().len() < end ==> n == if end - self.message().len() < READ_BYTES {
                end - self.message().len()
            } else {
                READ_BYTES as int
            },
    {
        if self.bytes_hashed >= end {
            return 0;
        }
        let remaining: u64 = end - self.bytes_hashed;
        if remaining < READ_BYTES {
            remaining as usize
        } else {
            READ_BYTES as usize
        }
    }

    /// Takes in the next bytes of the file, as a read returned them. A read that returned nothing
    /// means that the file ended too early, and leaves the cursor as it was.
    pub fn absorb(&mut self, data: &[u8]) -> (r: Result<(), HashError>)
        requires
            old(self).wf(),
            old(self).message().len() + data@.len() <= u64::MAX,
        ensures
            final(self).wf(),
            final(self).message() == old(self).message() + data@,
            data@.len() == 0 ==> r == Err::<(), HashError>(
                HashError::UnexpectedEof { at: old(self).message().len() as u64 },
            ),
            data@.len() > 0 ==> r is Ok,
    {
        if data.len() == 0 {
            assert(self.message() + data@ =~= self.message());
            return Err(HashError::UnexpectedEof { at: self.bytes_hashed });
        }
        update(&mut self.hasher, data);
        self.bytes_hashed = self.bytes_hashed + data.len() as u64;
        Ok(())
    }

    /// The digest of the whole file in hexadecimal, if exactly `expected_size` bytes were hashed.
    pub fn finish_sha256(self, expected_size: u64) -> (r: Result<String, HashError>)
        requires
            self.wf(),
            expected_size < 0x2000_0000_0000_0000,
        ensures
            self.message().len() == expected_size ==> r is Ok && r->Ok_0@ == hex(
                sha256(self.message()),
            ) && r->Ok_0@.len() == 64,
            self.message().len() != expected_size ==> r is Err && r->Err_0
                == HashError::Incomplete,
    {
        if self.bytes_hashed != expected_size {
            return Err(HashError::Incomplete);
        }
        let digest: Vec<u8> = finalize(self.hasher);
        proof {
            lemma_hex_len(digest@);
        }
        Ok(hex_text(&digest))
    }
}

/// Every byte takes two hexadecimal digits.
pub proof fn lemma_hex_len(bytes: Seq<u8>)
    ensures
        hex(bytes).len() == 2 * bytes.len(),
    decreases bytes.len(),
{
    if bytes.len() > 0 {
        lemma_hex_len(bytes.drop_last());
    }
}

/// A file that is hashed piece by piece has the digest of the whole file: a cursor that holds the
/// first `from` bytes and takes in the bytes up to `to` holds the first `to` bytes.
pub proof fn lemma_pieces_make_the_prefix(file: Seq<u8>, from: int, to: int)
    requires
        0 <= from <= to <= file.len(),
    ensures
        file.take(from) + file.subrange(from, to) == file.take(to),
        to == file.len() ==> sha256(file.take(to)) == sha256(file),
{
    assert(file.take(from) + file.subrange(from, to) =~= file.take(to));
    assert(file.take(file.len() as int) =~= file);
}

} // verus!
