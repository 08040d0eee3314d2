//! SHA-256 digests and their hexadecimal text.
use sha2::{Digest, Sha256};
use vstd::prelude::*;

verus! {

/// The SHA-256 digest of a byte sequence, as `Digest::finalize` of `sha2::Sha256` gives it.
pub uninterp spec fn sha256_of(bytes: Seq<u8>) -> Seq<u8>;

/// The bytes that a running digest has taken in.
pub uninterp spec fn absorbed(digest: RunningDigest) -> Seq<u8>;

/// A SHA-256 computation that takes its input in pieces. It holds a `sha2::Sha256`, which is an
/// alias of a generic type. The bounds of that type are traits of other crates, so that it cannot be
/// declared by itself.
#[verifier::external_body]
pub struct RunningDigest {
    hasher: Sha256,
}

impl RunningDigest {
    /// `Sha256::new`: a hasher that has taken in nothing.
    #[verifier::external_body]
    pub(crate) fn start() -> (digest: RunningDigest)
        ensures
            absorbed(digest) == Seq::<u8>::empty(),
    {
        RunningDigest { hasher: Sha256::new() }
    }

    /// `Sha256::update`: the hasher has taken in the piece behind what it had before.
    #[verifier::external_body]
    pub(crate) fn absorb(&mut self, piece: &[u8])
        ensures
            absorbed(*final(self)) == absorbed(*old(self)) + piece@,
    {
        self.hasher.update(piece);
    }

    /// `Sha256::finalize`: the digest, of 32 bytes, of all that was taken in.
    #[verifier::external_body]
    pub(crate) fn finish(self) -> (digest: Vec<u8>)
        ensures
            digest@ == sha256_of(absorbed(self)),
            digest@.len() == 32,
    {
        self.hasher.finalize().to_vec()
    }

    /// A digest of nothing so far.
    pub fn new() -> (digest: RunningDigest)
        ensures
            absorbed(digest) == Seq::<u8>::empty(),
    {
        Self::start()
    }

    /// Takes in the next piece.
    pub fn update(&mut self, piece: &[u8])
        ensures
            absorbed(*final(self)) == absorbed(*old(self)) + piece@,
    {
        self.absorb(piece);
    }

    /// The digest of all pieces in their order.
    pub fn finalize(self) -> (digest: Vec<u8>)
        ensures
            digest@ == sha256_of(absorbed(self)),
            digest@.len() == 32,
    {
        self.finish()
    }
}

/// The digest of a whole byte sequence.
pub fn sha256(bytes: &[u8]) -> (digest: Vec<u8>)
    ensures
        digest@ == sha256_of(bytes@),
        digest@.len() == 32,
{
    let mut running: RunningDigest = RunningDigest::new();
    running.update(bytes);
    proof {
        assert(absorbed(running) == bytes@);
    }
    running.finalize()
}

/// Whether two byte sequences are the same.
pub fn same_bytes(a: &Vec<u8>, b: &Vec<u8>) -> (same: bool)
    ensures
        same == (a@ == b@),
{
    if a.len() != b.len() {
        return false;
    }
    let mut i: usize = 0;
    while i < a.len()
        invariant
            i <= a.len(),
            a.len() == b.len(),
            forall|j: int| 0 <= j < i ==> a@[j] == b@[j],
        decreases a.len() - i,
    {
        if a[i] != b[i] {
            return false;
        }
        i = i + 1;
    }
    proof {
        assert(a@ == b@);
    }
    true
}

/// The lower-case hexadecimal digit of a number below 16.
pub open spec fn hex_digit(value: int) -> char {
    if value < 10 {
        (('0' as int) + value) as char
    } else {
        (('a' as int) + (value - 10)) as char
    }
}

/// Two hexadecimal digits for each byte, the high one first.
pub open spec fn hex_text(bytes: Seq<u8>) -> Seq<char> {
    Seq::new(
        2 * bytes.len(),
        |i: int|
            hex_digit(
                if i % 2 == 0 {
                    bytes[i / 2] / 16
                } else {
                    bytes[i / 2] % 16
                } as int,
            ),
    )
}

fn digit(value: u8) -> (result: char)
    requires
        value < 16,
    ensures
        result == hex_digit(value as int),
{
    if value < 10 {
        (48u8 + value) as char
    } else {
        (97u8 + (value - 10)) as char
    }
}

/// The hexadecimal text of a byte sequence.
pub fn hex(bytes: &[u8]) -> (text: String)
    ensures
        text@ == hex_text(bytes@),
{
    let mut text: String = String::new();
    let mut i: usize = 0;
    while i < bytes.len()
        invariant
            i <= bytes.len(),
            text@ == hex_text(bytes@).take(2 * i),
        decreases bytes.len() - i,
    {
        let ghost before = text@;
        text.push(digit(bytes[i] / 16));
        text.push(digit(bytes[i] % 16));
        proof {
            let all = hex_text(bytes@);
            assert(all[2 * i] == hex_digit((bytes@[i as int] / 16) as int));
            assert((2 * i + 1) / 2 == i as int);
            assert(all[2 * i + 1] == hex_digit((bytes@[i as int] % 16) as int));
            assert(all.take(2 * (i + 1)) == before.push(all[2 * i]).push(all[2 * i + 1]));
        }
        i = i + 1;
    }
    proof {
        assert(hex_text(bytes@).take(2 * i) == hex_text(bytes@));
    }
    text
}

/// The digits below ten are those of decimal numbers, the others the letters from `a` to `f`.
pub proof fn hex_digits_are_lower_case(value: int)
    ensures
        0 <= value < 10 ==> hex_digit(value) as int == 48 + value,
        10 <= value < 16 ==> hex_digit(value) as int == 97 + (value - 10),
{
}

/// Different numbers have different digits.
pub proof fn hex_digits_are_told_apart(a: int, b: int)
    requires
        0 <= a < 16,
        0 <= b < 16,
        a != b,
    ensures
        hex_digit(a) != hex_digit(b),
{
    hex_digits_are_lower_case(a);
    hex_digits_are_lower_case(b);
}

/// The text of bytes is that of the first ones followed by that of the others, and a byte is
/// written by its high digit and then its low one.
pub proof fn bytes_are_written_one_by_one(front: Seq<u8>, byte: u8, back: Seq<u8>)
    ensures
        hex_text(front + back) == hex_text(front) + hex_text(back),
        hex_text(seq![byte]) == seq![hex_digit((byte / 16) as int), hex_digit((byte % 16) as int)],
        hex_text(Seq::empty()).len() == 0,
{
    let all = front + back;
    let text = hex_text(front) + hex_text(back);
    assert forall|i: int| 0 <= i < 2 * all.len() implies hex_text(all)[i] == text[i] by {
        if i < 2 * front.len() {
            assert(all[i / 2] == front[i / 2]);
        } else {
            let j = i - 2 * front.len();
            assert(j / 2 == i / 2 - front.len() && j % 2 == i % 2);
            assert(all[i / 2] == back[j / 2]);
        }
    }
    assert(hex_text(all) =~= text);
    assert(hex_text(seq![byte]) =~= seq![
        hex_digit((byte / 16) as int),
        hex_digit((byte % 16) as int),
    ]);
}

} // verus!
