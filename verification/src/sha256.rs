//! The digest of the release archive, as the recipe states it: SHA-256, in
//! lowercase hexadecimal.
//!
//! The compression function is not this crate's: the bytes go through
//! `hmac_sha256::Hash`. What is proved here is the bookkeeping around it (what
//! has been fed, and that no length overflows) and the hexadecimal form.

use vstd::prelude::*;

verus! {

/// `hmac_sha256::Hash`, the streaming hasher. Nothing inside it is known
/// here; it is only carried from one call to the next.
#[verifier::external_type_specification]
#[verifier::external_body]
pub struct ExHash(hmac_sha256::Hash);

/// The SHA-256 digest of a byte string: what `hmac_sha256::Hash::finalize`
/// returns for a hasher that has absorbed exactly these bytes. Nothing but
/// that is assumed of it.
pub uninterp spec fn sha256(bytes: Seq<u8>) -> Seq<u8>;

/// Everything that an `hmac_sha256::Hash` has absorbed since it was made, in
/// order: the inputs of all calls of `update` on it, joined.
pub uninterp spec fn absorbed(hasher: hmac_sha256::Hash) -> Seq<u8>;

/// `hmac_sha256::Hash::new`: a hasher that has absorbed nothing yet.
#[verifier::external_body]
fn hash_new() -> (hasher: hmac_sha256::Hash)
    ensures
        absorbed(hasher) == Seq::<u8>::empty(),
{
    hmac_sha256::Hash::new()
}

/// `hmac_sha256::Hash::update`: the hasher absorbs `input` after what it
/// holds. It counts the bytes in a `usize`, so the total has to fit in one.
#[verifier::external_body]
fn hash_update(hasher: &mut hmac_sha256::Hash, input: &[u8])
    requires
        absorbed(*old(hasher)).len() + input@.len() <= usize::MAX,
    ensures
        absorbed(*final(hasher)) == absorbed(*old(hasher)) + input@,
{
    hasher.update(input)
}

/// `hmac_sha256::Hash::finalize`: the digest of all that was absorbed. It
/// computes the length in bits in a `usize`, so that has to fit in one too.
#[verifier::external_body]
fn hash_finalize(hasher: hmac_sha256::Hash) -> (digest: [u8; 32])
    requires
        absorbed(hasher).len() * 8 <= usize::MAX,
    ensures
        digest@ == sha256(absorbed(hasher)),
{
    hasher.finalize()
}

/// The sixteen digits, by value.
pub open spec fn hex_digits() -> Seq<char> {
    seq!['0', '1', '2', '3', '4', '5', '6', '7', '8', '9', 'a', 'b', 'c', 'd', 'e', 'f']
}

/// A byte as two lowercase hexadecimal digits, the high half first.
pub open spec fn hex_byte(byte: u8) -> Seq<char> {
    seq![hex_digits()[byte as int / 16], hex_digits()[byte as int % 16]]
}

/// A byte string in lowercase hexadecimal: two digits for each byte.
pub open spec fn hex(bytes: Seq<u8>) -> Seq<char> {
    bytes.flat_map(|byte: u8| hex_byte(byte))
}

fn digit(value: u8) -> (r: &'static str)
    requires
        value < 16,
    ensures
        r@ == seq![hex_digits()[value as int]],
{
    proof {
        reveal_strlit("0");
        reveal_strlit("1");
        reveal_strlit("2");
        reveal_strlit("3");
        reveal_strlit("4");
        reveal_strlit("5");
        reveal_strlit("6");
        reveal_strlit("7");
        reveal_strlit("8");
        reveal_strlit("9");
        reveal_strlit("a");
        reveal_strlit("b");
        reveal_strlit("c");
        reveal_strlit("d");
        reveal_strlit("e");
        reveal_strlit("f");
    }
    let r = match value {
        0 => "0",
        1 => "1",
        2 => "2",
        3 => "3",
        4 => "4",
        5 => "5",
        6 => "6",
        7 => "7",
        8 => "8",
        9 => "9",
        10 => "a",
        11 => "b",
        12 => "c",
        13 => "d",
        14 => "e",
        _ => "f",
    };
    assert(r@ =~= seq![hex_digits()[value as int]]);
    r
}

/// Writes bytes out in lowercase hexadecimal.
pub fn to_hex(bytes: &[u8]) -> (r: String)
    ensures
        r@ == hex(bytes@),
{
    let ghost two = |byte: u8| hex_byte(byte);
    let mut r = String::new();
    let n: usize = bytes.len();
    let mut i: usize = 0;
    assert(bytes@.take(0).map_values(two) =~= Seq::<Seq<char>>::empty());
    while i < n
        invariant
            i <= n,
            n == bytes@.len(),
            two == |byte: u8| hex_byte(byte),
            r@ == bytes@.take(i as int).map_values(two).flatten(),
        decreases n - i,
    {
        let byte: u8 = bytes[i];
        let ghost before = r@;
        r.append(digit(byte / 16));
        r.append(digit(byte % 16));
        proof {
            let done = bytes@.take(i as int).map_values(two);
            assert(r@ =~= before + hex_byte(byte));
            assert(bytes@.take(i + 1).map_values(two) =~= done.push(hex_byte(byte)));
            done.lemma_flatten_push(hex_byte(byte));
        }
        i += 1;
    }
    assert(bytes@.take(n as int) =~= bytes@);
    r
}

/// A SHA-256 computation in progress. The input may come in pieces of any
/// size, so that a large file never has to be held in memory as a whole; the
/// view is all that has been fed so far.
pub struct Sha256 {
    hasher: hmac_sha256::Hash,
    len: usize,
}

impl View for Sha256 {
    type V = Seq<u8>;

    closed spec fn view(&self) -> Seq<u8> {
        absorbed(self.hasher)
    }
}

impl Sha256 {
    #[verifier::type_invariant]
    spec fn counted(self) -> bool {
        self.len == absorbed(self.hasher).len() && self.len * 8 <= usize::MAX
    }

    /// A computation that has been fed nothing.
    pub fn new() -> (r: Sha256)
        ensures
            r@ == Seq::<u8>::empty(),
    {
        Sha256 { hasher: hash_new(), len: 0 }
    }

    /// Feeds `chunk` after what was fed before. The length of the whole input
    /// in bits has to stay within a `usize`: a chunk that would take it beyond
    /// is refused, and nothing changes.
    pub fn update(&mut self, chunk: &[u8]) -> (accepted: bool)
        ensures
            accepted == ((old(self)@.len() + chunk@.len()) * 8 <= usize::MAX),
            accepted ==> final(self)@ == old(self)@ + chunk@,
            !accepted ==> final(self)@ == old(self)@,
    {
        proof {
            use_type_invariant(&*self);
        }
        let n: usize = chunk.len();
        if n > usize::MAX / 8 - self.len {
            return false;
        }
        let mut hasher = self.hasher;
        hash_update(&mut hasher, chunk);
        *self = Sha256 { hasher, len: self.len + n };
        true
    }

    /// The digest of all that was fed, in lowercase hexadecimal.
    pub fn hex_digest(self) -> (r: String)
        ensures
            r@ == hex(sha256(self@)),
    {
        proof {
            use_type_invariant(&self);
        }
        let digest = hash_finalize(self.hasher);
        to_hex(digest.as_slice())
    }
}

/// The SHA-256 digest of `bytes` in lowercase hexadecimal, or `None` where
/// their length in bits does not fit in a `usize`.
pub fn sha256sum(bytes: &[u8]) -> (r: Option<String>)
    ensures
        match r {
            Some(digest) => bytes@.len() * 8 <= usize::MAX && digest@ == hex(sha256(bytes@)),
            None => bytes@.len() * 8 > usize::MAX,
        },
{
    let mut state = Sha256::new();
    if state.update(bytes) {
        assert(Seq::<u8>::empty() + bytes@ =~= bytes@);
        Some(state.hex_digest())
    } else {
        None
    }
}

} // verus!
