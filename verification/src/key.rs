//! The shared key of a session and its comparison with a candidate.

use vstd::prelude::*;
use vstd::utf8::encode_utf8;
use vstd::utf8::encode_utf8_decode_utf8;

verus! {

/// The secret both peers know before the session starts.
#[derive(Clone, Debug, PartialEq, Eq)]
pub struct ShellKey {
    key: String,
}

impl View for ShellKey {
    type V = Seq<char>;

    closed spec fn view(&self) -> Seq<char> {
        self.key@
    }
}

impl ShellKey {
    /// A key made of the given characters.
    pub fn new(key: &str) -> (created: ShellKey)
        ensures
            created@ == key@,
    {
        ShellKey { key: key.to_owned() }
    }

    /// The characters of the key.
    pub fn key(&self) -> (key: &str)
        ensures
            key@ == self@,
    {
        self.key.as_str()
    }

    /// Whether `candidate` is this key. The scan visits every byte of
    /// two strings of equal length, whatever they hold.
    pub fn matches(&self, candidate: &str) -> (same: bool)
        ensures
            same == (candidate@ == self@),
    {
        proof {
            lemma_utf8_encoding_is_injective(candidate@, self@);
        }
        bytes_equal(candidate.as_bytes(), self.key.as_str().as_bytes())
    }
}

/// Two strings with the same UTF-8 encoding are the same string.
pub proof fn lemma_utf8_encoding_is_injective(a: Seq<char>, b: Seq<char>)
    ensures
        (encode_utf8(a) == encode_utf8(b)) <==> (a == b),
{
    encode_utf8_decode_utf8(a);
    encode_utf8_decode_utf8(b);
}

/// Folding a byte's difference into an accumulator leaves it zero
/// exactly when it was zero and the two bytes agree.
proof fn lemma_accumulate_difference(acc: u8, x: u8, y: u8)
    ensures
        ((acc | (x ^ y)) == 0) <==> (acc == 0 && x == y),
{
    assert(((acc | (x ^ y)) == 0) <==> (acc == 0 && x == y)) by (bit_vector);
}

/// Whether two byte strings are equal. For equal lengths the running
/// time depends on the length alone, not on where the strings differ.
pub fn bytes_equal(a: &[u8], b: &[u8]) -> (same: bool)
    ensures
        same == (a@ == b@),
{
    if a.len() != b.len() {
        return false;
    }
    let mut difference: u8 = 0;
    let mut i: usize = 0;
    assert(a@.take(0) =~= b@.take(0));
    while i < a.len()
        invariant
            a@.len() == b@.len(),
            i <= a@.len(),
            (difference == 0) <==> (a@.take(i as int) == b@.take(i as int)),
        decreases a@.len() - i,
    {
        proof {
            lemma_accumulate_difference(difference, a@[i as int], b@[i as int]);
            let next = i as int + 1;
            assert(a@.take(next).drop_last() == a@.take(i as int));
            assert(b@.take(next).drop_last() == b@.take(i as int));
            assert(a@.take(next).last() == a@[i as int]);
            assert(b@.take(next).last() == b@[i as int]);
            if a@.take(i as int) == b@.take(i as int) && a@[i as int] == b@[i as int] {
                assert(a@.take(next) =~= a@.take(i as int).push(a@[i as int]));
                assert(b@.take(next) =~= b@.take(i as int).push(b@[i as int]));
            }
        }
        difference = difference | (a[i] ^ b[i]);
        i = i + 1;
    }
    proof {
        assert(a@.take(i as int) == a@);
        assert(b@.take(i as int) == b@);
    }
    difference == 0
}

} // verus!
