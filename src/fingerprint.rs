//! Content fingerprints of artifacts, and the reproducibility comparison of
//! two of them.
use vstd::prelude::*;
use crate::text::{digit_char, digit_text};
use sha2::Digest;

verus! {

/// The SHA-256 digest of a byte sequence.
pub uninterp spec fn sha256_of(bytes: Seq<u8>) -> Seq<u8>;

/// Relies on `sha2::Sha256::digest`: the 32-byte SHA-256 digest of the input,
/// a function of the bytes alone.
#[verifier::external_body]
fn sha256(bytes: &[u8]) -> (r: Vec<u8>)
    ensures
        r@ == sha256_of(bytes@),
        r@.len() == 32,
{
    sha2::Sha256::digest(bytes).to_vec()
}

/// The two lowercase hexadecimal digits of each byte, in order.
pub open spec fn hex(bytes: Seq<u8>) -> Seq<char>
    decreases bytes.len(),
{
    if bytes.len() == 0 {
        Seq::empty()
    } else {
        let b = bytes.last();
        hex(bytes.drop_last()) + seq![digit_char((b / 16) as nat), digit_char((b % 16) as nat)]
    }
}

/// The fingerprint of a file's contents: the hexadecimal SHA-256 digest.
pub open spec fn fingerprint_of(bytes: Seq<u8>) -> Seq<char> {
    hex(sha256_of(bytes))
}

/// Renders bytes as lowercase hexadecimal.
pub fn to_hex(bytes: &[u8]) -> (r: String)
    ensures
        r@ == hex(bytes@),
{
    let mut out = String::new();
    let mut i: usize = 0;
    while i < bytes.len()
        invariant
            i <= bytes@.len(),
            out@ == hex(bytes@.take(i as int)),
        decreases bytes@.len() - i,
    {
        assert(bytes@.take(i + 1).drop_last() =~= bytes@.take(i as int));
        let b = bytes[i];
        out.append(digit_text(b / 16));
        out.append(digit_text(b % 16));
        i = i + 1;
    }
    assert(bytes@.take(i as int) =~= bytes@);
    out
}

/// The fingerprint of the given file contents.
pub fn fingerprint(contents: &[u8]) -> (r: String)
    ensures
        r@ == fingerprint_of(contents@),
{
    let digest = sha256(contents);
    to_hex(digest.as_slice())
}

/// The verdict on two builds of an artifact that should be reproducible.
#[derive(Clone, Copy, Debug, PartialEq, Eq, Structural)]
pub enum Reproducibility {
    /// The fingerprints agree.
    Matches,
    /// They differ, and differences are only to be reported.
    MismatchWarned,
    /// They differ, and that fails the run.
    MismatchFailed,
}

/// The verdict on two fingerprints.
pub open spec fn verdict(ours: Seq<char>, theirs: Seq<char>, warn_only: bool) -> Reproducibility {
    if ours == theirs {
        Reproducibility::Matches
    } else if warn_only {
        Reproducibility::MismatchWarned
    } else {
        Reproducibility::MismatchFailed
    }
}

/// Compares the fingerprints of two builds of one artifact; a mismatch fails
/// unless `warn_only` asks for a warning instead.
pub fn compare_fingerprints(ours: &String, theirs: &String, warn_only: bool) -> (r:
    Reproducibility)
    ensures
        r == verdict(ours@, theirs@, warn_only),
{
    if *ours == *theirs {
        Reproducibility::Matches
    } else if warn_only {
        Reproducibility::MismatchWarned
    } else {
        Reproducibility::MismatchFailed
    }
}

/// Each byte's two digits determine the byte.
proof fn lemma_digit_pair_injective(a: u8, b: u8)
    requires
        digit_char((a / 16) as nat) == digit_char((b / 16) as nat),
        digit_char((a % 16) as nat) == digit_char((b % 16) as nat),
    ensures
        a == b,
{
}

/// Hexadecimal rendering keeps bytes apart: different byte sequences render
/// differently.
pub proof fn lemma_hex_injective(a: Seq<u8>, b: Seq<u8>)
    requires
        hex(a) == hex(b),
    ensures
        a == b,
    decreases a.len(),
{
    lemma_hex_len(a);
    lemma_hex_len(b);
    if a.len() > 0 {
        let ha = hex(a.drop_last());
        let hb = hex(b.drop_last());
        lemma_hex_len(a.drop_last());
        lemma_hex_len(b.drop_last());
        let n = ha.len() as int;
        assert(hex(a)[n] == digit_char((a.last() / 16) as nat));
        assert(hex(b)[n] == digit_char((b.last() / 16) as nat));
        assert(hex(a)[n + 1] == digit_char((a.last() % 16) as nat));
        assert(hex(b)[n + 1] == digit_char((b.last() % 16) as nat));
        lemma_digit_pair_injective(a.last(), b.last());
        assert(ha =~= hex(a).subrange(0, n));
        assert(hb =~= hex(b).subrange(0, n));
        lemma_hex_injective(a.drop_last(), b.drop_last());
        assert(a =~= a.drop_last().push(a.last()));
        assert(b =~= b.drop_last().push(b.last()));
    } else {
        assert(a =~= b);
    }
}

/// Two hexadecimal digits per byte.
pub proof fn lemma_hex_len(a: Seq<u8>)
    ensures
        hex(a).len() == 2 * a.len(),
    decreases a.len(),
{
    if a.len() > 0 {
        lemma_hex_len(a.drop_last());
    }
}

/// Fingerprinting is deterministic, and it tells contents apart exactly as
/// far as their SHA-256 digests do: equal contents give equal fingerprints,
/// and contents with different digests give different fingerprints.
pub proof fn lemma_fingerprint_deterministic(a: Seq<u8>, b: Seq<u8>)
    ensures
        a == b ==> fingerprint_of(a) == fingerprint_of(b),
        sha256_of(a) != sha256_of(b) ==> fingerprint_of(a) != fingerprint_of(b),
{
    if fingerprint_of(a) == fingerprint_of(b) {
        lemma_hex_injective(sha256_of(a), sha256_of(b));
    }
}

/// Two builds whose contents are equal are judged reproducible; two whose
/// digests differ (a corrupted copy, say) are judged a mismatch.
pub proof fn lemma_reproducible_builds(ours: Seq<u8>, theirs: Seq<u8>, warn_only: bool)
    ensures
        ours == theirs ==> verdict(fingerprint_of(ours), fingerprint_of(theirs), warn_only)
            == Reproducibility::Matches,
        sha256_of(ours) != sha256_of(theirs) ==> verdict(
            fingerprint_of(ours),
            fingerprint_of(theirs),
            warn_only,
        ) != Reproducibility::Matches,
{
    lemma_fingerprint_deterministic(ours, theirs);
}

} // verus!
