//! Checks on what the operator types, before anything is done with it.

use vstd::prelude::*;
use vstd::string::StringSliceAdditionalSpecFns;

verus! {

/// Whether `one` comes before `other`, or is equal to it, in the order of
/// a dictionary: the first byte in which they differ decides, and a text
/// comes before every longer text that begins with it.
pub open spec fn in_order(one: Seq<u8>, other: Seq<u8>) -> bool
    decreases one.len(),
{
    if one.len() == 0 {
        true
    } else if other.len() == 0 {
        false
    } else if one[0] != other[0] {
        one[0] < other[0]
    } else {
        in_order(one.skip(1), other.skip(1))
    }
}

/// The lowest version of Kubernetes that is supported: the text `1.7`.
pub open spec fn lowest_version() -> Seq<u8> {
    seq![49u8, 46u8, 55u8]
}

/// Whether a version is written with the letter `v` before it.
pub open spec fn has_leading_v(version: Seq<u8>) -> bool {
    version.len() > 0 && version[0] == 118u8
}

/// Decides whether `one` comes before `other`, or is equal to it, in the
/// order of a dictionary.
pub fn bytes_in_order(one: &[u8], other: &[u8]) -> (ordered: bool)
    ensures
        ordered == in_order(one@, other@),
{
    let mut i: usize = 0;
    proof {
        assert(one@.skip(0) =~= one@);
        assert(other@.skip(0) =~= other@);
    }
    while i < one.len() && i < other.len() && one[i] == other[i]
        invariant
            i <= one.len(),
            i <= other.len(),
            in_order(one@, other@) == in_order(one@.skip(i as int), other@.skip(i as int)),
        decreases one.len() - i,
    {
        proof {
            let a = one@.skip(i as int);
            let b = other@.skip(i as int);
            assert(a[0] == one@[i as int]);
            assert(b[0] == other@[i as int]);
            assert(a.skip(1) =~= one@.skip(i + 1));
            assert(b.skip(1) =~= other@.skip(i + 1));
        }
        i = i + 1;
    }
    proof {
        let a = one@.skip(i as int);
        let b = other@.skip(i as int);
        if i < one.len() {
            assert(a[0] == one@[i as int]);
        }
        if i < other.len() {
            assert(b[0] == other@[i as int]);
        }
    }
    if i >= one.len() {
        true
    } else if i >= other.len() {
        false
    } else {
        one[i] < other[i]
    }
}

/// Checks the version of Kubernetes that the operator asked for. It is
/// written without a leading `v`, and is no text that comes before `1.7` in
/// the order of a dictionary; each refusal says which of the two failed.
pub fn validate_kubernetes_version(version: &str) -> (verdict: Result<(), String>)
    ensures
        verdict is Ok <==> !has_leading_v(version.spec_bytes()) && in_order(
            lowest_version(),
            version.spec_bytes(),
        ),
        has_leading_v(version.spec_bytes()) ==> verdict is Err && verdict->Err_0@
            == "Kubernetes version should be specified without the leading 'v'"@,
        !has_leading_v(version.spec_bytes()) && !in_order(lowest_version(), version.spec_bytes())
            ==> verdict is Err && verdict->Err_0@
            == "This version of kaws supports only Kubernetes 1.7.0 or greater"@,
{
    let bytes = version.as_bytes();
    if bytes.len() > 0 && bytes[0] == 118u8 {
        return Err(
            String::from_str("Kubernetes version should be specified without the leading 'v'"),
        );
    }
    let lowest: [u8; 3] = [49u8, 46u8, 55u8];
    assert(lowest@ =~= lowest_version());
    if bytes_in_order(lowest.as_slice(), bytes) {
        Ok(())
    } else {
        Err(String::from_str("This version of kaws supports only Kubernetes 1.7.0 or greater"))
    }
}

} // verus!
