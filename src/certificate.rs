//! PEM material framed for a TLS stack that reads a certificate up to its
//! first NUL byte.

use vstd::prelude::*;

verus! {

/// Whether `b` holds a NUL byte anywhere.
pub open spec fn has_nul(b: Seq<u8>) -> bool {
    exists|i: int| 0 <= i < b.len() && b[i] == 0u8
}

/// The bytes that a reader stopping at the first NUL byte sees, the NUL
/// included; the whole of `b` where `b` holds none.
pub open spec fn until_first_nul(b: Seq<u8>) -> Seq<u8>
    decreases b.len(),
{
    if b.len() == 0 {
        b
    } else if b[0] == 0u8 {
        b.take(1)
    } else {
        seq![b[0]] + until_first_nul(b.drop_first())
    }
}

/// Appends the NUL terminator that marks where PEM text ends.
pub fn nul_terminated(certificate_bytes: Vec<u8>) -> (r: Vec<u8>)
    requires
        certificate_bytes@.len() < usize::MAX,
    ensures
        r@ == certificate_bytes@.push(0u8),
{
    let mut bytes = certificate_bytes;
    bytes.push(0u8);
    bytes
}

/// PEM text without a NUL byte, once terminated, is read back whole: the
/// reader stops exactly at the terminator.
pub proof fn lemma_terminated_reads_back(pem: Seq<u8>)
    requires
        !has_nul(pem),
    ensures
        until_first_nul(pem.push(0u8)) == pem.push(0u8),
        has_nul(pem.push(0u8)),
    decreases pem.len(),
{
    assert(pem.push(0u8)[pem.len() as int] == 0u8);
    if pem.len() > 0 {
        let rest = pem.drop_first();
        assert forall|i: int| 0 <= i < rest.len() implies rest[i] != 0u8 by {
            assert(rest[i] == pem[i + 1]);
        }
        lemma_terminated_reads_back(rest);
        assert(pem.push(0u8).drop_first() =~= rest.push(0u8));
        assert(pem.push(0u8)[0] == pem[0]);
        assert(seq![pem[0]] + rest.push(0u8) =~= pem.push(0u8));
    } else {
        assert(pem.push(0u8).take(1) =~= pem.push(0u8));
    }
}

} // verus!
