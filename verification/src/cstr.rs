//! NUL-terminated byte strings, as handed to the C side of eRPC.
use vstd::prelude::*;
use vstd::utf8::encode_utf8;

verus! {

/// The bytes of a C string holding `bytes`: the bytes followed by one NUL.
pub open spec fn nul_terminated(bytes: Seq<u8>) -> Seq<u8> {
    bytes.push(0u8)
}

/// Builds the C string of `bytes`, or `None` where `bytes` holds a NUL
/// (a C string cannot hold one before its end).
pub fn c_string(bytes: &[u8]) -> (r: Option<Vec<u8>>)
    ensures
        bytes@.contains(0u8) <==> r is None,
        r matches Some(v) ==> v@ == nul_terminated(bytes@),
{
    let mut out: Vec<u8> = Vec::new();
    let n: usize = bytes.len();
    let mut i: usize = 0;
    while i < n
        invariant
            n == bytes@.len(),
            i <= n,
            out@ == bytes@.subrange(0, i as int),
            forall|j: int| 0 <= j < i ==> bytes@[j] != 0u8,
        decreases n - i,
    {
        let b: u8 = bytes[i];
        if b == 0u8 {
            return None;
        }
        out.push(b);
        i = i + 1;
    }
    assert(out@ == bytes@);
    out.push(0u8);
    Some(out)
}

/// The C string of `s`: its UTF-8 bytes and a closing NUL. A string whose
/// bytes hold a NUL cannot be one, and is not accepted.
pub fn c_string_of(s: &String) -> (r: Vec<u8>)
    requires
        !encode_utf8(s@).contains(0u8),
    ensures
        r@ == nul_terminated(encode_utf8(s@)),
{
    let bytes: &[u8] = s.as_str().as_bytes();
    match c_string(bytes) {
        Some(v) => v,
        None => {
            proof {
                assert(false);
            }
            Vec::new()
        },
    }
}

/// A C string reads back as what it was made from: its last byte is the
/// only NUL, and the bytes before it are the input.
pub proof fn law_c_string_reads_back(bytes: Seq<u8>)
    requires
        !bytes.contains(0u8),
    ensures
        nul_terminated(bytes).len() == bytes.len() + 1,
        nul_terminated(bytes).last() == 0u8,
        nul_terminated(bytes).drop_last() == bytes,
        forall|i: int| 0 <= i < bytes.len() ==> nul_terminated(bytes)[i] != 0u8,
{
    assert(nul_terminated(bytes).drop_last() =~= bytes);
    assert forall|i: int| 0 <= i < bytes.len() implies nul_terminated(bytes)[i] != 0u8 by {
        if bytes[i] == 0u8 {
            assert(bytes.contains(0u8));
        }
    }
}

} // verus!
