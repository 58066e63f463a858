//! Library-name helpers used when linking against the system libraries.

use vstd::prelude::*;
use vstd::string::StringSliceAdditionalSpecFns;

verus! {

/// The first `n` bytes of `bytes` followed by zeroes: `n` bytes in all.
pub open spec fn zero_padded(bytes: Seq<u8>, n: int) -> Seq<u8> {
    Seq::new(n as nat, |i: int| if i < bytes.len() { bytes[i] } else { 0u8 })
}

/// Calculate the padded length for a library name.
///
/// The name is padded on the end with zeroes. Must be at least one and a
/// multiple of 4.
pub fn lib_name_bytes_len(name: &str) -> (len: usize)
    requires
        name.spec_bytes().len() + 4 <= usize::MAX,
    ensures
        len == name.spec_bytes().len() + (4 - name.spec_bytes().len() % 4),
        len % 4 == 0,
        name.spec_bytes().len() < len <= name.spec_bytes().len() + 4,
{
    let name_len = name.as_bytes().len();
    name_len + (4 - name_len % 4)
}

/// Convert a library name to a byte array.
///
/// This is intended to be used with `lib_name_bytes_len`.
pub fn lib_name_bytes<const T: usize>(name: &str) -> (buf: [u8; T])
    requires
        name.spec_bytes().len() <= T,
    ensures
        buf@ == zero_padded(name.spec_bytes(), T as int),
{
    let mut buf = [0u8; T];
    let name_bytes = name.as_bytes();
    let mut i: usize = 0;
    while i < name_bytes.len()
        invariant
            name_bytes@ == name.spec_bytes(),
            name_bytes@.len() <= T,
            i <= name_bytes@.len(),
            buf@.len() == T,
            forall|j: int| 0 <= j < i ==> buf@[j] == name_bytes@[j],
            forall|j: int| i <= j < T ==> buf@[j] == 0u8,
        decreases name_bytes@.len() - i,
    {
        buf[i] = name_bytes[i];
        i += 1;
    }
    assert(buf@ =~= zero_padded(name.spec_bytes(), T as int));
    buf
}

/// A name stored with `lib_name_bytes` in an array of `lib_name_bytes_len`
/// bytes keeps all of its bytes and is followed by at least one zero byte,
/// so it reads back as a zero-terminated string whose storage is a whole
/// number of 4-byte words.
pub proof fn lemma_lib_name_zero_terminated(bytes: Seq<u8>)
    ensures
        ({
            let n = bytes.len() + (4 - bytes.len() % 4);
            &&& zero_padded(bytes, n).subrange(0, bytes.len() as int) == bytes
            &&& zero_padded(bytes, n)[bytes.len() as int] == 0u8
            &&& n % 4 == 0
        }),
{
    let n = bytes.len() + (4 - bytes.len() % 4);
    assert(zero_padded(bytes, n).subrange(0, bytes.len() as int) =~= bytes);
}

} // verus!
