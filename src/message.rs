use vstd::prelude::*;

verus! {

/// Whether `bytes` holds a NUL byte, which a C string cannot carry inside it.
pub open spec fn has_nul(bytes: Seq<u8>) -> bool {
    exists|i: int| 0 <= i < bytes.len() && bytes[i] == 0
}

/// Whether `pos` is the index of the first NUL byte of `bytes`.
pub open spec fn is_first_nul(bytes: Seq<u8>, pos: int) -> bool {
    &&& 0 <= pos < bytes.len()
    &&& bytes[pos] == 0
    &&& forall|j: int| 0 <= j < pos ==> bytes[j] != 0
}

/// A message could not be encoded as a C string: it holds a NUL byte.
#[derive(Clone, Copy, Debug, PartialEq, Eq, Structural)]
pub struct NulError {
    /// Index of the first NUL byte in the message.
    pub position: usize,
}

impl NulError {
    /// Index of the first NUL byte in the message.
    pub fn nul_position(&self) -> (r: usize)
        ensures
            r == self.position,
    {
        self.position
    }
}

/// Encodes `bytes` as a C string: the bytes followed by one terminating NUL.
/// Fails, with the index of the first NUL, where `bytes` already holds one.
pub fn to_c_string(bytes: &[u8]) -> (r: Result<Vec<u8>, NulError>)
    ensures
        r is Ok <==> !has_nul(bytes@),
        r matches Ok(c) ==> c@ == bytes@.push(0),
        r matches Err(e) ==> is_first_nul(bytes@, e.position as int),
{
    let mut out: Vec<u8> = Vec::new();
    let mut i: usize = 0;
    while i < bytes.len()
        invariant
            i <= bytes@.len(),
            out@ == bytes@.subrange(0, i as int),
            forall|j: int| 0 <= j < i ==> bytes@[j] != 0,
        decreases bytes@.len() - i,
    {
        let b = bytes[i];
        if b == 0 {
            return Err(NulError { position: i });
        }
        out.push(b);
        i = i + 1;
    }
    assert(out@ == bytes@);
    out.push(0);
    Ok(out)
}

} // verus!
