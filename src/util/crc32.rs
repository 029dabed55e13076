use vstd::prelude::*;

verus! {

/// The IEEE CRC-32 of a byte sequence, as computed by `crc32fast`.
pub uninterp spec fn crc32_of(b: Seq<u8>) -> u32;

/// Relies on `crc32fast::hash`: the CRC-32 (IEEE polynomial) of the bytes,
/// which depends on the bytes alone.
#[verifier::external_body]
pub(crate) fn crc32(b: &[u8]) -> (r: u32)
    ensures
        r == crc32_of(b@),
{
    crc32fast::hash(b)
}

/// A CRC-32 accumulator: its value is the CRC-32 of every byte fed to it
/// since it was made or last reset. It keeps those bytes and checksums them
/// when asked.
#[derive(Debug, Clone)]
pub struct Crc32 {
    fed: Vec<u8>,
}

impl Crc32 {
    /// The bytes fed since the last reset.
    pub closed spec fn fed(&self) -> Seq<u8> {
        self.fed@
    }

    /// An accumulator that has been fed nothing.
    pub fn new() -> (r: Self)
        ensures
            r.fed() == Seq::<u8>::empty(),
    {
        Crc32 { fed: Vec::new() }
    }

    /// Forgets every byte fed so far.
    pub fn init(&mut self)
        ensures
            final(self).fed() == Seq::<u8>::empty(),
    {
        self.fed = Vec::new();
    }

    /// Feeds `bytes`.
    pub fn update(&mut self, bytes: &[u8])
        ensures
            final(self).fed() == old(self).fed() + bytes@,
    {
        let ghost start = self.fed@;
        let mut i: usize = 0;
        while i < bytes.len()
            invariant
                i <= bytes@.len(),
                self.fed@ == start + bytes@.subrange(0, i as int),
            decreases bytes@.len() - i,
        {
            self.fed.push(bytes[i]);
            i = i + 1;
            assert(self.fed@ =~= start + bytes@.subrange(0, i as int));
        }
        assert(bytes@.subrange(0, i as int) =~= bytes@);
    }

    /// The CRC-32 of the bytes fed since the last reset.
    pub fn finalize(&self) -> (r: u32)
        ensures
            r == crc32_of(self.fed()),
    {
        crc32(self.fed.as_slice())
    }

    /// The CRC-32 of `bytes`.
    pub fn calculate(bytes: &[u8]) -> (r: u32)
        ensures
            r == crc32_of(bytes@),
    {
        crc32(bytes)
    }
}

impl Default for Crc32 {
    fn default() -> (r: Self)
        ensures
            r.fed() == Seq::<u8>::empty(),
    {
        Crc32::new()
    }
}

} // verus!
