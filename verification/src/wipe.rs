use vstd::prelude::*;

verus! {

// Secure deletion overwrites a file three times with random bytes and
// once with zeros, syncing between passes, before removing it. The
// writes themselves are the caller's; this module owns the plan of one
// pass: which chunk sizes to write so that exactly the whole file is
// covered.

/// The total number of bytes a chunk plan writes.
pub open spec fn chunk_sum(v: Seq<u64>) -> int
    decreases v.len(),
{
    if v.len() == 0 {
        0
    } else {
        chunk_sum(v.drop_last()) + v.last()
    }
}

/// The chunk sizes of one overwrite pass over a file of `len` bytes:
/// full 4096-byte blocks and one final remainder, covering the file
/// exactly; an empty file needs no write.
pub fn overwrite_chunks(len: u64) -> (v: Vec<u64>)
    ensures
        chunk_sum(v@) == len,
        forall|i: int| 0 <= i < v@.len() ==> 1 <= #[trigger] v@[i] <= 4096,
        forall|i: int| 0 <= i < v@.len() - 1 ==> #[trigger] v@[i] == 4096,
{
    let mut v: Vec<u64> = Vec::new();
    let mut written: u64 = 0;
    while written < len
        invariant
            written <= len,
            chunk_sum(v@) == written,
            forall|i: int| 0 <= i < v@.len() ==> 1 <= #[trigger] v@[i] <= 4096,
            forall|i: int| 0 <= i < v@.len() - 1 ==> #[trigger] v@[i] == 4096,
            written < len && v@.len() > 0 ==> v@.last() == 4096,
        decreases len - written,
    {
        let rest = len - written;
        let c = if rest < 4096 {
            rest
        } else {
            4096
        };
        let ghost before = v@;
        v.push(c);
        proof {
            assert(v@.drop_last() =~= before);
            assert(v@.last() == c);
        }
        written = written + c;
    }
    v
}

} // verus!
