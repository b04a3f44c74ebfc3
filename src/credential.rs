//! Credential buffers: PEM text terminated by a sentinel byte, in the form
//! that the secure transport reads ("read until NUL").
use vstd::prelude::*;

verus! {

/// The byte that terminates a credential buffer.
pub const SENTINEL: u8 = 0;

/// True when `b` holds no sentinel byte.
pub open spec fn sentinel_free(b: Seq<u8>) -> bool {
    forall|i: int| 0 <= i < b.len() ==> b[i] != SENTINEL
}

/// The bytes of `buf` before its first sentinel byte (all of `buf` when it has none).
pub open spec fn until_sentinel(buf: Seq<u8>) -> Seq<u8>
    decreases buf.len(),
{
    if buf.len() == 0 {
        buf
    } else if buf[0] == SENTINEL {
        Seq::empty()
    } else {
        seq![buf[0]].add(until_sentinel(buf.drop_first()))
    }
}

/// Appends the sentinel byte to `bytes`, giving the buffer that the transport
/// reads up to that byte.
pub fn with_sentinel(bytes: Vec<u8>) -> (r: Vec<u8>)
    ensures
        r@ == bytes@.push(SENTINEL),
{
    let mut buf = bytes;
    buf.push(SENTINEL);
    buf
}

/// Reads `buf` up to, and without, its first sentinel byte.
pub fn read_until_sentinel(buf: &[u8]) -> (r: Vec<u8>)
    ensures
        r@ == until_sentinel(buf@),
{
    let mut out: Vec<u8> = Vec::new();
    let mut i: usize = 0;
    assert(buf@.skip(0) =~= buf@);
    assert(out@.add(until_sentinel(buf@)) =~= until_sentinel(buf@));
    while i < buf.len()
        invariant
            i <= buf@.len(),
            until_sentinel(buf@) == out@.add(until_sentinel(buf@.skip(i as int))),
        decreases buf@.len() - i,
    {
        proof {
            lemma_until_sentinel_step(buf@.skip(i as int));
        }
        if buf[i] == SENTINEL {
            assert(until_sentinel(buf@.skip(i as int)) == Seq::<u8>::empty());
            assert(out@.add(Seq::<u8>::empty()) =~= out@);
            return out;
        }
        let ghost before = out@;
        out.push(buf[i]);
        assert(buf@.skip(i as int).drop_first() =~= buf@.skip(i + 1));
        assert(before.add(seq![buf@[i as int]].add(until_sentinel(buf@.skip(i + 1))))
            =~= out@.add(until_sentinel(buf@.skip(i + 1))));
        i = i + 1;
    }
    assert(buf@.skip(i as int) =~= Seq::<u8>::empty());
    assert(out@.add(Seq::<u8>::empty()) =~= out@);
    out
}

proof fn lemma_until_sentinel_step(b: Seq<u8>)
    requires
        b.len() > 0,
    ensures
        b[0] == SENTINEL ==> until_sentinel(b) == Seq::<u8>::empty(),
        b[0] != SENTINEL ==> until_sentinel(b) == seq![b[0]].add(until_sentinel(b.drop_first())),
{
}

/// Reading back a buffer made by appending the sentinel to sentinel-free bytes
/// gives exactly those bytes.
pub proof fn lemma_credential_round_trip(b: Seq<u8>)
    requires
        sentinel_free(b),
    ensures
        until_sentinel(b.push(SENTINEL)) == b,
    decreases b.len(),
{
    if b.len() == 0 {
        assert(b.push(SENTINEL)[0] == SENTINEL);
        assert(until_sentinel(b.push(SENTINEL)) =~= b);
    } else {
        let t = b.drop_first();
        assert(sentinel_free(t)) by {
            assert forall|i: int| 0 <= i < t.len() implies t[i] != SENTINEL by {
                assert(t[i] == b[i + 1]);
            }
        }
        lemma_credential_round_trip(t);
        assert(b.push(SENTINEL).drop_first() =~= t.push(SENTINEL));
        assert(b.push(SENTINEL)[0] == b[0]);
        assert(seq![b[0]].add(t) =~= b);
    }
}

} // verus!
