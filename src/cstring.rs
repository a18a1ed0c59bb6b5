use vstd::prelude::*;

verus! {

pub const NUL: u8 = 0;

pub open spec fn has_nul(s: Seq<u8>) -> bool {
    exists|i: int| 0 <= i < s.len() && s[i] == NUL
}

/// The bytes that go over the native interface for the text `s`: `s`
/// followed by one NUL.
pub open spec fn c_encoding(s: Seq<u8>) -> Seq<u8> {
    s.push(NUL)
}

/// The text that a NUL-terminated read of `buf` yields: its bytes before the
/// first NUL, or all of them where it holds none.
pub open spec fn c_text(buf: Seq<u8>) -> Seq<u8>
    decreases buf.len(),
{
    if buf.len() == 0 {
        buf
    } else if buf[0] == NUL {
        Seq::empty()
    } else {
        seq![buf[0]] + c_text(buf.skip(1))
    }
}

/// Text handed to the native interface held a NUL byte at `position`, where
/// the reader on the other side would cut it short.
#[derive(Debug, Clone, Copy, PartialEq, Eq, Structural)]
pub struct NulError {
    pub position: usize,
}

/// Encodes `s` for the native interface, refusing text with a NUL in it.
pub fn to_c_bytes(s: &[u8]) -> (r: Result<Vec<u8>, NulError>)
    ensures
        r is Ok <==> !has_nul(s@),
        r is Ok ==> r.unwrap()@ == c_encoding(s@),
        r is Err ==> ({
            let p = r.unwrap_err().position as int;
            p < s@.len() && s@[p] == NUL && !has_nul(s@.subrange(0, p))
        }),
{
    let mut out: Vec<u8> = Vec::new();
    let mut i: usize = 0;
    while i < s.len()
        invariant
            i <= s@.len(),
            out@ == s@.subrange(0, i as int),
            !has_nul(s@.subrange(0, i as int)),
        decreases s@.len() - i,
    {
        if s[i] == NUL {
            return Err(NulError { position: i });
        }
        out.push(s[i]);
        assert(s@.subrange(0, i + 1) =~= s@.subrange(0, i as int).push(s@[i as int]));
        assert(!has_nul(s@.subrange(0, i + 1))) by {
            let t = s@.subrange(0, i + 1);
            assert forall|j: int| 0 <= j < t.len() implies t[j] != NUL by {
                if j < i {
                    assert(t[j] == s@.subrange(0, i as int)[j]);
                }
            }
        }
        i = i + 1;
    }
    assert(s@.subrange(0, i as int) =~= s@);
    out.push(NUL);
    Ok(out)
}

proof fn lemma_c_text_step(buf: Seq<u8>, i: int)
    requires
        0 <= i < buf.len(),
        buf[i] != NUL,
    ensures
        c_text(buf.skip(i)) == seq![buf[i]] + c_text(buf.skip(i + 1)),
{
    assert(buf.skip(i).skip(1) =~= buf.skip(i + 1));
}

/// Reads text from `buf` as the native interface hands it over: up to the
/// first NUL.
pub fn from_c_bytes(buf: &[u8]) -> (r: Vec<u8>)
    ensures
        r@ == c_text(buf@),
{
    let mut out: Vec<u8> = Vec::new();
    let mut i: usize = 0;
    assert(buf@.skip(0) =~= buf@);
    while i < buf.len()
        invariant
            i <= buf@.len(),
            c_text(buf@) == out@ + c_text(buf@.skip(i as int)),
        ensures
            c_text(buf@) == out@,
        decreases buf@.len() - i,
    {
        if buf[i] == NUL {
            assert(c_text(buf@.skip(i as int)) =~= Seq::<u8>::empty());
            assert(out@ + Seq::<u8>::empty() =~= out@);
            break;
        }
        proof {
            lemma_c_text_step(buf@, i as int);
        }
        assert(out@.push(buf@[i as int]) + c_text(buf@.skip(i + 1)) =~= out@ + (seq![buf@[i as int]]
            + c_text(buf@.skip(i + 1))));
        out.push(buf[i]);
        i = i + 1;
    }
    if i == buf.len() {
        assert(buf@.skip(i as int) =~= Seq::<u8>::empty());
        assert(out@ + Seq::<u8>::empty() =~= out@);
    }
    out
}

/// Text without a NUL survives the trip through the native interface:
/// reading back its encoding gives the same bytes.
pub proof fn lemma_c_string_round_trip(s: Seq<u8>)
    requires
        !has_nul(s),
    ensures
        c_text(c_encoding(s)) == s,
    decreases s.len(),
{
    if s.len() == 0 {
        assert(c_encoding(s) =~= seq![NUL]);
        assert(c_text(c_encoding(s)) =~= s);
    } else {
        let t = s.skip(1);
        assert(!has_nul(t)) by {
            assert forall|j: int| 0 <= j < t.len() implies t[j] != NUL by {
                assert(t[j] == s[j + 1]);
            }
        }
        lemma_c_string_round_trip(t);
        assert(c_encoding(s).skip(1) =~= c_encoding(t));
        assert(s[0] != NUL);
        assert(c_text(c_encoding(s)) == seq![s[0]] + c_text(c_encoding(t)));
        assert(seq![s[0]] + t =~= s);
    }
}

} // verus!
