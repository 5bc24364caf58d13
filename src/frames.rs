//! Splitting an outbound command into characteristic-sized frames.
use vstd::prelude::*;

verus! {

/// Largest payload of one characteristic write.
pub const FRAME_LEN: usize = 20;

/// The frames of `s`, in order: pieces of `FRAME_LEN` bytes, the last one
/// possibly shorter; no frames at all for an empty sequence.
pub open spec fn frames_of(s: Seq<u8>) -> Seq<Seq<u8>>
    decreases s.len(),
{
    if s.len() == 0 {
        seq![]
    } else if s.len() <= FRAME_LEN {
        seq![s]
    } else {
        seq![s.subrange(0, FRAME_LEN as int)] + frames_of(s.subrange(FRAME_LEN as int, s.len() as int))
    }
}

/// The bytes of `frames` laid end to end.
pub open spec fn joined(frames: Seq<Seq<u8>>) -> Seq<u8>
    decreases frames.len(),
{
    if frames.len() == 0 {
        seq![]
    } else {
        frames[0] + joined(frames.drop_first())
    }
}

/// One frame taken off the front of a non-empty sequence.
proof fn lemma_frames_step(t: Seq<u8>)
    requires
        t.len() > 0,
    ensures
        ({
            let k = if t.len() <= FRAME_LEN { t.len() as int } else { FRAME_LEN as int };
            frames_of(t) == seq![t.subrange(0, k)] + frames_of(t.subrange(k, t.len() as int))
        }),
{
    if t.len() <= FRAME_LEN {
        assert(t.subrange(0, t.len() as int) =~= t);
        assert(frames_of(t.subrange(t.len() as int, t.len() as int)) =~= seq![]);
        assert(seq![t] + seq![] =~= seq![t]);
    }
}

/// Frames laid end to end give back the split bytes, and every frame holds
/// between one and `FRAME_LEN` bytes.
pub proof fn lemma_frames_rejoin(s: Seq<u8>)
    ensures
        joined(frames_of(s)) == s,
        forall|i: int|
            0 <= i < frames_of(s).len() ==> 0 < #[trigger] frames_of(s)[i].len() <= FRAME_LEN,
    decreases s.len(),
{
    if s.len() == 0 {
        assert(s =~= seq![]);
    } else if s.len() <= FRAME_LEN {
        assert(seq![s].drop_first() =~= seq![]);
        assert(joined(seq![]) == Seq::<u8>::empty());
        assert(s + seq![] =~= s);
    } else {
        let rest = s.subrange(FRAME_LEN as int, s.len() as int);
        lemma_frames_rejoin(rest);
        let f = frames_of(s);
        assert(f.drop_first() =~= frames_of(rest));
        assert(s.subrange(0, FRAME_LEN as int) + rest =~= s);
        assert forall|i: int| 0 <= i < f.len() implies 0 < #[trigger] f[i].len() <= FRAME_LEN by {
            if i > 0 {
                assert(f[i] == frames_of(rest)[i - 1]);
            }
        }
    }
}

/// Splits `bytes` into the frames that carry it, one characteristic write each.
pub fn split_frames(bytes: &[u8]) -> (r: Vec<Vec<u8>>)
    ensures
        r.deep_view() == frames_of(bytes@),
{
    let n = bytes.len();
    let mut out: Vec<Vec<u8>> = Vec::new();
    let mut i: usize = 0;
    assert(bytes@.subrange(0, n as int) =~= bytes@);
    while i < n
        invariant
            i <= n,
            n == bytes@.len(),
            frames_of(bytes@) == out.deep_view() + frames_of(bytes@.subrange(i as int, n as int)),
        decreases n - i,
    {
        let end: usize = if n - i <= FRAME_LEN { n } else { i + FRAME_LEN };
        let mut frame: Vec<u8> = Vec::new();
        let mut j: usize = i;
        while j < end
            invariant
                i <= j <= end <= n,
                n == bytes@.len(),
                frame@ == bytes@.subrange(i as int, j as int),
            decreases end - j,
        {
            frame.push(bytes[j]);
            j = j + 1;
            assert(frame@ =~= bytes@.subrange(i as int, j as int));
        }
        proof {
            let t = bytes@.subrange(i as int, n as int);
            lemma_frames_step(t);
            let k = (end - i) as int;
            assert(t.subrange(0, k) =~= frame@);
            assert(t.subrange(k, t.len() as int) =~= bytes@.subrange(end as int, n as int));
        }
        let ghost before = out.deep_view();
        assert(frame.deep_view() =~= frame@);
        out.push(frame);
        assert(out.deep_view() =~= before.push(frame@));
        i = end;
    }
    assert(frames_of(bytes@.subrange(n as int, n as int)) =~= seq![]);
    assert(out.deep_view() + seq![] =~= out.deep_view());
    out
}

} // verus!
