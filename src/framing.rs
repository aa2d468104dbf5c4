//! The wire format of the physical link: `[id][length][payload]`, with no
//! delimiter, escaping or checksum.
use vstd::prelude::*;

use crate::data_block::{copy_range, DataBlock, MAX_PAYLOAD};

verus! {

/// The frame that carries `payload` for channel `id`.
pub open spec fn frame_of(block: (u8, Seq<u8>)) -> Seq<u8> {
    seq![block.0, block.1.len() as u8] + block.1
}

/// The frames of `blocks`, one after another, in order.
pub open spec fn frames_of(blocks: Seq<(u8, Seq<u8>)>) -> Seq<u8>
    decreases blocks.len(),
{
    if blocks.len() == 0 {
        Seq::empty()
    } else {
        frames_of(blocks.drop_last()) + frame_of(blocks.last())
    }
}

/// Every payload fits in one frame.
pub open spec fn all_fit(blocks: Seq<(u8, Seq<u8>)>) -> bool {
    forall|i: int| 0 <= i < blocks.len() ==> #[trigger] blocks[i].1.len() <= MAX_PAYLOAD
}

/// What a stream of frames holds, read from its start: `None` where the
/// stream ends inside a frame.
pub open spec fn parse_frames(bytes: Seq<u8>) -> Option<Seq<(u8, Seq<u8>)>>
    decreases bytes.len(),
{
    if bytes.len() == 0 {
        Some(Seq::empty())
    } else if bytes.len() < 2 || bytes.len() < 2 + bytes[1] {
        None
    } else {
        let n = 2 + bytes[1] as int;
        match parse_frames(bytes.subrange(n, bytes.len() as int)) {
            Some(rest) => Some(seq![(bytes[0], bytes.subrange(2, n))] + rest),
            None => None,
        }
    }
}

/// `prefix` followed by what `parsed` holds, if anything was parsed.
pub open spec fn after_prefix(
    prefix: Seq<(u8, Seq<u8>)>,
    parsed: Option<Seq<(u8, Seq<u8>)>>,
) -> Option<Seq<(u8, Seq<u8>)>> {
    match parsed {
        Some(rest) => Some(prefix + rest),
        None => None,
    }
}

/// The views of a sequence of blocks.
pub open spec fn views_of(blocks: Seq<DataBlock>) -> Seq<(u8, Seq<u8>)> {
    blocks.map_values(|b: DataBlock| b@)
}

/// Frames laid one after the other can be taken apart from the front.
proof fn lemma_frames_front(blocks: Seq<(u8, Seq<u8>)>)
    requires
        blocks.len() > 0,
    ensures
        frames_of(blocks) == frame_of(blocks[0]) + frames_of(blocks.drop_first()),
    decreases blocks.len(),
{
    if blocks.len() == 1 {
        assert(blocks.drop_last() =~= Seq::<(u8, Seq<u8>)>::empty());
        assert(blocks.drop_first() =~= Seq::<(u8, Seq<u8>)>::empty());
        assert(frames_of(blocks.drop_first()) == Seq::<u8>::empty());
        assert(frames_of(blocks.drop_last()) == Seq::<u8>::empty());
        assert(frames_of(blocks) =~= frame_of(blocks[0]) + frames_of(blocks.drop_first()));
    } else {
        let init = blocks.drop_last();
        lemma_frames_front(init);
        assert(init.drop_first() =~= blocks.drop_first().drop_last());
        assert(blocks.drop_first().last() == blocks.last());
        assert(init[0] == blocks[0]);
        assert(frames_of(blocks.drop_first()) == frames_of(blocks.drop_first().drop_last())
            + frame_of(blocks.drop_first().last()));
        assert(frames_of(blocks) =~= frame_of(blocks[0]) + frames_of(blocks.drop_first()));
    }
}

/// A frame stream parses back into exactly the blocks that were framed, in
/// order, whenever each payload fits in one frame.
pub proof fn lemma_frames_round_trip(blocks: Seq<(u8, Seq<u8>)>)
    requires
        all_fit(blocks),
    ensures
        parse_frames(frames_of(blocks)) == Some(blocks),
    decreases blocks.len(),
{
    if blocks.len() == 0 {
        assert(frames_of(blocks) =~= Seq::<u8>::empty());
        assert(blocks =~= Seq::<(u8, Seq<u8>)>::empty());
    } else {
        lemma_frames_front(blocks);
        let rest = blocks.drop_first();
        assert(all_fit(rest)) by {
            assert forall|i: int| 0 <= i < rest.len() implies #[trigger] rest[i].1.len()
                <= MAX_PAYLOAD by {
                assert(rest[i] == blocks[i + 1]);
            }
        }
        lemma_frames_round_trip(rest);
        let b = blocks[0];
        assert(b.1.len() <= MAX_PAYLOAD);
        let bytes = frames_of(blocks);
        let n: int = 2 + b.1.len() as int;
        assert(bytes[1] == b.1.len() as u8);
        assert(bytes[1] as int == b.1.len());
        assert(bytes.subrange(n, bytes.len() as int) =~= frames_of(rest));
        assert(bytes.subrange(2, n) =~= b.1);
        assert(bytes[0] == b.0);
        assert(seq![(bytes[0], bytes.subrange(2, n))] + rest =~= blocks);
    }
}

/// The two header bytes of the frame for `block`.
pub fn frame_header(block: &DataBlock) -> (r: Vec<u8>)
    requires
        block.wf(),
    ensures
        r@ == seq![block.id, block.data@.len() as u8],
{
    let mut header: Vec<u8> = Vec::new();
    header.push(block.id);
    header.push(block.data.len() as u8);
    assert(header@ =~= seq![block.id, block.data@.len() as u8]);
    header
}

/// Appends the frame for `block` to `out`.
pub fn append_frame(out: &mut Vec<u8>, block: &DataBlock)
    requires
        block.wf(),
    ensures
        final(out)@ == old(out)@ + frame_of(block@),
{
    out.push(block.id);
    out.push(block.data.len() as u8);
    let mut i: usize = 0;
    while i < block.data.len()
        invariant
            i <= block.data@.len(),
            out@ == old(out)@ + seq![block.id, block.data@.len() as u8] + block.data@.subrange(
                0,
                i as int,
            ),
        decreases block.data@.len() - i,
    {
        out.push(block.data[i]);
        i = i + 1;
        assert(out@ =~= old(out)@ + seq![block.id, block.data@.len() as u8]
            + block.data@.subrange(0, i as int));
    }
    assert(block.data@.subrange(0, i as int) =~= block.data@);
    assert(out@ =~= old(out)@ + frame_of(block@));
}

/// The frame for one block, header then payload.
pub fn encode_frame(block: &DataBlock) -> (r: Vec<u8>)
    requires
        block.wf(),
    ensures
        r@ == frame_of(block@),
{
    let mut out: Vec<u8> = Vec::new();
    append_frame(&mut out, block);
    assert(out@ =~= frame_of(block@));
    out
}

/// The byte stream the link carries for `blocks`, sent in this order.
pub fn encode_frames(blocks: &Vec<DataBlock>) -> (r: Vec<u8>)
    requires
        forall|i: int| 0 <= i < blocks@.len() ==> (#[trigger] blocks@[i]).wf(),
    ensures
        r@ == frames_of(views_of(blocks@)),
{
    let mut out: Vec<u8> = Vec::new();
    let mut i: usize = 0;
    while i < blocks.len()
        invariant
            i <= blocks@.len(),
            forall|k: int| 0 <= k < blocks@.len() ==> (#[trigger] blocks@[k]).wf(),
            out@ == frames_of(views_of(blocks@.subrange(0, i as int))),
        decreases blocks@.len() - i,
    {
        append_frame(&mut out, &blocks[i]);
        let ghost done = views_of(blocks@.subrange(0, i as int + 1));
        assert(done.drop_last() =~= views_of(blocks@.subrange(0, i as int)));
        assert(done.last() == blocks@[i as int]@);
        i = i + 1;
    }
    assert(blocks@.subrange(0, i as int) =~= blocks@);
    out
}

/// Takes a stream of frames apart into blocks; `None` where the stream ends
/// inside a frame.
pub fn decode_frames(bytes: &Vec<u8>) -> (r: Option<Vec<DataBlock>>)
    ensures
        r matches Some(v) ==> parse_frames(bytes@) == Some(views_of(v@)) && forall|i: int|
            0 <= i < v@.len() ==> (#[trigger] v@[i]).wf(),
        r is None <==> parse_frames(bytes@) is None,
{
    let mut out: Vec<DataBlock> = Vec::new();
    let mut pos: usize = 0;
    let len = bytes.len();
    assert(bytes@.subrange(0, len as int) =~= bytes@);
    assert(views_of(out@) =~= Seq::<(u8, Seq<u8>)>::empty());
    assert forall|p: Seq<(u8, Seq<u8>)>| true implies views_of(out@) + p == p by {
        assert(views_of(out@) + p =~= p);
    }
    while pos < len
        invariant
            len == bytes@.len(),
            pos <= len,
            parse_frames(bytes@) == after_prefix(
                views_of(out@),
                parse_frames(bytes@.subrange(pos as int, len as int)),
            ),
            forall|i: int| 0 <= i < out@.len() ==> (#[trigger] out@[i]).wf(),
        decreases len - pos,
    {
        let ghost rem = bytes@.subrange(pos as int, len as int);
        if len - pos < 2 {
            return None;
        }
        let n: usize = 2 + bytes[pos + 1] as usize;
        assert(rem[1] == bytes@[pos + 1]);
        if len - pos < n {
            return None;
        }
        let data = copy_range(bytes, pos + 2, pos + n);
        let block = DataBlock { id: bytes[pos], data };
        assert(rem.subrange(2, n as int) =~= data@);
        assert(rem.subrange(n as int, rem.len() as int) =~= bytes@.subrange(
            (pos + n) as int,
            len as int,
        ));
        let ghost before = views_of(out@);
        out.push(block);
        assert(views_of(out@) =~= before.push(block@));
        assert forall|p: Seq<(u8, Seq<u8>)>| true implies before + (seq![block@] + p) == views_of(
            out@,
        ) + p by {
            assert(before + (seq![block@] + p) =~= views_of(out@) + p);
        }
        pos = pos + n;
    }
    assert(bytes@.subrange(pos as int, len as int) =~= Seq::<u8>::empty());
    assert(views_of(out@) + Seq::<(u8, Seq<u8>)>::empty() =~= views_of(out@));
    Some(out)
}

} // verus!
