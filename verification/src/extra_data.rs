//! The trailing sequence of self-framed data blocks.
//!
//! Only the framing is decoded: each block's declared size, its signature and
//! the bytes in between. What a block means is left to the reader.

use vstd::prelude::*;
use crate::bytes::le_u32;
use crate::cursor::ByteCursor;
use crate::error::DecodeError;

verus! {

/// The number of bytes of a block's frame: its size and its signature.
pub const BLOCK_FRAME_SIZE: u32 = 8;

/// A declared size below this closes the sequence.
pub const TERMINAL_BLOCK_SIZE: u32 = 4;

/// One block of extra data.
#[derive(Debug, PartialEq, Eq)]
pub struct ExtraDataBlock {
    /// The declared size of the block, frame included.
    pub size: u32,
    /// The signature that tells the kind of block.
    pub signature: u32,
    /// The bytes after the frame.
    pub payload: Vec<u8>,
}

/// A block as a mathematical value.
pub ghost struct ExtraDataBlockView {
    pub size: u32,
    pub signature: u32,
    pub payload: Seq<u8>,
}

impl View for ExtraDataBlock {
    type V = ExtraDataBlockView;

    open spec fn view(&self) -> ExtraDataBlockView {
        ExtraDataBlockView { size: self.size, signature: self.signature, payload: self.payload@ }
    }
}

/// The blocks of a vector as mathematical values.
pub open spec fn block_views(blocks: Seq<ExtraDataBlock>) -> Seq<ExtraDataBlockView> {
    blocks.map_values(|b: ExtraDataBlock| b@)
}

/// The block whose frame starts at `at`.
pub open spec fn block_at(s: Seq<u8>, at: int) -> ExtraDataBlockView {
    ExtraDataBlockView {
        size: le_u32(s, at),
        signature: le_u32(s, at + 4),
        payload: s.subrange(at + 8, at + le_u32(s, at)),
    }
}

/// What decoding the extra data at `at` comes to: the blocks in file order and
/// the index at which reading stopped.
///
/// The sequence ends at a declared size below four, or where fewer than four
/// bytes are left to hold a size. A block that declares fewer bytes than its
/// own frame, or more than the buffer still holds, is `TruncatedInput`.
pub open spec fn parse_extra_data(s: Seq<u8>, at: int) -> Result<
    (Seq<ExtraDataBlockView>, int),
    DecodeError,
>
    decreases s.len() - at,
{
    if at + 4 > s.len() {
        Ok((Seq::empty(), at))
    } else if le_u32(s, at) < TERMINAL_BLOCK_SIZE {
        Ok((Seq::empty(), at + 4))
    } else if le_u32(s, at) < BLOCK_FRAME_SIZE || at + le_u32(s, at) > s.len() {
        Err(DecodeError::TruncatedInput)
    } else {
        prepend(seq![block_at(s, at)], parse_extra_data(s, at + le_u32(s, at)))
    }
}

/// The outcome `rest` with the blocks `done` put in front of its blocks.
pub open spec fn prepend(
    done: Seq<ExtraDataBlockView>,
    rest: Result<(Seq<ExtraDataBlockView>, int), DecodeError>,
) -> Result<(Seq<ExtraDataBlockView>, int), DecodeError> {
    match rest {
        Ok((blocks, end)) => Ok((done + blocks, end)),
        Err(e) => Err(e),
    }
}

/// Decodes the blocks at the cursor, up to and including the terminator, and
/// leaves the cursor behind what was read. On failure the cursor stays where
/// it was.
pub fn decode_extra_data(cursor: &mut ByteCursor) -> (r: Result<Vec<ExtraDataBlock>, DecodeError>)
    ensures
        final(cursor).bytes() == old(cursor).bytes(),
        match r {
            Ok(blocks) => parse_extra_data(old(cursor).bytes(), old(cursor).offset()) == Ok::<
                (Seq<ExtraDataBlockView>, int),
                DecodeError,
            >((block_views(blocks@), final(cursor).offset())),
            Err(e) => parse_extra_data(old(cursor).bytes(), old(cursor).offset()) == Err::<
                (Seq<ExtraDataBlockView>, int),
                DecodeError,
            >(e) && final(cursor).offset() == old(cursor).offset(),
        },
{
    let ghost s = cursor.bytes();
    let start: usize = cursor.position();
    let total: usize = cursor.len();
    let mut blocks: Vec<ExtraDataBlock> = Vec::new();
    assert(block_views(blocks@) + Seq::<ExtraDataBlockView>::empty() =~= Seq::<
        ExtraDataBlockView,
    >::empty());
    loop
        invariant
            s == old(cursor).bytes(),
            start == old(cursor).offset(),
            cursor.bytes() == s,
            total == s.len(),
            start <= cursor.offset() <= total,
            parse_extra_data(s, start as int) == prepend(
                block_views(blocks@),
                parse_extra_data(s, cursor.offset()),
            ),
        decreases total - cursor.offset(),
    {
        let at: usize = cursor.position();
        let ghost done = block_views(blocks@);
        if cursor.remaining_len() < 4 {
            assert(done + Seq::<ExtraDataBlockView>::empty() =~= done);
            return Ok(blocks);
        }
        let size = match cursor.read_u32() {
            Ok(v) => v,
            Err(e) => { return Err(e); },
        };
        if size < TERMINAL_BLOCK_SIZE {
            assert(done + Seq::<ExtraDataBlockView>::empty() =~= done);
            return Ok(blocks);
        }
        if size < BLOCK_FRAME_SIZE || size as usize > total - at {
            let _ = cursor.seek_absolute(start);
            return Err(DecodeError::TruncatedInput);
        }
        let signature = match cursor.read_u32() {
            Ok(v) => v,
            Err(e) => { return Err(e); },
        };
        let payload = match cursor.read_fixed_bytes((size - BLOCK_FRAME_SIZE) as usize) {
            Ok(v) => v,
            Err(e) => { return Err(e); },
        };
        let block = ExtraDataBlock { size, signature, payload };
        assert(block@ == block_at(s, at as int));
        blocks.push(block);
        proof {
            let next = parse_extra_data(s, at + size);
            assert(block_views(blocks@) =~= done + seq![block_at(s, at as int)]);
            match next {
                Ok((more, end)) => {
                    assert((done + seq![block_at(s, at as int)]) + more =~= done + (seq![
                        block_at(s, at as int),
                    ] + more));
                },
                Err(_) => {},
            }
        }
    }
}

/// Where only zero bytes are left, the extra data holds no block: the walk
/// stops at the first size it reads, or at once if there is no room for one.
pub proof fn lemma_zero_tail_has_no_blocks(s: Seq<u8>, at: int)
    requires
        0 <= at <= s.len(),
        forall|i: int| at <= i < s.len() ==> s[i] == 0,
    ensures
        parse_extra_data(s, at) matches Ok((blocks, _)) && blocks.len() == 0,
{
}

/// The walk over the blocks never moves backwards and never leaves the
/// buffer; each block that it accepts moves it on by at least the frame.
pub proof fn lemma_extra_data_advances(s: Seq<u8>, at: int)
    requires
        0 <= at <= s.len(),
    ensures
        parse_extra_data(s, at) matches Ok((blocks, end)) ==> at <= end <= s.len() && at
            + BLOCK_FRAME_SIZE * blocks.len() <= end,
    decreases s.len() - at,
{
    if at + 4 <= s.len() && le_u32(s, at) >= BLOCK_FRAME_SIZE && at + le_u32(s, at) <= s.len() {
        lemma_extra_data_advances(s, at + le_u32(s, at));
    }
}

} // verus!
