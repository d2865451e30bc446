//! The target ID list: a length-prefixed region of size-prefixed items.
//!
//! The items are not interpreted. They are walked only to check that they
//! fill the region exactly, so that the next section starts where the list
//! says it does.

use vstd::prelude::*;
use crate::bytes::le_u16;
use crate::cursor::ByteCursor;
use crate::error::DecodeError;

verus! {

/// Whether the items that start at `at` fill the region up to `end` exactly.
/// Each item begins with its 16-bit size, which counts the size field too, so
/// that a size of one is impossible and an item may not reach past `end`. The
/// list closes with an item of size zero, which is two bytes long.
pub open spec fn items_fill(s: Seq<u8>, at: int, end: int) -> bool
    decreases end - at,
{
    if at + 2 > end {
        false
    } else {
        let size = le_u16(s, at) as int;
        if size == 0 {
            at + 2 == end
        } else if size < 2 || at + size > end {
            false
        } else {
            items_fill(s, at + size, end)
        }
    }
}

/// The index just past the ID list that starts at `at`: its 16-bit length
/// field and the region of that length.
pub open spec fn id_list_end(s: Seq<u8>, at: int) -> int {
    at + 2 + le_u16(s, at)
}

/// What decoding an ID list at `at` comes to: the index of the section after
/// it, or why the list is rejected.
pub open spec fn parse_id_list(s: Seq<u8>, at: int) -> Result<int, DecodeError> {
    if at + 2 > s.len() || id_list_end(s, at) > s.len() {
        Err(DecodeError::TruncatedInput)
    } else if !items_fill(s, at + 2, id_list_end(s, at)) {
        Err(DecodeError::MalformedIdList)
    } else {
        Ok(id_list_end(s, at))
    }
}

/// Walks the ID list at the cursor and moves the cursor past it. Returns the
/// declared length of the region. On failure the cursor stays where it was.
pub fn decode_target_id_list(cursor: &mut ByteCursor) -> (r: Result<u16, DecodeError>)
    ensures
        final(cursor).bytes() == old(cursor).bytes(),
        match r {
            Ok(length) => parse_id_list(old(cursor).bytes(), old(cursor).offset()) == Ok::<
                int,
                DecodeError,
            >(final(cursor).offset()) && length == le_u16(
                old(cursor).bytes(),
                old(cursor).offset(),
            ),
            Err(e) => parse_id_list(old(cursor).bytes(), old(cursor).offset()) == Err::<
                int,
                DecodeError,
            >(e) && final(cursor).offset() == old(cursor).offset(),
        },
{
    let ghost s = cursor.bytes();
    let start: usize = cursor.position();
    let length = match cursor.read_u16() {
        Ok(v) => v,
        Err(e) => { return Err(e); },
    };
    if cursor.remaining_len() < length as usize {
        let _ = cursor.seek_absolute(start);
        return Err(DecodeError::TruncatedInput);
    }
    let end: usize = start + 2 + length as usize;
    let mut filled: bool = false;
    let mut walking: bool = true;
    while walking
        invariant
            cursor.bytes() == s,
            end <= s.len(),
            start + 2 <= cursor.offset(),
            walking ==> cursor.offset() <= end,
            walking ==> items_fill(s, start + 2, end as int) == items_fill(
                s,
                cursor.offset(),
                end as int,
            ),
            !walking ==> filled == items_fill(s, start + 2, end as int),
        decreases end - cursor.offset() + (if walking { 1int } else { 0int }),
    {
        let at: usize = cursor.position();
        if end - at < 2 {
            filled = false;
            walking = false;
        } else {
            let size = match cursor.read_u16() {
                Ok(v) => v,
                Err(e) => { return Err(e); },
            };
            if size == 0 {
                filled = at + 2 == end;
                walking = false;
            } else if size < 2 || size as usize > end - at {
                filled = false;
                walking = false;
            } else {
                let _ = cursor.seek_absolute(at + size as usize);
            }
        }
    }
    if filled {
        let _ = cursor.seek_absolute(end);
        Ok(length)
    } else {
        let _ = cursor.seek_absolute(start);
        Err(DecodeError::MalformedIdList)
    }
}

} // verus!
