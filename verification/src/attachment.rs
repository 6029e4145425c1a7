//! Encoding of attachment key/value lists.
//!
//! A put may carry a list of key/value attachments. The boundary frames
//! them into one byte string — for each entry, a four-byte little-endian
//! key length, the key bytes, a four-byte little-endian value length, then
//! the value bytes. A malformed entry — an absent key, key bytes that are
//! not UTF-8, or a key or value too long for its four-byte length field —
//! is skipped, never fatal. An encoding with no surviving entries is
//! reported as no attachment at all.

use crate::text::is_valid_utf8;
use vstd::bytes::{spec_u32_to_le_bytes, u32_to_le_bytes};
use vstd::prelude::*;
use vstd::utf8::valid_utf8;

verus! {

/// One attachment entry as it arrives at the boundary: the key bytes, if a
/// key was supplied at all, and the value bytes (an absent value arrives as
/// an empty one).
pub struct ZenohAttachmentItem {
    pub key: Option<Vec<u8>>,
    pub value: Vec<u8>,
}

impl ZenohAttachmentItem {
    /// An entry survives encoding when it has a key, the key is UTF-8, and
    /// both lengths fit their four-byte fields.
    pub open spec fn spec_well_formed(&self) -> bool {
        &&& self.key matches Some(k) && valid_utf8(k@)
        &&& (self.key matches Some(k) ==> k@.len() <= u32::MAX)
        &&& self.value@.len() <= u32::MAX
    }

    /// The frame of one entry: nothing for a malformed entry, else both
    /// length-prefixed byte strings.
    pub open spec fn spec_frame(&self) -> Seq<u8> {
        if self.spec_well_formed() {
            let k = self.key->Some_0;
            spec_u32_to_le_bytes(k@.len() as u32) + k@ + spec_u32_to_le_bytes(
                self.value@.len() as u32,
            ) + self.value@
        } else {
            Seq::empty()
        }
    }
}

/// The frame of a whole attachment list: each entry's frame in order.
pub open spec fn spec_attachment_frame(items: Seq<ZenohAttachmentItem>) -> Seq<u8>
    decreases items.len(),
{
    if items.len() == 0 {
        Seq::empty()
    } else {
        items[0].spec_frame() + spec_attachment_frame(items.drop_first())
    }
}

/// Appending one item's frame: the frame of a prefix one longer is the
/// frame so far followed by that item's frame.
proof fn lemma_attachment_frame_take_step(items: Seq<ZenohAttachmentItem>, i: int)
    requires
        0 <= i < items.len(),
    ensures
        spec_attachment_frame(items.take(i + 1)) == spec_attachment_frame(items.take(i))
            + items[i].spec_frame(),
    decreases i,
{
    if i == 0 {
        assert(items.take(1).len() == 1);
        assert(items.take(1)[0] == items[0]);
        assert(items.take(1).drop_first() =~= Seq::empty());
        assert(spec_attachment_frame(Seq::<ZenohAttachmentItem>::empty()) == Seq::<u8>::empty());
        assert(spec_attachment_frame(items.take(1)) == items[0].spec_frame() + Seq::empty());
        assert(items.take(0) =~= Seq::empty());
        assert(items[0].spec_frame() + Seq::<u8>::empty() =~= items[0].spec_frame());
        assert(Seq::<u8>::empty() + items[0].spec_frame() =~= items[0].spec_frame());
    } else {
        let sub = items.drop_first();
        lemma_attachment_frame_take_step(sub, i - 1);
        assert(items.take(i + 1).drop_first() =~= sub.take(i));
        assert(items.take(i).drop_first() =~= sub.take(i - 1));
        assert(items.take(i + 1)[0] == items[0]);
        assert(items.take(i)[0] == items[0]);
        assert(sub[i - 1] == items[i]);
        assert(spec_attachment_frame(items.take(i + 1)) == items[0].spec_frame()
            + spec_attachment_frame(sub.take(i)));
        assert(spec_attachment_frame(items.take(i)) == items[0].spec_frame()
            + spec_attachment_frame(sub.take(i - 1)));
        assert((items[0].spec_frame() + spec_attachment_frame(sub.take(i - 1)))
            + items[i].spec_frame() =~= items[0].spec_frame() + (spec_attachment_frame(
            sub.take(i - 1),
        ) + items[i].spec_frame()));
    }
}

/// Frames an attachment list. The result is the concatenated frames of the
/// well-formed entries, or nothing when no entry survives.
pub fn encode_attachments(items: &Vec<ZenohAttachmentItem>) -> (r: Option<Vec<u8>>)
    ensures
        r is None <==> spec_attachment_frame(items@).len() == 0,
        r matches Some(v) ==> v@ == spec_attachment_frame(items@),
{
    let n = items.len();
    let mut out: Vec<u8> = Vec::new();
    let mut i: usize = 0;
    while i < n
        invariant
            0 <= i <= n,
            n == items@.len(),
            out@ == spec_attachment_frame(items@.take(i as int)),
        decreases n - i,
    {
        let item = &items[i];
        match &item.key {
            None => {},
            Some(k) => {
                if is_valid_utf8(k.as_slice()) && k.len() <= (u32::MAX as usize)
                    && item.value.len() <= (u32::MAX as usize) {
                    let mut klen = u32_to_le_bytes(k.len() as u32);
                    out.append(&mut klen);
                    out.extend_from_slice(k.as_slice());
                    let mut vlen = u32_to_le_bytes(item.value.len() as u32);
                    out.append(&mut vlen);
                    out.extend_from_slice(item.value.as_slice());
                }
            },
        }
        proof {
            lemma_attachment_frame_take_step(items@, i as int);
        }
        i = i + 1;
    }
    proof {
        assert(items@.take(n as int) =~= items@);
    }
    if out.len() == 0 {
        None
    } else {
        Some(out)
    }
}

} // verus!
