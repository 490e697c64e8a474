//! Where the header chunks of a byte buffer lie, found before the decoder
//! is called: the decoder negates the high byte of a header's timing word
//! as a signed byte, which has no result for the byte 0x80.

use vstd::prelude::*;

verus! {

/// Whether the four bytes at `at` are the given tag.
pub open spec fn tag_at(data: Seq<u8>, at: int, tag: Seq<u8>) -> bool {
    &&& tag.len() == 4
    &&& 0 <= at
    &&& at + 4 <= data.len()
    &&& data[at] == tag[0]
    &&& data[at + 1] == tag[1]
    &&& data[at + 2] == tag[2]
    &&& data[at + 3] == tag[3]
}

/// The tag "RIFF".
pub open spec fn tag_riff() -> Seq<u8> {
    seq![0x52u8, 0x49u8, 0x46u8, 0x46u8]
}

/// The tag "RMID".
pub open spec fn tag_rmid() -> Seq<u8> {
    seq![0x52u8, 0x4Du8, 0x49u8, 0x44u8]
}

/// The tag "data".
pub open spec fn tag_data() -> Seq<u8> {
    seq![0x64u8, 0x61u8, 0x74u8, 0x61u8]
}

/// The tag "MThd".
pub open spec fn tag_mthd() -> Seq<u8> {
    seq![0x4Du8, 0x54u8, 0x68u8, 0x64u8]
}

/// The tag "MTrk".
pub open spec fn tag_mtrk() -> Seq<u8> {
    seq![0x4Du8, 0x54u8, 0x72u8, 0x6Bu8]
}

/// The four bytes at `at` as a number, highest byte first.
pub open spec fn be32(data: Seq<u8>, at: int) -> int {
    data[at] * 0x100_0000 + data[at + 1] * 0x1_0000 + data[at + 2] * 0x100 + data[at + 3]
}

/// The four bytes at `at` as a number, lowest byte first.
pub open spec fn le32(data: Seq<u8>, at: int) -> int {
    data[at + 3] * 0x100_0000 + data[at + 2] * 0x1_0000 + data[at + 1] * 0x100 + data[at]
}

/// Where the body of a chunk ends that starts at `start` and declares
/// `len` bytes, in a window that ends at `end`: a body that would pass the
/// end of the window is what is left of the window.
pub open spec fn body_end(start: int, len: int, end: int) -> int {
    if start + len <= end {
        start + len
    } else {
        end
    }
}

/// The body of the first chunk tagged "data" among the RIFF chunks that
/// start at `pos` in a window that ends at `end`, as the places where it
/// starts and ends. A chunk is a tag, a length lowest byte first, the body
/// and, after a body of odd length, one byte of padding.
pub open spec fn riff_data_chunk(data: Seq<u8>, pos: int, end: int) -> Option<(int, int)>
    decreases end - pos,
{
    if pos < 0 || end > data.len() || end - pos < 8 {
        None
    } else {
        let len = le32(data, pos + 4);
        let stop = body_end(pos + 8, len, end);
        let next = if len % 2 == 1 && stop < end {
            stop + 1
        } else {
            stop
        };
        if tag_at(data, pos, tag_data()) {
            Some((pos + 8, stop))
        } else {
            riff_data_chunk(data, next, end)
        }
    }
}

/// The part of a buffer that holds the chunks of a MIDI file: all of a
/// buffer that starts with "MThd"; of a buffer that starts with "RIFF",
/// the body of the first "data" chunk inside a main chunk of form "RMID".
pub open spec fn smf_window(data: Seq<u8>) -> Option<(int, int)> {
    if tag_at(data, 0, tag_mthd()) {
        Some((0, data.len() as int))
    } else if tag_at(data, 0, tag_riff()) {
        if data.len() < 8 {
            None
        } else {
            let end = body_end(8, le32(data, 4), data.len() as int);
            if end - 8 >= 4 && tag_at(data, 8, tag_rmid()) {
                riff_data_chunk(data, 12, end)
            } else {
                None
            }
        }
    } else {
        None
    }
}

/// The body of the header chunk among the chunks that start at `pos` in a
/// window that ends at `end`: the first chunk tagged "MThd", unless a
/// track chunk or a broken chunk comes before it. A chunk is a tag, a
/// length highest byte first, and the body.
pub open spec fn header_body(data: Seq<u8>, pos: int, end: int) -> Option<(int, int)>
    decreases end - pos,
{
    if pos < 0 || end > data.len() || end - pos < 8 {
        None
    } else {
        let stop = body_end(pos + 8, be32(data, pos + 4), end);
        if tag_at(data, pos, tag_mthd()) {
            Some((pos + 8, stop))
        } else if tag_at(data, pos, tag_mtrk()) {
            None
        } else {
            header_body(data, stop, end)
        }
    }
}

/// Whether the header that starts at `start` makes the decoder negate the
/// byte 0x80: it holds its six bytes, its format is one of the three
/// formats, and the high byte of its timing word is 0x80.
pub open spec fn header_is_hazard(data: Seq<u8>, start: int, stop: int) -> bool {
    &&& 0 <= start
    &&& stop <= data.len()
    &&& stop - start >= 6
    &&& data[start] == 0
    &&& data[start + 1] <= 2
    &&& data[start + 4] == 0x80
}

/// Whether the decoder gives up on the header that starts at `start`: it
/// lacks one of its six bytes, its format is none of the three formats,
/// or its timing word names a frame rate that is none of 24, 25, 29 and
/// 30 frames per second (as the negated bytes 0xE8, 0xE7, 0xE3, 0xE2).
pub open spec fn header_is_refused(data: Seq<u8>, start: int, stop: int) -> bool {
    ||| start < 0
    ||| stop > data.len()
    ||| stop - start < 6
    ||| data[start] != 0
    ||| data[start + 1] > 2
    ||| (data[start + 4] >= 0x80 && data[start + 4] != 0xE8 && data[start + 4] != 0xE7
        && data[start + 4] != 0xE3 && data[start + 4] != 0xE2)
}

/// Whether one of the chunks that the decoder reads after the first
/// header, from `pos` on in a window that ends at `end`, is a header that
/// makes it negate the byte 0x80. The decoder reads chunk after chunk and
/// reads every header chunk that it meets. It stops where fewer than
/// eight bytes are left and at a header that it refuses.
pub open spec fn later_hazard(data: Seq<u8>, pos: int, end: int) -> bool
    decreases end - pos,
{
    if pos < 0 || end > data.len() || end - pos < 8 {
        false
    } else {
        let stop = body_end(pos + 8, be32(data, pos + 4), end);
        if tag_at(data, pos, tag_mthd()) {
            if header_is_hazard(data, pos + 8, stop) {
                true
            } else if header_is_refused(data, pos + 8, stop) {
                false
            } else {
                later_hazard(data, stop, end)
            }
        } else {
            later_hazard(data, stop, end)
        }
    }
}

/// Whether the decoder, on its way through a buffer, comes to negate the
/// byte 0x80 as a signed byte, which has no result: in the first header,
/// or, where it accepts that one, in a header among the chunks behind it.
/// Such a buffer is no MIDI file: no timing word of a file starts with
/// that byte.
pub open spec fn timing_hazard(data: Seq<u8>) -> bool {
    match smf_window(data) {
        Some((lo, hi)) => match header_body(data, lo, hi) {
            Some((start, stop)) => if header_is_hazard(data, start, stop) {
                true
            } else if header_is_refused(data, start, stop) {
                false
            } else {
                later_hazard(data, stop, hi)
            },
            None => false,
        },
        None => false,
    }
}

fn has_tag(data: &[u8], at: usize, a: u8, b: u8, c: u8, d: u8) -> (r: bool)
    requires
        at + 4 <= data.len(),
    ensures
        r == tag_at(data@, at as int, seq![a, b, c, d]),
{
    data[at] == a && data[at + 1] == b && data[at + 2] == c && data[at + 3] == d
}

fn read_be32(data: &[u8], at: usize) -> (r: u32)
    requires
        at + 4 <= data.len(),
    ensures
        r == be32(data@, at as int),
{
    (data[at] as u32) * 0x100_0000 + (data[at + 1] as u32) * 0x1_0000 + (data[at + 2] as u32)
        * 0x100 + (data[at + 3] as u32)
}

fn read_le32(data: &[u8], at: usize) -> (r: u32)
    requires
        at + 4 <= data.len(),
    ensures
        r == le32(data@, at as int),
{
    (data[at + 3] as u32) * 0x100_0000 + (data[at + 2] as u32) * 0x1_0000 + (data[at + 1] as u32)
        * 0x100 + (data[at] as u32)
}

fn find_body_end(start: usize, len: u32, end: usize) -> (r: usize)
    requires
        start <= end,
    ensures
        r == body_end(start as int, len as int, end as int),
        start <= r <= end,
{
    if len as usize <= end - start {
        start + len as usize
    } else {
        end
    }
}

fn find_riff_data(data: &[u8], from: usize, end: usize) -> (r: Option<(usize, usize)>)
    requires
        from <= end <= data.len(),
    ensures
        match r {
            Some((start, stop)) => riff_data_chunk(data@, from as int, end as int) == Some(
                (start as int, stop as int),
            ) && start <= stop <= end,
            None => riff_data_chunk(data@, from as int, end as int) is None,
        },
{
    let mut pos: usize = from;
    while end - pos >= 8
        invariant
            from <= pos <= end <= data.len(),
            riff_data_chunk(data@, from as int, end as int) == riff_data_chunk(
                data@,
                pos as int,
                end as int,
            ),
        decreases end - pos,
    {
        let len = read_le32(data, pos + 4);
        let stop = find_body_end(pos + 8, len, end);
        if has_tag(data, pos, 0x64, 0x61, 0x74, 0x61) {
            return Some((pos + 8, stop));
        }
        pos = if len % 2 == 1 && stop < end {
            stop + 1
        } else {
            stop
        };
    }
    None
}

fn find_window(data: &[u8]) -> (r: Option<(usize, usize)>)
    ensures
        match r {
            Some((lo, hi)) => smf_window(data@) == Some((lo as int, hi as int)) && lo <= hi
                <= data.len(),
            None => smf_window(data@) is None,
        },
{
    if data.len() < 4 {
        return None;
    }
    if has_tag(data, 0, 0x4D, 0x54, 0x68, 0x64) {
        return Some((0, data.len()));
    }
    if !has_tag(data, 0, 0x52, 0x49, 0x46, 0x46) || data.len() < 8 {
        return None;
    }
    let end = find_body_end(8, read_le32(data, 4), data.len());
    if end - 8 >= 4 && has_tag(data, 8, 0x52, 0x4D, 0x49, 0x44) {
        find_riff_data(data, 12, end)
    } else {
        None
    }
}

fn find_header(data: &[u8], lo: usize, hi: usize) -> (r: Option<(usize, usize)>)
    requires
        lo <= hi <= data.len(),
    ensures
        match r {
            Some((start, stop)) => header_body(data@, lo as int, hi as int) == Some(
                (start as int, stop as int),
            ) && start <= stop <= hi,
            None => header_body(data@, lo as int, hi as int) is None,
        },
{
    let mut pos: usize = lo;
    while hi - pos >= 8
        invariant
            lo <= pos <= hi <= data.len(),
            header_body(data@, lo as int, hi as int) == header_body(data@, pos as int, hi as int),
        decreases hi - pos,
    {
        let stop = find_body_end(pos + 8, read_be32(data, pos + 4), hi);
        if has_tag(data, pos, 0x4D, 0x54, 0x68, 0x64) {
            return Some((pos + 8, stop));
        }
        if has_tag(data, pos, 0x4D, 0x54, 0x72, 0x6B) {
            return None;
        }
        pos = stop;
    }
    None
}

fn is_hazard_header(data: &[u8], start: usize, stop: usize) -> (r: bool)
    requires
        start <= stop <= data.len(),
    ensures
        r == header_is_hazard(data@, start as int, stop as int),
{
    stop - start >= 6 && data[start] == 0 && data[start + 1] <= 2 && data[start + 4] == 0x80
}

fn is_refused_header(data: &[u8], start: usize, stop: usize) -> (r: bool)
    requires
        start <= stop <= data.len(),
    ensures
        r == header_is_refused(data@, start as int, stop as int),
{
    if stop - start < 6 || data[start] != 0 || data[start + 1] > 2 {
        return true;
    }
    let high = data[start + 4];
    high >= 0x80 && high != 0xE8 && high != 0xE7 && high != 0xE3 && high != 0xE2
}

fn find_later_hazard(data: &[u8], from: usize, end: usize) -> (r: bool)
    requires
        from <= end <= data.len(),
    ensures
        r == later_hazard(data@, from as int, end as int),
{
    let mut pos: usize = from;
    while end - pos >= 8
        invariant
            from <= pos <= end <= data.len(),
            later_hazard(data@, from as int, end as int) == later_hazard(
                data@,
                pos as int,
                end as int,
            ),
        decreases end - pos,
    {
        let stop = find_body_end(pos + 8, read_be32(data, pos + 4), end);
        if has_tag(data, pos, 0x4D, 0x54, 0x68, 0x64) {
            if is_hazard_header(data, pos + 8, stop) {
                return true;
            }
            if is_refused_header(data, pos + 8, stop) {
                return false;
            }
        }
        pos = stop;
    }
    false
}

/// Whether a buffer is one that the decoder cannot be given.
pub fn has_timing_hazard(data: &[u8]) -> (r: bool)
    ensures
        r == timing_hazard(data@),
{
    let (lo, hi) = match find_window(data) {
        Some(window) => window,
        None => {
            return false;
        },
    };
    match find_header(data, lo, hi) {
        Some((start, stop)) => {
            if is_hazard_header(data, start, stop) {
                true
            } else if is_refused_header(data, start, stop) {
                false
            } else {
                find_later_hazard(data, stop, hi)
            }
        },
        None => false,
    }
}

} // verus!
