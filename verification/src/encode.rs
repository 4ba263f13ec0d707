//! Planning how the video's still images are grouped into animated images.
//!
//! The video is cut into images at 25 per second, and every five seconds of
//! them (125 images) make one animated image.

use vstd::prelude::*;
use crate::decimal::{decimal, push_decimal};

verus! {

/// Images per animated image: five seconds at 25 per second.
pub const FRAMES_PER_GIF: usize = 125;

/// The most animated images encoded at the same time.
pub const MAX_ENCODERS: usize = 6;

/// The size to which a small animated image is padded for fast connections.
pub const FAST_INTERNET_SIZE: usize = 3145728;

/// How many animated images `frames` still images make: the quotient
/// rounded up.
pub open spec fn spec_gif_count(frames: nat) -> nat {
    ((frames + 124) / 125) as nat
}

/// Executable `spec_gif_count`.
pub fn gif_count(frames: usize) -> (n: usize)
    ensures
        n == spec_gif_count(frames as nat),
{
    let whole = frames / 125;
    if frames % 125 == 0 {
        whole
    } else {
        whole + 1
    }
}

/// How many still images the animated image `chunk` takes: those from index
/// `125 * chunk` on, up to but not including the first image of the next
/// chunk, as far as there are images.
pub open spec fn chunk_len(chunk: nat, frames: nat) -> nat {
    let start = chunk * 125;
    if start >= frames {
        0
    } else if frames - start < 125 {
        (frames - start) as nat
    } else {
        125
    }
}

/// The still images of the animated image `chunk`, in order: for each, its
/// position in the animated image and the number of its file (files are
/// numbered from 1).
pub fn chunk_frames(chunk: usize, frames: usize) -> (res: Vec<(usize, usize)>)
    requires
        chunk * 125 <= usize::MAX,
    ensures
        res@.len() == chunk_len(chunk as nat, frames as nat),
        forall|k: int|
            0 <= k < res@.len() ==> #[trigger] res@[k] == (k as usize, (chunk * 125 + k + 1) as usize),
{
    let start = chunk * 125;
    let end = if start >= frames {
        start
    } else if frames - start < 125 {
        frames
    } else {
        start + 125
    };
    let mut res: Vec<(usize, usize)> = Vec::new();
    let mut i = start;
    while i < end
        invariant
            start == chunk * 125,
            start <= i <= end,
            end - start == chunk_len(chunk as nat, frames as nat),
            res@.len() == i - start,
            forall|k: int| 0 <= k < res@.len() ==> #[trigger] res@[k] == (k as usize, (start + k + 1) as usize),
        decreases end - i,
    {
        res.push((i - start, i + 1));
        i = i + 1;
    }
    res
}

/// Every still image goes into some animated image: image `i` (counted from
/// 0) lies in the chunk `i / 125`, which is one of the `gif_count` chunks.
pub proof fn law_chunks_cover_frames(frames: nat, i: nat)
    requires
        i < frames,
    ensures
        i / 125 < spec_gif_count(frames),
        (i / 125) * 125 <= i < (i / 125) * 125 + chunk_len(i / 125, frames),
{
}

/// No still image goes into two animated images: the only chunk whose range
/// holds image `i` is the chunk `i / 125`.
pub proof fn law_chunks_are_disjoint(frames: nat, chunk: nat, i: nat)
    requires
        chunk * 125 <= i < chunk * 125 + chunk_len(chunk, frames),
    ensures
        chunk == i / 125,
{
}

/// Every animated image but the last holds five seconds of images (125),
/// and each of the `gif_count` chunks holds at least one image.
pub proof fn law_full_chunks(frames: nat, chunk: nat)
    requires
        chunk < spec_gif_count(frames),
    ensures
        chunk_len(chunk, frames) > 0,
        chunk + 1 < spec_gif_count(frames) ==> chunk_len(chunk, frames) == 125,
{
}

/// Whether another animated image may start encoding while `running` are
/// being encoded.
pub fn encoder_slot_free(running: usize) -> (res: bool)
    ensures
        res == (running < MAX_ENCODERS),
{
    running < MAX_ENCODERS
}

/// Pads an encoded animated image with zero bytes up to 3 MiB when fast
/// connections are assumed, so that every upload has the same length;
/// larger images and other settings are left as they are.
pub fn pad_gif(buf: &mut Vec<u8>, fast_internet: bool)
    ensures
        fast_internet && old(buf)@.len() < FAST_INTERNET_SIZE ==> final(buf)@ == old(buf)@ + Seq::new(
            (FAST_INTERNET_SIZE - old(buf)@.len()) as nat,
            |i: int| 0u8,
        ),
        !(fast_internet && old(buf)@.len() < FAST_INTERNET_SIZE) ==> final(buf)@ == old(buf)@,
{
    if fast_internet && buf.len() < FAST_INTERNET_SIZE {
        let ghost before = buf@;
        buf.resize(FAST_INTERNET_SIZE, 0u8);
        assert(buf@ =~= before + Seq::new((FAST_INTERNET_SIZE - before.len()) as nat, |i: int| 0u8)) by {
            assert forall|i: int| 0 <= i < buf@.len() implies buf@[i] == (before + Seq::new(
                (FAST_INTERNET_SIZE - before.len()) as nat,
                |i: int| 0u8,
            ))[i] by {
                if i < before.len() {
                    assert(buf@.subrange(0, before.len() as int)[i] == buf@[i]);
                }
            }
        }
    }
}

/// The file that holds animated image `n`.
pub fn gif_path(n: usize) -> (s: String)
    ensures
        s@ == "vid_encoded/"@ + decimal(n as nat),
{
    let mut s = String::new();
    s.append("vid_encoded/");
    push_decimal(&mut s, n as u128);
    s
}

/// The file that holds still image number `file_number`.
pub fn png_path(file_number: usize) -> (s: String)
    ensures
        s@ == "vid/"@ + decimal(file_number as nat) + ".png"@,
{
    let mut s = String::new();
    s.append("vid/");
    push_decimal(&mut s, file_number as u128);
    s.append(".png");
    s
}

} // verus!
