//! Recognising the chat commands that control playback.

use vstd::prelude::*;

verus! {

broadcast use vstd::utf8::encode_utf8_decode_utf8;

/// Whether two byte slices hold the same bytes.
fn bytes_equal(a: &[u8], b: &[u8]) -> (res: bool)
    ensures
        res == (a@ == b@),
{
    if a.len() != b.len() {
        return false;
    }
    let mut i: usize = 0;
    while i < a.len()
        invariant
            a@.len() == b@.len(),
            i <= a@.len(),
            forall|j: int| 0 <= j < i ==> a@[j] == b@[j],
        decreases a@.len() - i,
    {
        if a[i] != b[i] {
            return false;
        }
        i = i + 1;
    }
    assert(a@ =~= b@);
    true
}

/// Whether two texts are equal.
pub fn text_equal(a: &str, b: &str) -> (res: bool)
    ensures
        res == (a@ == b@),
{
    let r = bytes_equal(a.as_bytes(), b.as_bytes());
    proof {
        if vstd::utf8::encode_utf8(a@) == vstd::utf8::encode_utf8(b@) {
            assert(vstd::utf8::decode_utf8(vstd::utf8::encode_utf8(a@)) == a@);
            assert(vstd::utf8::decode_utf8(vstd::utf8::encode_utf8(b@)) == b@);
        }
    }
    r
}

/// A message asks for playback when it was posted in a server (not in a
/// direct conversation) and reads exactly `!play`.
pub fn wants_playback(in_guild: bool, content: &str) -> (res: bool)
    ensures
        res == (in_guild && content@ == "!play"@),
{
    if !in_guild {
        return false;
    }
    text_equal(content, "!play")
}

/// The first message at or before index `k` that either could not be read
/// or reads `command` stands at `k`, and none before it.
pub open spec fn first_stop_at(messages: Seq<Option<String>>, command: Seq<char>, k: int) -> bool {
    &&& 0 <= k < messages.len()
    &&& match messages[k] {
        Some(m) => m@ == command,
        None => true,
    }
    &&& forall|j: int|
        0 <= j < k ==> (#[trigger] messages[j] matches Some(m) && m@ != command)
}

/// Looks through the recent messages, newest first, for one that reads
/// `command`. A `None` stands for a message that could not be fetched; the
/// search stops there and reports its index as an error, since nothing can
/// be said of that message. Returns the index of the first message that
/// reads `command`, or `None` when every message was read and none does.
pub fn find_command(messages: &Vec<Option<String>>, command: &str) -> (res: Result<Option<usize>, usize>)
    ensures
        match res {
            Ok(Some(k)) => first_stop_at(messages@, command@, k as int) && messages@[k as int] is Some,
            Ok(None) => forall|j: int|
                0 <= j < messages@.len() ==> (#[trigger] messages@[j] matches Some(m) && m@
                    != command@),
            Err(k) => first_stop_at(messages@, command@, k as int) && messages@[k as int] is None,
        },
{
    let mut i: usize = 0;
    while i < messages.len()
        invariant
            i <= messages@.len(),
            forall|j: int|
                0 <= j < i ==> (#[trigger] messages@[j] matches Some(m) && m@ != command@),
        decreases messages@.len() - i,
    {
        match &messages[i] {
            Some(m) => {
                if text_equal(m.as_str(), command) {
                    return Ok(Some(i));
                }
            },
            None => {
                return Err(i);
            },
        }
        i = i + 1;
    }
    Ok(None)
}

} // verus!
