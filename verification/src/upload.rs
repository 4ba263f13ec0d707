//! A frame of the video and the HTTP request that uploads it.
//!
//! A frame is uploaded in two phases: `cache_frame` yields every byte of the
//! request but the last one, which the frame keeps; `complete_send` hands
//! that last byte out, so that the request completes at a chosen moment.

use vstd::prelude::*;
use form_data_builder::FormData;
use crate::decimal::{decimal, is_numeral, law_decimal_reads_back, numeral_value, push_decimal};
use crate::multipart::{
    is_form_boundary,
    closing_delimiter, file_part, part_head, form_boundary, form_content_type, form_content_type_header,
    form_finish, form_new, form_write_file, form_written,
};

verus! {

/// The JSON payload that edits the message: its text is `content`, inserted
/// as it is, and its only attachment is the uploaded image.
pub open spec fn payload_json(content: Seq<char>) -> Seq<char> {
    "{ \"content\": \""@ + content
        + "\", \"attachments\": [{ \"id\": 0, \"filename\": \"ProjBotV3.gif\" }] }"@
}

/// The multipart document of an upload, with boundary `boundary`: the JSON
/// payload, then the image, then the closing delimiter.
pub open spec fn upload_body(boundary: Seq<char>, content: Seq<char>, image: Seq<u8>) -> Seq<u8> {
    file_part(
        boundary,
        "payload_json"@,
        None,
        "application/json"@,
        vstd::utf8::encode_utf8(payload_json(content)),
    ) + file_part(boundary, "files[0]"@, Some("ProjBotV3.gif"@), "image/gif"@, image)
        + closing_delimiter(boundary)
}

/// The header of the request that edits message `message` in channel
/// `channel`, for a body of `body_len` bytes of type `content_type`,
/// authorised by the bot token `token`.
pub open spec fn request_head(
    channel: u64,
    message: u64,
    body_len: nat,
    content_type: Seq<char>,
    token: Seq<char>,
) -> Seq<char> {
    "PATCH /api/v10/channels/"@ + decimal(channel as nat) + "/messages/"@ + decimal(message as nat)
        + " HTTP/1.1\n"@ + "Host: discord.com\nUser-Agent: ProjBotV3 image uploader (tudbut@tudbut.de)\n"@
        + "Content-Length: "@ + decimal(body_len) + "\n"@ + "Content-Type: "@ + content_type
        + "\n"@ + "Authorization: Bot "@ + token + "\n\n"@
}

/// The complete request: its header, then its body.
pub open spec fn upload_request(
    channel: u64,
    message: u64,
    content_type: Seq<char>,
    token: Seq<char>,
    body: Seq<u8>,
) -> Seq<u8> {
    vstd::utf8::encode_utf8(request_head(channel, message, body.len(), content_type, token)) + body
}

/// `request` is the request that uploads `image` to message `message` of
/// `channel` with text `content`, for some boundary the multipart writer
/// may have chosen.
pub open spec fn is_upload_request(
    request: Seq<u8>,
    channel: u64,
    message: u64,
    content: Seq<char>,
    token: Seq<char>,
    image: Seq<u8>,
) -> bool {
    exists|boundary: Seq<char>|
        is_form_boundary(boundary) && request == #[trigger] upload_request(
            channel,
            message,
            form_content_type(boundary),
            token,
            upload_body(boundary, content, image),
        )
}

/// Appends the UTF-8 bytes of `s` to `v`.
fn push_str_bytes(v: &mut Vec<u8>, s: &str)
    ensures
        final(v)@ == old(v)@ + vstd::utf8::encode_utf8(s@),
{
    v.extend_from_slice(s.as_bytes());
}

/// The JSON payload of an upload whose message text is `content`.
pub fn payload(content: &str) -> (res: String)
    ensures
        res@ == payload_json(content@),
        res@.len() == content@.len() + 76,
        res@.subrange(14, 14 + content@.len() as int) == content@,
{
    proof {
        law_payload_holds_whole_content(content@);
    }
    let mut s = String::new();
    s.append("{ \"content\": \"");
    s.append(content);
    s.append("\", \"attachments\": [{ \"id\": 0, \"filename\": \"ProjBotV3.gif\" }] }");
    assert(s@ =~= payload_json(content@));
    s
}

/// Builds the request that carries `body` (of type `content_type`) to
/// message `message` of `channel`.
pub fn build_request(channel: u64, message: u64, content_type: &str, token: &str, body: &[u8]) -> (res: Vec<u8>)
    ensures
        res@ == upload_request(channel, message, content_type@, token@, body@),
        exists|dc: Seq<char>, dm: Seq<char>|
            is_numeral(dc) && numeral_value(dc) == channel && is_numeral(dm) && numeral_value(dm)
                == message && #[trigger] begins_with(
                res@,
                vstd::utf8::encode_utf8(request_line(dc, dm)),
            ),
        exists|before: Seq<char>, digits: Seq<char>, after: Seq<char>|
            is_numeral(digits) && numeral_value(digits) == body@.len() && before.len() > 0
                && before.last() == '\n' && res@ == #[trigger] vstd::utf8::encode_utf8(
                before + "Content-Length: "@ + digits + "\n"@ + after,
            ) + body@,
{
    proof {
        law_request_line_names_channel_and_message(channel, message, content_type@, token@, body@);
        law_content_length_is_body_length(channel, message, content_type@, token@, body@);
    }
    let mut head = String::new();
    head.append("PATCH /api/v10/channels/");
    push_decimal(&mut head, channel as u128);
    head.append("/messages/");
    push_decimal(&mut head, message as u128);
    head.append(" HTTP/1.1\n");
    head.append("Host: discord.com\nUser-Agent: ProjBotV3 image uploader (tudbut@tudbut.de)\n");
    head.append("Content-Length: ");
    push_decimal(&mut head, body.len() as u128);
    head.append("\n");
    head.append("Content-Type: ");
    head.append(content_type);
    head.append("\n");
    head.append("Authorization: Bot ");
    head.append(token);
    head.append("\n\n");
    assert(head@ =~= request_head(channel, message, body@.len(), content_type@, token@));
    let mut out: Vec<u8> = Vec::new();
    push_str_bytes(&mut out, head.as_str());
    out.extend_from_slice(body);
    assert(out@ =~= upload_request(channel, message, content_type@, token@, body@));
    out
}

/// A nonempty text has a nonempty UTF-8 encoding.
proof fn lemma_encode_nonempty(s: Seq<char>)
    requires
        s.len() > 0,
    ensures
        vstd::utf8::encode_utf8(s).len() > 0,
{
}

/// Every upload document ends with its closing delimiter, so it is never
/// empty.
proof fn lemma_body_nonempty(boundary: Seq<char>, content: Seq<char>, image: Seq<u8>)
    ensures
        upload_body(boundary, content, image).len() > 0,
{
    reveal_strlit("--");
    lemma_encode_nonempty("--"@ + boundary + "--\r\n"@);
}

/// Writes the multipart document of an upload: the JSON payload with text
/// `content`, then `image` as the file `ProjBotV3.gif`. Returns the document
/// and the `Content-Type` value that announces it. The boundary is the one
/// the multipart writer chose. Writing into memory does not fail, so the
/// document is always produced.
pub fn upload_document(content: &str, image: &[u8]) -> (res: (Vec<u8>, String))
    ensures
        exists|boundary: Seq<char>|
            is_form_boundary(boundary) && res.0@ == #[trigger] upload_body(boundary, content@, image@)
                && res.1@ == form_content_type(boundary),
        exists|boundary: Seq<char>, front: Seq<u8>|
            is_form_boundary(boundary) && #[trigger] ends_with(front, image_part_head(boundary))
                && res.0@ == front + image@ + vstd::utf8::encode_utf8("\r\n"@) + closing_delimiter(
                boundary,
            ),
{
    let mut form = form_new();
    let json = payload(content);
    proof {
        reveal_strlit("payload_json");
        reveal_strlit("files[0]");
        reveal_strlit("ProjBotV3.gif");
    }
    match form_write_file(&mut form, "payload_json", json.as_str().as_bytes(), None, "application/json") {
        Ok(()) => {},
        Err(_) => {
            return unreached();
        },
    }
    match form_write_file(&mut form, "files[0]", image, Some("ProjBotV3.gif"), "image/gif") {
        Ok(()) => {},
        Err(_) => {
            return unreached();
        },
    }
    let content_type = form_content_type_header(&form);
    let body = match form_finish(&mut form) {
        Ok(doc) => doc,
        Err(_) => {
            return unreached();
        },
    };
    let ghost boundary = form_boundary(form);
    assert(body@ =~= upload_body(boundary, content@, image@));
    proof {
        law_document_carries_whole_image(boundary, content@, image@);
    }
    (body, content_type)
}

/// One animated image of the video and the channel it is shown in.
pub struct Frame {
    bytes: Vec<u8>,
    channel: u64,
    byte_to_write: Option<u8>,
}

impl Frame {
    /// The last byte of an upload request that has been sent up to that
    /// byte, or `None` when no upload is pending.
    pub closed spec fn pending(&self) -> Option<u8> {
        self.byte_to_write
    }

    /// The bytes of the frame's image.
    pub closed spec fn image(&self) -> Seq<u8> {
        self.bytes@
    }

    /// The channel the frame is shown in.
    pub closed spec fn channel_id(&self) -> u64 {
        self.channel
    }

    /// A frame with no pending upload.
    pub fn new(bytes: Vec<u8>, channel: u64) -> (frame: Frame)
        ensures
            frame.image() == bytes@,
            frame.channel_id() == channel,
            frame.pending() is None,
    {
        Frame { bytes, channel, byte_to_write: None }
    }

    /// The bytes of the frame's image.
    pub fn bytes(&self) -> (res: &Vec<u8>)
        ensures
            res@ == self.image(),
    {
        &self.bytes
    }

    /// The channel the frame is shown in.
    pub fn channel(&self) -> (res: u64)
        ensures
            res == self.channel_id(),
    {
        self.channel
    }

    /// Whether `complete_send` may be called: an upload is pending.
    pub open spec fn can_complete(&self) -> bool {
        self.pending() is Some
    }

    /// Whether an upload of this frame is pending.
    pub fn is_cached(&self) -> (res: bool)
        ensures
            res == self.pending() is Some,
    {
        self.byte_to_write.is_some()
    }

    /// Whether the image is over 1 MiB, so that its upload takes long enough
    /// to be accounted for in the timing.
    pub fn needs_size_compensation(&self) -> (res: bool)
        ensures
            res == (self.image().len() > 1048576),
    {
        self.bytes.len() > 1048576
    }

    /// Prepares the upload of this frame into message `message`, whose text
    /// becomes `content`. Returns the bytes to send now: the whole request
    /// but its last byte, which the frame keeps as pending (replacing any
    /// byte an earlier, unfinished upload left). Writing the request into
    /// memory does not fail, so the bytes are always produced.
    pub fn cache_frame(&mut self, message: u64, content: &str, token: &str) -> (sent: Vec<u8>)
        ensures
            final(self).image() == old(self).image(),
            final(self).channel_id() == old(self).channel_id(),
            final(self).can_complete(),
            is_upload_request(
                sent@.push(final(self).pending()->Some_0),
                old(self).channel_id(),
                message,
                content@,
                token@,
                old(self).image(),
            ),
    {
        let (body, content_type) = upload_document(content, self.bytes.as_slice());
        let ghost boundary = choose|boundary: Seq<char>|
            is_form_boundary(boundary) && body@ == #[trigger] upload_body(boundary, content@, self.bytes@)
                && content_type@ == form_content_type(boundary);
        proof {
            lemma_body_nonempty(boundary, content@, self.bytes@);
        }
        let mut request = build_request(self.channel, message, content_type.as_str(), token, body.as_slice());
        let ghost full = request@;
        assert(full.len() > 0);
        let last = request.pop();
        match last {
            Some(byte) => {
                self.byte_to_write = Some(byte);
                assert(request@.push(byte) =~= full);
                assert(full == upload_request(
                    old(self).channel,
                    message,
                    form_content_type(boundary),
                    token@,
                    upload_body(boundary, content@, old(self).bytes@),
                ));
                request
            },
            None => {
                assert(false);
                request
            },
        }
    }

    /// Completes a pending upload: returns the byte still to be sent and
    /// leaves the frame with no upload pending, so that it cannot complete
    /// again before `cache_frame` prepares another upload.
    pub fn complete_send(&mut self) -> (byte: u8)
        requires
            old(self).can_complete(),
        ensures
            byte == old(self).pending()->Some_0,
            final(self).pending() is None,
            !final(self).can_complete(),
            final(self).image() == old(self).image(),
            final(self).channel_id() == old(self).channel_id(),
    {
        match self.byte_to_write {
            Some(byte) => {
                self.byte_to_write = None;
                byte
            },
            None => {
                assert(false);
                0
            },
        }
    }
}

/// The two phases of an upload add up to the whole request: the bytes that
/// `cache_frame` hands out, followed by the byte that `complete_send` hands
/// out of the same frame, are an upload request for the frame's image.
pub proof fn law_two_phases_make_the_request(
    cached: Frame,
    sent: Seq<u8>,
    completing_byte: u8,
    message: u64,
    content: Seq<char>,
    token: Seq<char>,
)
    requires
        cached.pending() is Some,
        is_upload_request(
            sent.push(cached.pending()->Some_0),
            cached.channel_id(),
            message,
            content,
            token,
            cached.image(),
        ),
        completing_byte == cached.pending()->Some_0,
    ensures
        is_upload_request(
            sent + seq![completing_byte],
            cached.channel_id(),
            message,
            content,
            token,
            cached.image(),
        ),
{
    assert(sent + seq![completing_byte] =~= sent.push(cached.pending()->Some_0));
}

/// The bytes of `s` begin with `p`.
pub open spec fn begins_with(s: Seq<u8>, p: Seq<u8>) -> bool {
    p.len() <= s.len() && s.subrange(0, p.len() as int) == p
}

/// The bytes of `s` end with `p`.
pub open spec fn ends_with(s: Seq<u8>, p: Seq<u8>) -> bool {
    p.len() <= s.len() && s.subrange(s.len() - p.len(), s.len() as int) == p
}

/// The request line of an upload to the channel and message whose numerals
/// are `channel` and `message`.
pub open spec fn request_line(channel: Seq<char>, message: Seq<char>) -> Seq<char> {
    "PATCH /api/v10/channels/"@ + channel + "/messages/"@ + message + " HTTP/1.1\n"@
}

/// The header lines that open the image part of an upload document.
pub open spec fn image_part_head(boundary: Seq<char>) -> Seq<u8> {
    vstd::utf8::encode_utf8(
        part_head(boundary, "files[0]"@, Some("ProjBotV3.gif"@), "image/gif"@),
    )
}

/// UTF-8 encoding of a concatenation is the concatenation of the encodings.
pub proof fn lemma_encode_concat(a: Seq<char>, b: Seq<char>)
    ensures
        vstd::utf8::encode_utf8(a + b) == vstd::utf8::encode_utf8(a) + vstd::utf8::encode_utf8(b),
    decreases a.len(),
{
    if a.len() == 0 {
        assert(a + b =~= b);
        assert(vstd::utf8::encode_utf8(a) =~= Seq::<u8>::empty());
        assert(vstd::utf8::encode_utf8(a) + vstd::utf8::encode_utf8(b) =~= vstd::utf8::encode_utf8(b));
    } else {
        assert((a + b).drop_first() =~= a.drop_first() + b);
        assert((a + b)[0] == a[0]);
        lemma_encode_concat(a.drop_first(), b);
        assert(vstd::utf8::encode_utf8(a + b) =~= vstd::utf8::encode_utf8(a) + vstd::utf8::encode_utf8(b));
    }
}

/// The payload holds the whole message text: the fixed 14 characters
/// `{ "content": "`, then every character of the text, then the fixed 62
/// characters that name the attachment.
pub proof fn law_payload_holds_whole_content(content: Seq<char>)
    ensures
        payload_json(content).len() == content.len() + 76,
        payload_json(content).subrange(0, 14) == "{ \"content\": \""@,
        payload_json(content).subrange(14, 14 + content.len() as int) == content,
{
    reveal_strlit("{ \"content\": \"");
    reveal_strlit("\", \"attachments\": [{ \"id\": 0, \"filename\": \"ProjBotV3.gif\" }] }");
    assert(payload_json(content).subrange(0, 14) =~= "{ \"content\": \""@);
    assert(payload_json(content).subrange(14, 14 + content.len() as int) =~= content);
}

/// The request line names the full channel and message ids: the request
/// begins with `PATCH /api/v10/channels/`, a numeral that reads back as the
/// channel id, `/messages/`, a numeral that reads back as the message id,
/// and ` HTTP/1.1`.
pub proof fn law_request_line_names_channel_and_message(
    channel: u64,
    message: u64,
    content_type: Seq<char>,
    token: Seq<char>,
    body: Seq<u8>,
)
    ensures
        exists|dc: Seq<char>, dm: Seq<char>|
            is_numeral(dc) && numeral_value(dc) == channel && is_numeral(dm) && numeral_value(dm)
                == message && #[trigger] begins_with(
                upload_request(channel, message, content_type, token, body),
                vstd::utf8::encode_utf8(request_line(dc, dm)),
            ),
{
    let dc = decimal(channel as nat);
    let dm = decimal(message as nat);
    law_decimal_reads_back(channel as nat);
    law_decimal_reads_back(message as nat);
    let line = request_line(dc, dm);
    let head = request_head(channel, message, body.len(), content_type, token);
    let rest = "Host: discord.com\nUser-Agent: ProjBotV3 image uploader (tudbut@tudbut.de)\n"@
        + "Content-Length: "@ + decimal(body.len()) + "\n"@ + "Content-Type: "@ + content_type
        + "\n"@ + "Authorization: Bot "@ + token + "\n\n"@;
    assert(head =~= line + rest);
    lemma_encode_concat(line, rest);
    let req = upload_request(channel, message, content_type, token, body);
    let el = vstd::utf8::encode_utf8(line);
    assert(req =~= el + (vstd::utf8::encode_utf8(rest) + body));
    assert(req.subrange(0, el.len() as int) =~= el);
    assert(begins_with(req, el));
}

/// The `Content-Length` header states the body's exact length: the request
/// is a header, whose `Content-Length:` line begins a line and holds a
/// numeral that reads back as the number of body bytes, followed by exactly
/// those body bytes.
pub proof fn law_content_length_is_body_length(
    channel: u64,
    message: u64,
    content_type: Seq<char>,
    token: Seq<char>,
    body: Seq<u8>,
)
    ensures
        exists|before: Seq<char>, digits: Seq<char>, after: Seq<char>|
            is_numeral(digits) && numeral_value(digits) == body.len() && before.len() > 0
                && before.last() == '\n' && upload_request(channel, message, content_type, token, body)
                == #[trigger] vstd::utf8::encode_utf8(
                before + "Content-Length: "@ + digits + "\n"@ + after,
            ) + body,
{
    reveal_strlit("Host: discord.com\nUser-Agent: ProjBotV3 image uploader (tudbut@tudbut.de)\n");
    let digits = decimal(body.len());
    law_decimal_reads_back(body.len());
    let host = "Host: discord.com\nUser-Agent: ProjBotV3 image uploader (tudbut@tudbut.de)\n"@;
    let before = request_line(decimal(channel as nat), decimal(message as nat)) + host;
    let after = "Content-Type: "@ + content_type + "\n"@ + "Authorization: Bot "@ + token
        + "\n\n"@;
    let head = request_head(channel, message, body.len(), content_type, token);
    assert(head =~= before + "Content-Length: "@ + digits + "\n"@ + after);
    assert(host.last() == '\n');
    assert(before.last() == host.last());
    assert(before.len() > 0);
    assert(upload_request(channel, message, content_type, token, body) == vstd::utf8::encode_utf8(
        before + "Content-Length: "@ + digits + "\n"@ + after,
    ) + body);
}

/// The image part of an upload document carries the image whole: the
/// document is some bytes that end with the image part's header lines, then
/// every byte of the image, then a line break and the closing delimiter.
pub proof fn law_document_carries_whole_image(boundary: Seq<char>, content: Seq<char>, image: Seq<u8>)
    ensures
        exists|front: Seq<u8>|
            #[trigger] ends_with(front, image_part_head(boundary)) && upload_body(
                boundary,
                content,
                image,
            ) == front + image + vstd::utf8::encode_utf8("\r\n"@) + closing_delimiter(boundary),
{
    let first = file_part(
        boundary,
        "payload_json"@,
        None,
        "application/json"@,
        vstd::utf8::encode_utf8(payload_json(content)),
    );
    let front = first + image_part_head(boundary);
    assert(front.subrange(front.len() - image_part_head(boundary).len(), front.len() as int)
        =~= image_part_head(boundary));
    assert(ends_with(front, image_part_head(boundary)));
    assert(upload_body(boundary, content, image) =~= front + image + vstd::utf8::encode_utf8(
        "\r\n"@,
    ) + closing_delimiter(boundary));
}

} // verus!
