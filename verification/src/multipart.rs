//! `multipart/form-data` documents, written through the `form_data_builder`
//! crate. The document's bytes are described here by the layout that the
//! crate's writer produces; its boundary is chosen by the crate at random.

use vstd::prelude::*;
use form_data_builder::FormData;

verus! {

#[verifier::external_type_specification]
#[verifier::external_body]
#[verifier::reject_recursive_types(W)]
pub struct ExFormData<W>(FormData<W>);

#[verifier::external_type_specification]
#[verifier::external_body]
pub struct ExIoError(std::io::Error);

/// The bytes written so far into the document held by a `FormData` over a
/// byte vector; `None` once the document has been finished and its writer
/// handed back.
pub uninterp spec fn form_written(form: FormData<Vec<u8>>) -> Option<Seq<u8>>;

/// The multipart boundary that a `FormData` was created with.
pub uninterp spec fn form_boundary(form: FormData<Vec<u8>>) -> Seq<char>;

/// The header lines that open one part of a document: the boundary
/// delimiter, the `Content-Disposition` line with the field name and the
/// optional file name, the optional `Content-Type` line, and a blank line.
pub open spec fn part_head(
    boundary: Seq<char>,
    name: Seq<char>,
    filename: Option<Seq<char>>,
    content_type: Seq<char>,
) -> Seq<char> {
    "--"@ + boundary + "\r\n"@ + "Content-Disposition: form-data; name=\""@ + name + "\""@
        + match filename {
        Some(f) => "; filename=\""@ + f + "\""@,
        None => Seq::<char>::empty(),
    } + "\r\n"@ + "Content-Type: "@ + content_type + "\r\n"@ + "\r\n"@
}

/// The bytes of one file part of a document: its header, the file's bytes,
/// and a line break.
pub open spec fn file_part(
    boundary: Seq<char>,
    name: Seq<char>,
    filename: Option<Seq<char>>,
    content_type: Seq<char>,
    data: Seq<u8>,
) -> Seq<u8> {
    vstd::utf8::encode_utf8(part_head(boundary, name, filename, content_type)) + data + vstd::utf8::encode_utf8("\r\n"@)
}

/// The closing delimiter of a document.
pub open spec fn closing_delimiter(boundary: Seq<char>) -> Seq<u8> {
    vstd::utf8::encode_utf8("--"@ + boundary + "--\r\n"@)
}

/// The value of the `Content-Type` header that announces a document.
pub open spec fn form_content_type(boundary: Seq<char>) -> Seq<char> {
    "multipart/form-data; boundary="@ + boundary
}

/// A character of the URL-safe base64 alphabet.
pub open spec fn is_url_safe_base64_char(c: char) -> bool {
    ('A' <= c && c <= 'Z') || ('a' <= c && c <= 'z') || ('0' <= c && c <= '9') || c == '-' || c
        == '_'
}

/// The shape of a boundary that the multipart writer makes: 36 dashes, then
/// 32 characters of URL-safe base64 (the encoding of 24 bytes).
pub open spec fn is_form_boundary(boundary: Seq<char>) -> bool {
    &&& boundary.len() == 68
    &&& forall|i: int| 0 <= i < 36 ==> #[trigger] boundary[i] == '-'
    &&& forall|i: int| 36 <= i < 68 ==> is_url_safe_base64_char(#[trigger] boundary[i])
}

/// Calls `FormData::new` on an empty byte vector. The crate's source writes
/// nothing yet and builds the boundary by encoding 24 bytes (the clock's
/// time and random bytes) in URL-safe base64, 32 characters, and padding it
/// on the left with dashes to 68 characters; which bytes is left unsaid. The crate
/// panics when the system clock reads a time before 1970 or the random
/// number generator fails, neither of which depends on an argument.
#[verifier::external_body]
pub(crate) fn form_new() -> (form: FormData<Vec<u8>>)
    ensures
        form_written(form) == Some(Seq::<u8>::empty()),
        is_form_boundary(form_boundary(form)),
{
    FormData::new(Vec::new())
}

/// Calls `FormData::write_file` with an in-memory reader over `data`. The
/// crate fails only when the form was already finished or when its writer
/// fails; reading from memory and writing into a byte vector do not fail, so
/// the call succeeds whenever the form still holds its writer. On success
/// the crate has appended one file part (see `file_part`) to the document;
/// the boundary never changes.
#[verifier::external_body]
pub(crate) fn form_write_file(
    form: &mut FormData<Vec<u8>>,
    name: &str,
    data: &[u8],
    filename: Option<&str>,
    content_type: &str,
) -> (res: Result<(), std::io::Error>)
    ensures
        form_boundary(*final(form)) == form_boundary(*old(form)),
        form_written(*old(form)) is Some ==> res is Ok,
        res is Ok ==> form_written(*old(form)) is Some && form_written(*final(form)) == Some(
            form_written(*old(form))->Some_0 + file_part(
                form_boundary(*old(form)),
                name@,
                match filename {
                    Some(f) => Some(f@),
                    None => None,
                },
                content_type@,
                data@,
            ),
        ),
{
    form.write_file(name, std::io::Cursor::new(data), filename.map(AsRef::as_ref), content_type)
}

/// Calls `FormData::finish`. The crate fails only when the form was already
/// finished or when its writer fails, and a byte vector does not fail, so
/// the call succeeds whenever the form still holds its writer. It hands back
/// the written bytes followed by the closing delimiter.
#[verifier::external_body]
pub(crate) fn form_finish(form: &mut FormData<Vec<u8>>) -> (res: Result<Vec<u8>, std::io::Error>)
    ensures
        form_boundary(*final(form)) == form_boundary(*old(form)),
        form_written(*old(form)) is Some ==> res is Ok,
        res matches Ok(doc) ==> form_written(*old(form)) is Some && doc@ == form_written(
            *old(form),
        )->Some_0 + closing_delimiter(form_boundary(*old(form))),
{
    form.finish()
}

/// Calls `FormData::content_type_header`, which formats the boundary into
/// the `Content-Type` value of the document.
#[verifier::external_body]
pub(crate) fn form_content_type_header(form: &FormData<Vec<u8>>) -> (res: String)
    ensures
        res@ == form_content_type(form_boundary(*form)),
{
    form.content_type_header()
}

} // verus!
