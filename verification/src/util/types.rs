//! Media helpers: images and audio turned into content blocks.
//!
//! Reading a file is the caller's business; these types take the bytes that
//! were read (or the read error) and do the rest.

use vstd::prelude::*;
use base64::Engine;
use crate::error::{ErrorData, FastMCPError};
use crate::mcp::types::{ContentBlock, EmbeddedResource, ImageContent, ResourceContents};
use crate::util::text::owned;

verus! {

/// The character of a six-bit value in the standard base64 alphabet
/// (`A`-`Z`, `a`-`z`, `0`-`9`, `+`, `/`).
pub open spec fn base64_digit(n: nat) -> char {
    if n < 26 {
        (65 + n) as char
    } else if n < 52 {
        (71 + n) as char
    } else if n < 62 {
        (n - 4) as char
    } else if n == 62 {
        '+'
    } else {
        '/'
    }
}

/// The text `base64::engine::general_purpose::STANDARD` encodes bytes to:
/// each group of three bytes becomes four characters of the standard
/// alphabet, and a last group of one or two bytes is padded with `=`.
pub open spec fn base64_standard(bytes: Seq<u8>) -> Seq<char>
    decreases bytes.len(),
{
    if bytes.len() == 0 {
        Seq::empty()
    } else if bytes.len() == 1 {
        let x = bytes[0] as nat;
        seq![base64_digit(x / 4), base64_digit((x % 4) * 16), '=', '=']
    } else if bytes.len() == 2 {
        let x = bytes[0] as nat;
        let y = bytes[1] as nat;
        seq![base64_digit(x / 4), base64_digit((x % 4) * 16 + y / 16), base64_digit((y % 16) * 4), '=']
    } else {
        let x = bytes[0] as nat;
        let y = bytes[1] as nat;
        let z = bytes[2] as nat;
        seq![
            base64_digit(x / 4),
            base64_digit((x % 4) * 16 + y / 16),
            base64_digit((y % 16) * 4 + z / 64),
            base64_digit(z % 64),
        ] + base64_standard(bytes.subrange(3, bytes.len() as int))
    }
}

/// The MIME type `mime_guess::from_path(..).first_or_octet_stream()` gives
/// for a path; it looks at the extension only and reads nothing from disk.
pub uninterp spec fn guessed_mime(path: Seq<char>) -> Seq<char>;

/// Wraps `Engine::encode` of the standard engine; it returns the encoding of
/// `data`. The crate panics when the encoded length overflows `usize`, which
/// the bound rules out.
#[verifier::external_body]
fn base64_encode(data: &Vec<u8>) -> (r: String)
    requires
        data@.len() <= 3 * (usize::MAX / 4),
    ensures
        r@ == base64_standard(data@),
{
    base64::engine::general_purpose::STANDARD.encode(data)
}

/// Wraps `mime_guess::from_path(path).first_or_octet_stream()`, rendered as text.
#[verifier::external_body]
fn guess_mime(path: &str) -> (r: String)
    ensures
        r@ == guessed_mime(path@),
{
    mime_guess::from_path(path).first_or_octet_stream().to_string()
}

/// The code reported when a media file cannot be read.
pub const READ_FAILURE_CODE: i64 = -32603;

/// `e` is the error reported for a media file of kind `what` that could not be
/// read because of `err`.
pub open spec fn is_read_failure(e: FastMCPError, what: Seq<char>, err: Seq<char>) -> bool {
    e matches FastMCPError::Resource(d) && d.code == Some(READ_FAILURE_CODE) && d.data is None
        && d.message@ == "Failed to read "@ + what + " file: "@ + err
}

fn read_failure_error(what: &str, err: &str) -> (r: FastMCPError)
    ensures
        is_read_failure(r, what@, err@),
{
    let mut m = owned("Failed to read ");
    m.append(what);
    m.append(" file: ");
    m.append(err);
    FastMCPError::Resource(ErrorData { code: Some(READ_FAILURE_CODE), message: m, data: None })
}

/// An image, from a file or from bytes.
pub struct Image {
    pub path: Option<String>,
    pub data: Option<Vec<u8>>,
    pub mime_type: String,
}

impl Image {
    /// An image from the result of reading the file at `path`: the bytes with
    /// the MIME type guessed from the path, or the read error reported.
    pub fn from_read(path: &str, read: Result<Vec<u8>, String>) -> (r: Result<Image, FastMCPError>)
        ensures
            read is Ok <==> r is Ok,
            r matches Ok(img) ==> img.path matches Some(p) && p@ == path@ && img.data
                == Some(read->Ok_0) && img.mime_type@ == guessed_mime(path@),
            r matches Err(e) ==> is_read_failure(e, "image"@, read->Err_0@),
    {
        match read {
            Ok(bytes) => Ok(
                Image { path: Some(owned(path)), data: Some(bytes), mime_type: guess_mime(path) },
            ),
            Err(e) => Err(read_failure_error("image", e.as_str())),
        }
    }

    /// An image from bytes of the given MIME type.
    pub fn new(data: Vec<u8>, mime_type: &str) -> (r: Image)
        ensures
            r.path is None,
            r.data == Some(data),
            r.mime_type@ == mime_type@,
    {
        Image { path: None, data: Some(data), mime_type: owned(mime_type) }
    }

    /// The image as inline content: its bytes in base64 with its MIME type.
    /// An image without bytes is refused.
    pub fn to_content_block(&self) -> (r: Result<ContentBlock, FastMCPError>)
        requires
            self.data matches Some(d) ==> d@.len() <= 3 * (usize::MAX / 4),
        ensures
            self.data is None <==> r is Err,
            r matches Err(e) ==> e matches FastMCPError::InvalidRequest(m) && m@
                == "No data in Image"@,
            r matches Ok(b) ==> b matches ContentBlock::Image(c) && c.type_@ == "image"@ && c.data@
                == base64_standard(self.data->Some_0@) && c.mime_type@ == self.mime_type@,
    {
        match &self.data {
            None => Err(FastMCPError::InvalidRequest(owned("No data in Image"))),
            Some(d) => Ok(
                ContentBlock::Image(
                    ImageContent {
                        type_: owned("image"),
                        data: base64_encode(d),
                        mime_type: self.mime_type.clone(),
                    },
                ),
            ),
        }
    }
}

/// Audio, from a file or from bytes.
pub struct Audio {
    pub path: Option<String>,
    pub data: Option<Vec<u8>>,
    pub mime_type: String,
}

impl Audio {
    /// Audio from the result of reading the file at `path`: the bytes with the
    /// MIME type guessed from the path, or the read error reported.
    pub fn from_read(path: &str, read: Result<Vec<u8>, String>) -> (r: Result<Audio, FastMCPError>)
        ensures
            read is Ok <==> r is Ok,
            r matches Ok(a) ==> a.path matches Some(p) && p@ == path@ && a.data == Some(
                read->Ok_0,
            ) && a.mime_type@ == guessed_mime(path@),
            r matches Err(e) ==> is_read_failure(e, "audio"@, read->Err_0@),
    {
        match read {
            Ok(bytes) => Ok(
                Audio { path: Some(owned(path)), data: Some(bytes), mime_type: guess_mime(path) },
            ),
            Err(e) => Err(read_failure_error("audio", e.as_str())),
        }
    }

    /// The audio as an embedded resource: its bytes in base64 as the blob,
    /// its path (or `audio`) as the URI. Audio without bytes is refused.
    pub fn to_resource_content(&self) -> (r: Result<ContentBlock, FastMCPError>)
        requires
            self.data matches Some(d) ==> d@.len() <= 3 * (usize::MAX / 4),
        ensures
            self.data is None <==> r is Err,
            r matches Err(e) ==> e matches FastMCPError::InvalidRequest(m) && m@
                == "No data in Audio"@,
            r matches Ok(b) ==> b matches ContentBlock::EmbeddedResource(er) && er.type_@
                == "resource"@ && er.resource.uri@ == (match self.path {
                Some(p) => p@,
                None => "audio"@,
            }) && (er.resource.mime_type matches Some(m) && m@ == self.mime_type@)
                && er.resource.text is None && (er.resource.blob matches Some(b) && b@
                == base64_standard(self.data->Some_0@)),
    {
        match &self.data {
            None => Err(FastMCPError::InvalidRequest(owned("No data in Audio"))),
            Some(d) => {
                let uri = match &self.path {
                    Some(p) => p.clone(),
                    None => owned("audio"),
                };
                Ok(
                    ContentBlock::EmbeddedResource(
                        EmbeddedResource {
                            type_: owned("resource"),
                            resource: ResourceContents {
                                uri,
                                mime_type: Some(self.mime_type.clone()),
                                text: None,
                                blob: Some(base64_encode(d)),
                            },
                        },
                    ),
                )
            },
        }
    }
}

} // verus!
