//! What is handed back for an image that was found: its address, its name,
//! its media type, the headers that describe it, and the file itself.

use crate::text::{extend_chars, from_chars, to_chars};
use crate::url::{extension, extension_of, get_image_name_from_url, image_name};
use vstd::prelude::*;
use vstd::string::*;

verus! {

/// The media type that `mime_guess` has for a file extension, or
/// `application/octet-stream` where it has none.
pub uninterp spec fn guessed_media_type(extension: Seq<char>) -> Seq<char>;

/// `mime_guess::from_ext` followed by `MimeGuess::first_or_octet_stream`,
/// written out as text. The extension is looked up in the crate's table
/// without regard to case; the first media type listed for it is the result,
/// and `application/octet-stream` where the table has no entry. An empty
/// extension has no entry.
#[verifier::external_body]
fn media_type_for(extension: &str) -> (media_type: String)
    ensures
        media_type@ == guessed_media_type(extension@),
        extension@.len() == 0 ==> media_type@ == "application/octet-stream"@,
{
    mime_guess::from_ext(extension).first_or_octet_stream().to_string()
}

/// The media type under which the file at `url` is served: the one guessed
/// for the extension of the address.
pub open spec fn content_type_of(url: Seq<char>) -> Seq<char> {
    guessed_media_type(extension_of(url))
}

/// The media type under which the file at `url` is served.
pub fn content_type(url: &str) -> (media_type: String)
    ensures
        media_type@ == content_type_of(url@),
        extension_of(url@).len() == 0 ==> media_type@ == "application/octet-stream"@,
{
    let ext = extension(url);
    media_type_for(ext.as_str())
}

/// The headers that describe an image named `file_name` of type
/// `media_type`, each as a name and a value.
pub open spec fn header_list(file_name: Seq<char>, media_type: Seq<char>) -> Seq<
    (Seq<char>, Seq<char>),
> {
    seq![
        ("Content-Disposition"@, "inline; filename=\""@ + file_name + "\""@),
        ("Content-Type"@, media_type),
        ("Cache-Control"@, "max-age=31536000, public, immutable, no-transform"@),
        ("Access-Control-Allow-Headers"@, "GET"@),
    ]
}

/// The headers sent with an image.
pub fn generate_http_headers(file_name: &str, media_type: &str) -> (headers: Vec<(String, String)>)
    ensures
        headers.deep_view() == header_list(file_name@, media_type@),
{
    let mut disposition = to_chars("inline; filename=\"");
    let name = to_chars(file_name);
    extend_chars(&mut disposition, &name);
    let quote = to_chars("\"");
    extend_chars(&mut disposition, &quote);
    let mut headers: Vec<(String, String)> = Vec::new();
    headers.push(("Content-Disposition".to_owned(), from_chars(&disposition)));
    headers.push(("Content-Type".to_owned(), media_type.to_owned()));
    headers.push(
        ("Cache-Control".to_owned(), "max-age=31536000, public, immutable, no-transform".to_owned()),
    );
    headers.push(("Access-Control-Allow-Headers".to_owned(), "GET".to_owned()));
    assert(headers.deep_view() =~= header_list(file_name@, media_type@));
    headers
}

/// An image that was found.
#[derive(Debug, PartialEq, Eq)]
pub struct Resolved<B> {
    /// The address at which the file was found.
    pub url: String,
    pub file_name: String,
    pub mime: String,
    pub headers: Vec<(String, String)>,
    /// The file as it was delivered.
    pub bytes: B,
}

/// `Resolved` as a mathematical value.
pub struct ResolvedView<B> {
    pub url: Seq<char>,
    pub file_name: Seq<char>,
    pub mime: Seq<char>,
    pub headers: Seq<(Seq<char>, Seq<char>)>,
    pub bytes: B,
}

impl<B> View for Resolved<B> {
    type V = ResolvedView<B>;

    open spec fn view(&self) -> ResolvedView<B> {
        ResolvedView {
            url: self.url@,
            file_name: self.file_name@,
            mime: self.mime@,
            headers: self.headers.deep_view(),
            bytes: self.bytes,
        }
    }
}

/// The image found at `url`, named and described by the given name and
/// media type.
pub open spec fn described<B>(
    url: Seq<char>,
    file_name: Seq<char>,
    media_type: Seq<char>,
    bytes: B,
) -> ResolvedView<B> {
    ResolvedView {
        url,
        file_name,
        mime: media_type,
        headers: header_list(file_name, media_type),
        bytes,
    }
}

/// The image found at `url`: named after the final segment of the address,
/// or `fallback` where that is empty, and typed by the address's extension.
pub open spec fn resolved_at<B>(url: Seq<char>, fallback: Seq<char>, bytes: B) -> ResolvedView<B> {
    described(url, image_name(url, fallback), content_type_of(url), bytes)
}

impl<B> Resolved<B> {
    /// Puts together what is handed back for an image, given its name and
    /// media type.
    pub fn describe(url: String, file_name: String, media_type: String, bytes: B) -> (found: Self)
        ensures
            found@ == described(url@, file_name@, media_type@, bytes),
    {
        let headers = generate_http_headers(file_name.as_str(), media_type.as_str());
        Resolved { url, file_name, mime: media_type, headers, bytes }
    }

    /// What is handed back for the file `bytes` found at `url`.
    pub fn at(url: String, fallback: String, bytes: B) -> (found: Self)
        ensures
            found@ == resolved_at(url@, fallback@, bytes),
    {
        let file_name = get_image_name_from_url(url.as_str(), fallback);
        let media_type = content_type(url.as_str());
        Resolved::describe(url, file_name, media_type, bytes)
    }
}

} // verus!
