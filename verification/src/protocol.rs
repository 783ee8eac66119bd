//! The `peekdown` protocol that serves the page and local images to the
//! web view, and the messages that files dropped on the window become.

use vstd::prelude::*;
use vstd::utf8::is_ascii_chars;
use crate::ipc::lemma_member_keys_ordered;
use crate::json::{json_object1, json_object2, json_object_with, json_object_with_two};
use crate::text::{has_prefix, str_eq};
use crate::url::{image_path, image_path_from_query, image_query, lemma_image_path_round_trip};

verus! {

/// The lower-case form of an ASCII character.
pub open spec fn ascii_lower(c: char) -> char {
    if 'A' <= c <= 'Z' {
        ((c as u32) + 32) as char
    } else {
        c
    }
}

/// Name for what std's `str::to_lowercase` returns.
pub uninterp spec fn lowercase(s: Seq<char>) -> Seq<char>;

/// std's `str::to_lowercase`. Trusted: the result is the named lower-case
/// form; for ASCII text it is the text with `A`..`Z` made `a`..`z`. What it
/// does to other characters (Unicode case mapping) is not stated.
#[verifier::external_body]
fn to_lowercase(s: &str) -> (r: String)
    ensures
        r@ == lowercase(s@),
        is_ascii_chars(s@) ==> r@ == s@.map_values(|c: char| ascii_lower(c)),
{
    s.to_lowercase()
}

/// The media type served for a file with the given (lower-case) extension.
pub open spec fn mime_of(ext: Seq<char>) -> Seq<char> {
    if ext == "png"@ {
        "image/png"@
    } else if ext == "jpg"@ || ext == "jpeg"@ {
        "image/jpeg"@
    } else if ext == "gif"@ {
        "image/gif"@
    } else if ext == "svg"@ {
        "image/svg+xml"@
    } else if ext == "webp"@ {
        "image/webp"@
    } else if ext == "bmp"@ {
        "image/bmp"@
    } else if ext == "ico"@ {
        "image/x-icon"@
    } else if ext == "tiff"@ || ext == "tif"@ {
        "image/tiff"@
    } else {
        "application/octet-stream"@
    }
}

/// The media type for a lower-case extension.
pub fn mime_type_for(ext: &str) -> (r: &'static str)
    ensures
        r@ == mime_of(ext@),
{
    if str_eq(ext, "png") {
        "image/png"
    } else if str_eq(ext, "jpg") || str_eq(ext, "jpeg") {
        "image/jpeg"
    } else if str_eq(ext, "gif") {
        "image/gif"
    } else if str_eq(ext, "svg") {
        "image/svg+xml"
    } else if str_eq(ext, "webp") {
        "image/webp"
    } else if str_eq(ext, "bmp") {
        "image/bmp"
    } else if str_eq(ext, "ico") {
        "image/x-icon"
    } else if str_eq(ext, "tiff") || str_eq(ext, "tif") {
        "image/tiff"
    } else {
        "application/octet-stream"
    }
}

/// The media type for an image file's extension, in any case.
pub fn image_mime_type(ext: &str) -> (r: &'static str)
    ensures
        r@ == mime_of(lowercase(ext@)),
{
    let lower = to_lowercase(ext);
    mime_type_for(lower.as_str())
}

/// The (lower-case) extensions of the files that a drop opens.
pub open spec fn is_document_extension(ext: Seq<char>) -> bool {
    ext == "md"@ || ext == "markdown"@ || ext == "txt"@
}

/// Whether a lower-case extension is one of a document that a drop opens.
pub fn opens_on_drop(ext: &str) -> (r: bool)
    ensures
        r == is_document_extension(ext@),
{
    str_eq(ext, "md") || str_eq(ext, "markdown") || str_eq(ext, "txt")
}

/// Whether a dropped file, by its extension in any case, is opened.
pub fn dropped_file_opens(ext: &str) -> (r: bool)
    ensures
        r == is_document_extension(lowercase(ext@)),
{
    let lower = to_lowercase(ext);
    opens_on_drop(lower.as_str())
}

/// The message that a drag-and-drop event becomes: `{"command":..}`.
pub fn command_message(command: &str) -> (m: String)
    ensures
        m@ == json_object1("command"@, command@),
{
    json_object_with("command", command).into_string()
}

/// The message that asks to open a dropped file.
pub fn open_file_message(path: &str) -> (m: String)
    ensures
        m@ == json_object2("command"@, "open_file"@, "path"@, path@),
{
    proof {
        lemma_member_keys_ordered();
    }
    json_object_with_two("command", "open_file", "path", path).into_string()
}

/// What a request to the protocol asks for.
#[derive(Debug, PartialEq, Eq)]
pub enum Route {
    /// The page.
    Page,
    /// The local image at this path.
    LocalImage(String),
    NotFound,
}

/// [`Route`] with texts as sequences of characters.
pub enum RouteModel {
    Page,
    LocalImage(Seq<char>),
    NotFound,
}

impl View for Route {
    type V = RouteModel;

    open spec fn view(&self) -> RouteModel {
        match self {
            Route::Page => RouteModel::Page,
            Route::LocalImage(p) => RouteModel::LocalImage(p@),
            Route::NotFound => RouteModel::NotFound,
        }
    }
}

/// The route for a request's path and query: `/` and `/index.html` are the
/// page; a path that begins with `/local-image` is the image whose path
/// the (percent-encoded) query names; anything else is not found.
pub open spec fn routed(path: Seq<char>, query: Option<Seq<char>>) -> RouteModel {
    if path == "/"@ || path == "/index.html"@ {
        RouteModel::Page
    } else if "/local-image"@.len() <= path.len() && path.take("/local-image"@.len() as int)
        == "/local-image"@ {
        RouteModel::LocalImage(
            image_path(
                match query {
                    Some(q) => q,
                    None => ""@,
                },
            ),
        )
    } else {
        RouteModel::NotFound
    }
}

/// Decides what a request to the protocol is for.
pub fn route_request(path: &str, query: Option<&str>) -> (r: Route)
    ensures
        r@ == routed(path@, match query { Some(q) => Some(q@), None => None }),
{
    if str_eq(path, "/") || str_eq(path, "/index.html") {
        Route::Page
    } else if has_prefix(path, "/local-image") {
        let q = match query {
            Some(q) => q,
            None => "",
        };
        Route::LocalImage(image_path_from_query(q))
    } else {
        Route::NotFound
    }
}

/// A request for the image URL that the IPC handler makes for a path
/// (path `/local-image`, query the encoded path) is served the image at
/// that same path.
pub proof fn lemma_image_request_serves_encoded_path(path: Seq<char>)
    ensures
        routed("/local-image"@, Some(image_query(path))) == RouteModel::LocalImage(path),
{
    reveal_strlit("/local-image");
    reveal_strlit("/");
    reveal_strlit("/index.html");
    assert("/local-image"@.len() != "/"@.len());
    assert("/local-image"@.len() != "/index.html"@.len());
    assert("/local-image"@.take("/local-image"@.len() as int) =~= "/local-image"@);
    lemma_image_path_round_trip(path);
}

/// The files that a drop opens are exactly those whose lower-case
/// extension is `md`, `markdown` or `txt`; none of them is an image.
pub proof fn lemma_document_extensions(ext: Seq<char>)
    ensures
        is_document_extension(ext) <==> (ext == "md"@ || ext == "markdown"@ || ext == "txt"@),
        is_document_extension(ext) ==> mime_of(ext) == "application/octet-stream"@,
{
    lemma_extension_names_distinct();
}

proof fn lemma_extension_names_distinct()
    ensures
        "md"@ != "png"@ && "md"@ != "jpg"@ && "md"@ != "jpeg"@ && "md"@ != "gif"@ && "md"@ != "svg"@
            && "md"@ != "webp"@ && "md"@ != "bmp"@ && "md"@ != "ico"@ && "md"@ != "tiff"@ && "md"@
            != "tif"@,
        "markdown"@ != "png"@ && "markdown"@ != "jpg"@ && "markdown"@ != "jpeg"@ && "markdown"@
            != "gif"@ && "markdown"@ != "svg"@ && "markdown"@ != "webp"@ && "markdown"@ != "bmp"@
            && "markdown"@ != "ico"@ && "markdown"@ != "tiff"@ && "markdown"@ != "tif"@,
        "txt"@ != "png"@ && "txt"@ != "jpg"@ && "txt"@ != "jpeg"@ && "txt"@ != "gif"@ && "txt"@
            != "svg"@ && "txt"@ != "webp"@ && "txt"@ != "bmp"@ && "txt"@ != "ico"@ && "txt"@
            != "tiff"@ && "txt"@ != "tif"@,
{
    reveal_strlit("md");
    reveal_strlit("markdown");
    reveal_strlit("txt");
    reveal_strlit("png");
    reveal_strlit("jpg");
    reveal_strlit("jpeg");
    reveal_strlit("gif");
    reveal_strlit("svg");
    reveal_strlit("webp");
    reveal_strlit("bmp");
    reveal_strlit("ico");
    reveal_strlit("tiff");
    reveal_strlit("tif");
    assert("md"@.len() != "png"@.len());
    assert("markdown"@.len() != "png"@.len());
    assert("md"@.len() != "jpg"@.len());
    assert("markdown"@.len() != "jpg"@.len());
    assert("md"@.len() != "jpeg"@.len());
    assert("markdown"@.len() != "jpeg"@.len());
    assert("md"@.len() != "gif"@.len());
    assert("markdown"@.len() != "gif"@.len());
    assert("md"@.len() != "svg"@.len());
    assert("markdown"@.len() != "svg"@.len());
    assert("md"@.len() != "webp"@.len());
    assert("markdown"@.len() != "webp"@.len());
    assert("md"@.len() != "bmp"@.len());
    assert("markdown"@.len() != "bmp"@.len());
    assert("md"@.len() != "ico"@.len());
    assert("markdown"@.len() != "ico"@.len());
    assert("md"@.len() != "tiff"@.len());
    assert("markdown"@.len() != "tiff"@.len());
    assert("md"@.len() != "tif"@.len());
    assert("markdown"@.len() != "tif"@.len());
    assert("txt"@[0] != "png"@[0] && "txt"@[0] != "jpg"@[0] && "txt"@[0] != "gif"@[0]);
    assert("txt"@[0] != "svg"@[0] && "txt"@[0] != "bmp"@[0] && "txt"@[0] != "ico"@[0]);
    assert("txt"@[1] != "tif"@[1]);
}

/// The media types, extension by extension (lower case): `png`, `jpg`
/// and `jpeg`, `gif`, `svg`, `webp`, `bmp`, `ico`, `tiff` and `tif` are
/// served as their image types, anything else as
/// `application/octet-stream`.
pub proof fn lemma_media_types(ext: Seq<char>)
    ensures
        ext == "png"@ ==> mime_of(ext) == "image/png"@,
        ext == "jpg"@ || ext == "jpeg"@ ==> mime_of(ext) == "image/jpeg"@,
        ext == "gif"@ ==> mime_of(ext) == "image/gif"@,
        ext == "svg"@ ==> mime_of(ext) == "image/svg+xml"@,
        ext == "webp"@ ==> mime_of(ext) == "image/webp"@,
        ext == "bmp"@ ==> mime_of(ext) == "image/bmp"@,
        ext == "ico"@ ==> mime_of(ext) == "image/x-icon"@,
        ext == "tiff"@ || ext == "tif"@ ==> mime_of(ext) == "image/tiff"@,
        !(ext == "png"@ || ext == "jpg"@ || ext == "jpeg"@ || ext == "gif"@ || ext == "svg"@ || ext
            == "webp"@ || ext == "bmp"@ || ext == "ico"@ || ext == "tiff"@ || ext == "tif"@)
            ==> mime_of(ext) == "application/octet-stream"@,
{
    reveal_strlit("png");
    reveal_strlit("jpg");
    reveal_strlit("jpeg");
    reveal_strlit("gif");
    reveal_strlit("svg");
    reveal_strlit("webp");
    reveal_strlit("bmp");
    reveal_strlit("ico");
    reveal_strlit("tiff");
    reveal_strlit("tif");
    assert("jpg"@[0] != "png"@[0]);
    assert("jpeg"@.len() != "png"@.len());
    assert("gif"@[0] != "png"@[0] && "gif"@[0] != "jpg"@[0]);
    assert("svg"@[0] != "png"@[0] && "svg"@[0] != "jpg"@[0] && "svg"@[0] != "gif"@[0]);
    assert("webp"@[0] != "jpeg"@[0] && "webp"@.len() != "png"@.len());
    assert("bmp"@[0] != "png"@[0] && "bmp"@[0] != "jpg"@[0] && "bmp"@[0] != "gif"@[0] && "bmp"@[0]
        != "svg"@[0]);
    assert("ico"@[0] != "png"@[0] && "ico"@[0] != "jpg"@[0] && "ico"@[0] != "gif"@[0] && "ico"@[0]
        != "svg"@[0] && "ico"@[0] != "bmp"@[0]);
    assert("tiff"@[0] != "jpeg"@[0] && "tiff"@[0] != "webp"@[0]);
    assert("tif"@[0] != "png"@[0] && "tif"@[0] != "jpg"@[0] && "tif"@[0] != "gif"@[0] && "tif"@[0]
        != "svg"@[0] && "tif"@[0] != "bmp"@[0] && "tif"@[0] != "ico"@[0]);
}

/// The protocol serves the page for `/` and `/index.html` only, an image
/// for every path that begins with `/local-image`, and nothing else.
pub proof fn lemma_routes(path: Seq<char>, query: Option<Seq<char>>)
    ensures
        (path == "/"@ || path == "/index.html"@) <==> routed(path, query) == RouteModel::Page,
        (path.len() >= 12 && path.take(12) == "/local-image"@) ==> routed(path, query)
            == RouteModel::LocalImage(
            image_path(
                match query {
                    Some(q) => q,
                    None => ""@,
                },
            ),
        ),
        routed(path, query) is NotFound <==> !(path == "/"@ || path == "/index.html"@ || (path.len()
            >= 12 && path.take(12) == "/local-image"@)),
{
    reveal_strlit("/");
    reveal_strlit("/index.html");
    reveal_strlit("/local-image");
    if path.len() >= 12 && path.take(12) == "/local-image"@ {
        assert(path.take(12)[0] == path[0]);
        assert(path.take(12)[1] == path[1]);
        assert(path != "/"@);
        assert(path.len() != "/index.html"@.len() || path[1] != "/index.html"@[1]);
    }
}

} // verus!
