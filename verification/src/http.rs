//! The HTTP side of the development server, without the sockets and files.
//!
//! A request path is either a static asset, read from below the docs root,
//! or anything else, which is answered with the generated artifact. This
//! module decides which, names the file to read, and builds the response
//! from what reading it gave.

use crate::text::{
    after_last, chars_of, find_last, last_index_of, lemma_last_index_of, lemma_trim_leading,
    str_eq, string_of_range, trim_leading,
};
use vstd::prelude::*;
use vstd::utf8::encode_utf8;

verus! {

/// The page that answers a request for the artifact before any build.
pub const ARTIFACT_MISSING_PAGE: &'static str = r#"
                <!DOCTYPE html>
                <html>
                <head>
                    <title>GlowDoc - File Not Found</title>
                    <style>
                        body { font-family: Arial, sans-serif; margin: 50px; text-align: center; }
                        .error { color: #e74c3c; }
                        .suggestion { color: #2c3e50; margin-top: 20px; }
                    </style>
                </head>
                <body>
                    <h1 class="error">📄 Documentation not found</h1>
                    <p>The index.html file hasn't been generated yet.</p>
                    <div class="suggestion">
                        <p>Make sure you have:</p>
                        <ul style="text-align: left; display: inline-block;">
                            <li>Created a <code>docs/config.yaml</code> file</li>
                            <li>Added some markdown files to the <code>docs/</code> directory</li>
                            <li>Run the build process</li>
                        </ul>
                        <p>Try running: <code>cargo run init-config</code> first</p>
                    </div>
                </body>
                </html>
                "#;

/// The page that answers a request for a missing asset, up to the path.
pub const ASSET_MISSING_PAGE_HEAD: &'static str = r#"
                <!DOCTYPE html>
                <html>
                <head>
                    <title>File Not Found</title>
                    <style>
                        body { font-family: Arial, sans-serif; margin: 50px; text-align: center; }
                        .error { color: #e74c3c; }
                    </style>
                </head>
                <body>
                    <h1 class="error">📄 File not found</h1>
                    <p>The requested file <code>"#;

/// The page that answers a request for a missing asset, after the path.
pub const ASSET_MISSING_PAGE_TAIL: &'static str = r#"</code> could not be found.</p>
                    <p><a href="/">← Back to documentation</a></p>
                </body>
                </html>
                "#;

/// The prefix of request paths that name a file below the docs root.
pub const ASSET_PREFIX: &'static str = "/docs/";

/// The docs root as the first component of a file path.
pub const DOCS_ROOT: &'static str = "docs/";

/// The content type of every page that this server writes itself.
pub const HTML_CONTENT_TYPE: &'static str = "text/html; charset=utf-8";

/// The cache-control value that forbids caching.
pub const NO_CACHE: &'static str = "no-cache, no-store, must-revalidate";

/// What a request asks for.
#[derive(Debug)]
pub enum Route {
    /// A static asset: the file to read, relative to the working directory.
    Asset { file_path: String },
    /// The generated artifact.
    Artifact,
}

/// [`Route`] over character sequences.
pub enum RouteView {
    Asset { file_path: Seq<char> },
    Artifact,
}

impl View for Route {
    type V = RouteView;

    open spec fn view(&self) -> RouteView {
        match self {
            Route::Asset { file_path } => RouteView::Asset { file_path: file_path@ },
            Route::Artifact => RouteView::Artifact,
        }
    }
}

/// One response header.
#[derive(Debug)]
pub struct Header {
    pub name: String,
    pub value: String,
}

/// A complete response.
#[derive(Debug)]
pub struct HttpResponse {
    pub status: u16,
    pub headers: Vec<Header>,
    pub body: Vec<u8>,
}

/// [`HttpResponse`] as a mathematical value.
pub struct ResponseView {
    pub status: u16,
    pub headers: Seq<(Seq<char>, Seq<char>)>,
    pub body: Seq<u8>,
}

impl View for HttpResponse {
    type V = ResponseView;

    open spec fn view(&self) -> ResponseView {
        ResponseView {
            status: self.status,
            headers: self.headers@.map_values(|h: Header| (h.name@, h.value@)),
            body: self.body@,
        }
    }
}

/// A path names a static asset when it starts with the asset prefix or holds
/// a dot.
pub open spec fn is_asset_path(path: Seq<char>) -> bool {
    ASSET_PREFIX@.is_prefix_of(path) || path.contains('.')
}

/// The file that an asset path names: the path without its leading slashes,
/// below the docs root unless it already starts there.
pub open spec fn asset_file_of(path: Seq<char>) -> Seq<char> {
    let clean = trim_leading(path, '/');
    if DOCS_ROOT@.is_prefix_of(clean) {
        clean
    } else {
        DOCS_ROOT@ + clean
    }
}

/// What a request for `path` asks for.
pub open spec fn route_of(path: Seq<char>) -> RouteView {
    if is_asset_path(path) {
        RouteView::Asset { file_path: asset_file_of(path) }
    } else {
        RouteView::Artifact
    }
}

/// The lower-case form of an ASCII capital; any other character as it is.
pub open spec fn ascii_lower_char(c: char) -> char {
    if 'A' <= c <= 'Z' {
        ((c as u8) + 32) as char
    } else {
        c
    }
}

/// `s` with its ASCII capitals in lower case.
pub open spec fn ascii_lower(s: Seq<char>) -> Seq<char> {
    s.map_values(|c: char| ascii_lower_char(c))
}

/// The extension by which a file's content type is chosen: what follows the
/// last dot of its path, in lower case. A path without a dot has no
/// extension: the empty one.
pub open spec fn extension_of(file_path: Seq<char>) -> Seq<char> {
    if last_index_of(file_path, '.') < 0 {
        Seq::<char>::empty()
    } else {
        ascii_lower(after_last(file_path, '.'))
    }
}

/// The fixed table from extension to content type.
pub open spec fn content_type_of_extension(ext: Seq<char>) -> Seq<char> {
    if ext == "jpg"@ || ext == "jpeg"@ {
        "image/jpeg"@
    } else if ext == "png"@ {
        "image/png"@
    } else if ext == "gif"@ {
        "image/gif"@
    } else if ext == "svg"@ {
        "image/svg+xml"@
    } else if ext == "webp"@ {
        "image/webp"@
    } else if ext == "ico"@ {
        "image/x-icon"@
    } else if ext == "bmp"@ {
        "image/bmp"@
    } else if ext == "tiff"@ || ext == "tif"@ {
        "image/tiff"@
    } else if ext == "html"@ || ext == "htm"@ {
        "text/html; charset=utf-8"@
    } else if ext == "css"@ {
        "text/css; charset=utf-8"@
    } else if ext == "js"@ || ext == "mjs"@ {
        "application/javascript; charset=utf-8"@
    } else if ext == "json"@ {
        "application/json; charset=utf-8"@
    } else if ext == "xml"@ {
        "application/xml; charset=utf-8"@
    } else if ext == "txt"@ {
        "text/plain; charset=utf-8"@
    } else if ext == "md"@ {
        "text/markdown; charset=utf-8"@
    } else if ext == "yaml"@ || ext == "yml"@ {
        "text/yaml; charset=utf-8"@
    } else if ext == "pdf"@ {
        "application/pdf"@
    } else if ext == "doc"@ {
        "application/msword"@
    } else if ext == "docx"@ {
        "application/vnd.openxmlformats-officedocument.wordprocessingml.document"@
    } else if ext == "mp3"@ {
        "audio/mpeg"@
    } else if ext == "wav"@ {
        "audio/wav"@
    } else if ext == "ogg"@ {
        "audio/ogg"@
    } else if ext == "m4a"@ {
        "audio/mp4"@
    } else if ext == "mp4"@ {
        "video/mp4"@
    } else if ext == "webm"@ {
        "video/webm"@
    } else if ext == "mov"@ {
        "video/quicktime"@
    } else if ext == "avi"@ {
        "video/x-msvideo"@
    } else if ext == "zip"@ {
        "application/zip"@
    } else if ext == "tar"@ {
        "application/x-tar"@
    } else if ext == "gz"@ {
        "application/gzip"@
    } else if ext == "woff"@ {
        "font/woff"@
    } else if ext == "woff2"@ {
        "font/woff2"@
    } else if ext == "ttf"@ {
        "font/ttf"@
    } else if ext == "otf"@ {
        "font/otf"@
    } else if ext == "eot"@ {
        "application/vnd.ms-fontobject"@
    } else {
        "application/octet-stream"@
    }
}

/// The content type of the file at `file_path`.
pub open spec fn content_type_of(file_path: Seq<char>) -> Seq<char> {
    content_type_of_extension(extension_of(file_path))
}

/// The headers of a response that must never be cached.
pub open spec fn uncached_headers(content_type: Seq<char>) -> Seq<(Seq<char>, Seq<char>)> {
    seq![
        ("content-type"@, content_type),
        ("cache-control"@, NO_CACHE@),
        ("pragma"@, "no-cache"@),
        ("expires"@, "0"@),
    ]
}

/// The headers of an error page.
pub open spec fn error_headers() -> Seq<(Seq<char>, Seq<char>)> {
    seq![("content-type"@, HTML_CONTENT_TYPE@)]
}

/// The response to a request for the artifact, given what reading it gave:
/// the artifact itself, never to be cached, or the page that tells how to
/// build it.
pub open spec fn artifact_response_of(artifact: Option<Seq<char>>) -> ResponseView {
    match artifact {
        Some(content) => ResponseView {
            status: 200,
            headers: uncached_headers(HTML_CONTENT_TYPE@),
            body: encode_utf8(content),
        },
        None => ResponseView {
            status: 404,
            headers: error_headers(),
            body: encode_utf8(ARTIFACT_MISSING_PAGE@),
        },
    }
}

/// The text of the page that names a missing asset.
pub open spec fn asset_missing_page_of(file_path: Seq<char>) -> Seq<char> {
    ASSET_MISSING_PAGE_HEAD@ + file_path + ASSET_MISSING_PAGE_TAIL@
}

/// The response to a request for the asset at `file_path`, given what
/// reading the file gave: its bytes under its content type, never to be
/// cached, or a page that names the missing file.
pub open spec fn static_response_of(file_path: Seq<char>, content: Option<Seq<u8>>) -> ResponseView {
    match content {
        Some(bytes) => ResponseView {
            status: 200,
            headers: uncached_headers(content_type_of(file_path)),
            body: bytes,
        },
        None => ResponseView {
            status: 404,
            headers: error_headers(),
            body: encode_utf8(asset_missing_page_of(file_path)),
        },
    }
}

/// Whether `chars` starts with the characters of `prefix`.
fn starts_with(chars: &Vec<char>, prefix: &str) -> (yes: bool)
    ensures
        yes == prefix@.is_prefix_of(chars@),
{
    let wanted = chars_of(prefix);
    if wanted.len() > chars.len() {
        return false;
    }
    let mut i: usize = 0;
    while i < wanted.len()
        invariant
            i <= wanted.len() <= chars.len(),
            wanted@ == prefix@,
            forall|j: int| 0 <= j < i ==> wanted[j] == chars[j],
        decreases wanted.len() - i,
    {
        if wanted[i] != chars[i] {
            assert(chars@.subrange(0, wanted.len() as int)[i as int] != wanted@[i as int]);
            return false;
        }
        i += 1;
    }
    assert(wanted@ =~= chars@.subrange(0, wanted.len() as int));
    true
}

/// Whether `c` occurs among `chars`.
fn contains_char(chars: &Vec<char>, c: char) -> (yes: bool)
    ensures
        yes == chars@.contains(c),
{
    let mut i: usize = 0;
    while i < chars.len()
        invariant
            i <= chars.len(),
            forall|j: int| 0 <= j < i ==> chars[j] != c,
        decreases chars.len() - i,
    {
        if chars[i] == c {
            return true;
        }
        i += 1;
    }
    false
}

/// Decides what a request for `path` asks for, and for an asset which file
/// to read.
pub fn route(path: &str) -> (route: Route)
    ensures
        route@ == route_of(path@),
{
    let chars = chars_of(path);
    if !(starts_with(&chars, ASSET_PREFIX) || contains_char(&chars, '.')) {
        return Route::Artifact;
    }
    let mut start: usize = 0;
    assert(chars@.skip(0) == chars@);
    while start < chars.len() && chars[start] == '/'
        invariant
            start <= chars.len(),
            trim_leading(chars@, '/') == trim_leading(chars@.skip(start as int), '/'),
        decreases chars.len() - start,
    {
        assert(chars@.skip(start as int).drop_first() == chars@.skip(start + 1));
        start += 1;
    }
    proof {
        lemma_trim_leading(chars@.skip(start as int), '/');
        assert(chars@.skip(start as int) == chars@.subrange(start as int, chars.len() as int));
    }
    let clean = string_of_range(&chars, start, chars.len());
    let clean_chars = chars_of(clean.as_str());
    if starts_with(&clean_chars, DOCS_ROOT) {
        Route::Asset { file_path: clean }
    } else {
        Route::Asset { file_path: DOCS_ROOT.to_owned().concat(clean.as_str()) }
    }
}

/// The extension of `file_path`, in lower case; empty where the path holds
/// no dot.
pub fn extension(file_path: &str) -> (ext: String)
    ensures
        ext@ == extension_of(file_path@),
{
    let chars = chars_of(file_path);
    let start: usize = match find_last(&chars, '.') {
        Some(i) => i + 1,
        None => chars.len(),
    };
    let mut lowered: Vec<char> = Vec::new();
    let mut i: usize = start;
    assert(lowered@ =~= ascii_lower(chars@.subrange(start as int, start as int)));
    while i < chars.len()
        invariant
            start <= i <= chars.len(),
            lowered@ == ascii_lower(chars@.subrange(start as int, i as int)),
        decreases chars.len() - i,
    {
        let c = chars[i];
        let lower = if 'A' <= c && c <= 'Z' {
            ((c as u8) + 32) as char
        } else {
            c
        };
        lowered.push(lower);
        i += 1;
        assert(lowered@ =~= ascii_lower(chars@.subrange(start as int, i as int)));
    }
    string_of_range(&lowered, 0, lowered.len())
}

/// Looks an extension up in the fixed table; one that the table does not
/// hold, the empty one among them, gets the type of arbitrary bytes.
pub fn content_type_for_extension(ext: &str) -> (content_type: &'static str)
    ensures
        content_type@ == content_type_of_extension(ext@),
{
    if str_eq(ext, "jpg") || str_eq(ext, "jpeg") {
        "image/jpeg"
    } else if str_eq(ext, "png") {
        "image/png"
    } else if str_eq(ext, "gif") {
        "image/gif"
    } else if str_eq(ext, "svg") {
        "image/svg+xml"
    } else if str_eq(ext, "webp") {
        "image/webp"
    } else if str_eq(ext, "ico") {
        "image/x-icon"
    } else if str_eq(ext, "bmp") {
        "image/bmp"
    } else if str_eq(ext, "tiff") || str_eq(ext, "tif") {
        "image/tiff"
    } else if str_eq(ext, "html") || str_eq(ext, "htm") {
        "text/html; charset=utf-8"
    } else if str_eq(ext, "css") {
        "text/css; charset=utf-8"
    } else if str_eq(ext, "js") || str_eq(ext, "mjs") {
        "application/javascript; charset=utf-8"
    } else if str_eq(ext, "json") {
        "application/json; charset=utf-8"
    } else if str_eq(ext, "xml") {
        "application/xml; charset=utf-8"
    } else if str_eq(ext, "txt") {
        "text/plain; charset=utf-8"
    } else if str_eq(ext, "md") {
        "text/markdown; charset=utf-8"
    } else if str_eq(ext, "yaml") || str_eq(ext, "yml") {
        "text/yaml; charset=utf-8"
    } else if str_eq(ext, "pdf") {
        "application/pdf"
    } else if str_eq(ext, "doc") {
        "application/msword"
    } else if str_eq(ext, "docx") {
        "application/vnd.openxmlformats-officedocument.wordprocessingml.document"
    } else if str_eq(ext, "mp3") {
        "audio/mpeg"
    } else if str_eq(ext, "wav") {
        "audio/wav"
    } else if str_eq(ext, "ogg") {
        "audio/ogg"
    } else if str_eq(ext, "m4a") {
        "audio/mp4"
    } else if str_eq(ext, "mp4") {
        "video/mp4"
    } else if str_eq(ext, "webm") {
        "video/webm"
    } else if str_eq(ext, "mov") {
        "video/quicktime"
    } else if str_eq(ext, "avi") {
        "video/x-msvideo"
    } else if str_eq(ext, "zip") {
        "application/zip"
    } else if str_eq(ext, "tar") {
        "application/x-tar"
    } else if str_eq(ext, "gz") {
        "application/gzip"
    } else if str_eq(ext, "woff") {
        "font/woff"
    } else if str_eq(ext, "woff2") {
        "font/woff2"
    } else if str_eq(ext, "ttf") {
        "font/ttf"
    } else if str_eq(ext, "otf") {
        "font/otf"
    } else if str_eq(ext, "eot") {
        "application/vnd.ms-fontobject"
    } else {
        "application/octet-stream"
    }
}

/// The content type under which the file at `file_path` is served.
pub fn get_content_type(file_path: &str) -> (content_type: &'static str)
    ensures
        content_type@ == content_type_of(file_path@),
{
    let ext = extension(file_path);
    content_type_for_extension(ext.as_str())
}

/// One header.
fn header(name: &str, value: &str) -> (h: Header)
    ensures
        h.name@ == name@,
        h.value@ == value@,
{
    Header { name: name.to_owned(), value: value.to_owned() }
}

/// The headers of a response of this content type that must never be cached.
fn uncached(content_type: &str) -> (headers: Vec<Header>)
    ensures
        headers@.map_values(|h: Header| (h.name@, h.value@)) == uncached_headers(content_type@),
{
    let mut headers: Vec<Header> = Vec::new();
    headers.push(header("content-type", content_type));
    headers.push(header("cache-control", NO_CACHE));
    headers.push(header("pragma", "no-cache"));
    headers.push(header("expires", "0"));
    assert(headers@.map_values(|h: Header| (h.name@, h.value@)) =~= uncached_headers(
        content_type@,
    ));
    headers
}

/// The response that carries an error page.
fn error_page(body: &str) -> (response: HttpResponse)
    ensures
        response@ == (ResponseView {
            status: 404,
            headers: error_headers(),
            body: encode_utf8(body@),
        }),
{
    let mut headers: Vec<Header> = Vec::new();
    headers.push(header("content-type", HTML_CONTENT_TYPE));
    assert(headers@.map_values(|h: Header| (h.name@, h.value@)) =~= error_headers());
    HttpResponse { status: 404, headers, body: body.as_bytes_vec() }
}

/// Answers a request for the artifact. `artifact` is the text of the
/// artifact as it is on disk now, or nothing where it could not be read.
pub fn artifact_response(artifact: Option<String>) -> (response: HttpResponse)
    ensures
        response@ == artifact_response_of(
            match artifact {
                Some(content) => Some(content@),
                None => None,
            },
        ),
{
    match artifact {
        Some(content) => HttpResponse {
            status: 200,
            headers: uncached(HTML_CONTENT_TYPE),
            body: content.as_str().as_bytes_vec(),
        },
        None => error_page(ARTIFACT_MISSING_PAGE),
    }
}

/// Answers a request for the asset at `file_path`. `content` is what the
/// file holds now, or nothing where it could not be read.
pub fn static_response(file_path: &str, content: Option<Vec<u8>>) -> (response: HttpResponse)
    ensures
        response@ == static_response_of(
            file_path@,
            match content {
                Some(bytes) => Some(bytes@),
                None => None,
            },
        ),
{
    match content {
        Some(bytes) => HttpResponse {
            status: 200,
            headers: uncached(get_content_type(file_path)),
            body: bytes,
        },
        None => {
            let page = ASSET_MISSING_PAGE_HEAD.to_owned().concat(file_path).concat(
                ASSET_MISSING_PAGE_TAIL,
            );
            error_page(page.as_str())
        },
    }
}

/// A name without a dot has no extension, and what has no extension is
/// served as arbitrary bytes, whatever the name reads.
pub proof fn lemma_names_without_a_dot_are_arbitrary_bytes(file_path: Seq<char>)
    requires
        !file_path.contains('.'),
    ensures
        extension_of(file_path) == Seq::<char>::empty(),
        content_type_of(file_path) == "application/octet-stream"@,
{
    lemma_last_index_of(file_path, '.');
    reveal_strlit("jpg");
    reveal_strlit("jpeg");
    reveal_strlit("png");
    reveal_strlit("gif");
    reveal_strlit("svg");
    reveal_strlit("webp");
    reveal_strlit("ico");
    reveal_strlit("bmp");
    reveal_strlit("tiff");
    reveal_strlit("tif");
    reveal_strlit("html");
    reveal_strlit("htm");
    reveal_strlit("css");
    reveal_strlit("js");
    reveal_strlit("mjs");
    reveal_strlit("json");
    reveal_strlit("xml");
    reveal_strlit("txt");
    reveal_strlit("md");
    reveal_strlit("yaml");
    reveal_strlit("yml");
    reveal_strlit("pdf");
    reveal_strlit("doc");
    reveal_strlit("docx");
    reveal_strlit("mp3");
    reveal_strlit("wav");
    reveal_strlit("ogg");
    reveal_strlit("m4a");
    reveal_strlit("mp4");
    reveal_strlit("webm");
    reveal_strlit("mov");
    reveal_strlit("avi");
    reveal_strlit("zip");
    reveal_strlit("tar");
    reveal_strlit("gz");
    reveal_strlit("woff");
    reveal_strlit("woff2");
    reveal_strlit("ttf");
    reveal_strlit("otf");
    reveal_strlit("eot");
    assert("jpg"@.len() > 0);
    assert("jpeg"@.len() > 0);
    assert("png"@.len() > 0);
    assert("gif"@.len() > 0);
    assert("svg"@.len() > 0);
    assert("webp"@.len() > 0);
    assert("ico"@.len() > 0);
    assert("bmp"@.len() > 0);
    assert("tiff"@.len() > 0);
    assert("tif"@.len() > 0);
    assert("html"@.len() > 0);
    assert("htm"@.len() > 0);
    assert("css"@.len() > 0);
    assert("js"@.len() > 0);
    assert("mjs"@.len() > 0);
    assert("json"@.len() > 0);
    assert("xml"@.len() > 0);
    assert("txt"@.len() > 0);
    assert("md"@.len() > 0);
    assert("yaml"@.len() > 0);
    assert("yml"@.len() > 0);
    assert("pdf"@.len() > 0);
    assert("doc"@.len() > 0);
    assert("docx"@.len() > 0);
    assert("mp3"@.len() > 0);
    assert("wav"@.len() > 0);
    assert("ogg"@.len() > 0);
    assert("m4a"@.len() > 0);
    assert("mp4"@.len() > 0);
    assert("webm"@.len() > 0);
    assert("mov"@.len() > 0);
    assert("avi"@.len() > 0);
    assert("zip"@.len() > 0);
    assert("tar"@.len() > 0);
    assert("gz"@.len() > 0);
    assert("woff"@.len() > 0);
    assert("woff2"@.len() > 0);
    assert("ttf"@.len() > 0);
    assert("otf"@.len() > 0);
    assert("eot"@.len() > 0);
}

/// A style sheet is served as one: whatever the case of its extension, a
/// file whose name ends in `.css` that is found on disk is answered with
/// status 200, the content type of style sheets, headers that forbid
/// caching, and the very bytes that were read.
pub proof fn lemma_style_sheets_are_served_as_css(file_path: Seq<char>, bytes: Seq<u8>)
    requires
        extension_of(file_path) == "css"@,
    ensures
        content_type_of(file_path) == "text/css; charset=utf-8"@,
        static_response_of(file_path, Some(bytes)) == (ResponseView {
            status: 200,
            headers: uncached_headers("text/css; charset=utf-8"@),
            body: bytes,
        }),
{
    reveal_strlit("css");
    reveal_strlit("jpg");
    reveal_strlit("jpeg");
    reveal_strlit("png");
    reveal_strlit("gif");
    reveal_strlit("svg");
    reveal_strlit("webp");
    reveal_strlit("ico");
    reveal_strlit("bmp");
    reveal_strlit("tiff");
    reveal_strlit("tif");
    reveal_strlit("html");
    reveal_strlit("htm");
    let css = "css"@;
    assert(css.len() == 3 && css[0] == 'c' && css[1] == 's' && css[2] == 's');
    assert("jpg"@[0] == 'j');
    assert("jpeg"@.len() == 4);
    assert("png"@[0] == 'p');
    assert("gif"@[0] == 'g');
    assert("svg"@[0] == 's' && "svg"@[1] == 'v');
    assert("webp"@.len() == 4);
    assert("ico"@[0] == 'i');
    assert("bmp"@[0] == 'b');
    assert("tiff"@.len() == 4);
    assert("tif"@[0] == 't');
    assert("html"@.len() == 4);
    assert("htm"@[0] == 'h');
}

/// A missing asset is named in the answer, and a missing artifact gets the
/// page that tells how to build it: both with status 404, as HTML, and
/// without the headers of a successful answer.
pub proof fn lemma_missing_files_are_reported(file_path: Seq<char>)
    ensures
        static_response_of(file_path, None).status == 404,
        static_response_of(file_path, None).headers == error_headers(),
        static_response_of(file_path, None).body == encode_utf8(
            ASSET_MISSING_PAGE_HEAD@ + file_path + ASSET_MISSING_PAGE_TAIL@,
        ),
        artifact_response_of(None).status == 404,
        artifact_response_of(None).headers == error_headers(),
        artifact_response_of(None).body == encode_utf8(ARTIFACT_MISSING_PAGE@),
{
}

/// Once the artifact exists it is served as it is, and never from a cache.
pub proof fn lemma_artifact_is_served_uncached(content: Seq<char>)
    ensures
        artifact_response_of(Some(content)).status == 200,
        artifact_response_of(Some(content)).body == encode_utf8(content),
        artifact_response_of(Some(content)).headers[0] == ("content-type"@, HTML_CONTENT_TYPE@),
        artifact_response_of(Some(content)).headers[1] == ("cache-control"@, NO_CACHE@),
        artifact_response_of(Some(content)).headers[2] == ("pragma"@, "no-cache"@),
        artifact_response_of(Some(content)).headers[3] == ("expires"@, "0"@),
{
}

} // verus!
