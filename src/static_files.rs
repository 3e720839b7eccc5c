//! Static file responses: content type and cache policy by file extension, and entity tags.
use vstd::prelude::*;
use crate::utils::{push_char, str_eq};

verus! {

/// Content type and cache policy for a file extension: a year, immutable, for images, styles,
/// scripts, fonts and WebAssembly; an hour for manifests, text and anything else.
pub open spec fn content_policy(ext: Seq<char>) -> (Seq<char>, Seq<char>) {
    if ext == "webp"@ {
        ("image/webp"@, "public, max-age=31536000, immutable"@)
    } else if ext == "png"@ {
        ("image/png"@, "public, max-age=31536000, immutable"@)
    } else if ext == "jpg"@ || ext == "jpeg"@ {
        ("image/jpeg"@, "public, max-age=31536000, immutable"@)
    } else if ext == "svg"@ {
        ("image/svg+xml"@, "public, max-age=31536000, immutable"@)
    } else if ext == "ico"@ {
        ("image/x-icon"@, "public, max-age=31536000, immutable"@)
    } else if ext == "css"@ {
        ("text/css; charset=utf-8"@, "public, max-age=31536000, immutable"@)
    } else if ext == "js"@ {
        ("application/javascript; charset=utf-8"@, "public, max-age=31536000, immutable"@)
    } else if ext == "mjs"@ {
        ("application/javascript; charset=utf-8"@, "public, max-age=31536000, immutable"@)
    } else if ext == "woff2"@ {
        ("font/woff2"@, "public, max-age=31536000, immutable"@)
    } else if ext == "woff"@ {
        ("font/woff"@, "public, max-age=31536000, immutable"@)
    } else if ext == "ttf"@ {
        ("font/ttf"@, "public, max-age=31536000, immutable"@)
    } else if ext == "otf"@ {
        ("font/otf"@, "public, max-age=31536000, immutable"@)
    } else if ext == "wasm"@ {
        ("application/wasm"@, "public, max-age=31536000, immutable"@)
    } else if ext == "json"@ {
        ("application/json; charset=utf-8"@, "public, max-age=3600"@)
    } else if ext == "xml"@ {
        ("application/xml; charset=utf-8"@, "public, max-age=3600"@)
    } else if ext == "txt"@ {
        ("text/plain; charset=utf-8"@, "public, max-age=3600"@)
    } else if ext == "webmanifest"@ {
        ("application/manifest+json"@, "public, max-age=3600"@)
    } else {
        ("application/octet-stream"@, "public, max-age=3600"@)
    }
}

/// Content type and cache policy for a file extension.
pub fn content_type_for_extension(ext: &str) -> (r: (&'static str, &'static str))
    ensures
        (r.0@, r.1@) == content_policy(ext@),
{
    if str_eq(ext, "webp") {
        ("image/webp", "public, max-age=31536000, immutable")
    } else if str_eq(ext, "png") {
        ("image/png", "public, max-age=31536000, immutable")
    } else if str_eq(ext, "jpg") || str_eq(ext, "jpeg") {
        ("image/jpeg", "public, max-age=31536000, immutable")
    } else if str_eq(ext, "svg") {
        ("image/svg+xml", "public, max-age=31536000, immutable")
    } else if str_eq(ext, "ico") {
        ("image/x-icon", "public, max-age=31536000, immutable")
    } else if str_eq(ext, "css") {
        ("text/css; charset=utf-8", "public, max-age=31536000, immutable")
    } else if str_eq(ext, "js") {
        ("application/javascript; charset=utf-8", "public, max-age=31536000, immutable")
    } else if str_eq(ext, "mjs") {
        ("application/javascript; charset=utf-8", "public, max-age=31536000, immutable")
    } else if str_eq(ext, "woff2") {
        ("font/woff2", "public, max-age=31536000, immutable")
    } else if str_eq(ext, "woff") {
        ("font/woff", "public, max-age=31536000, immutable")
    } else if str_eq(ext, "ttf") {
        ("font/ttf", "public, max-age=31536000, immutable")
    } else if str_eq(ext, "otf") {
        ("font/otf", "public, max-age=31536000, immutable")
    } else if str_eq(ext, "wasm") {
        ("application/wasm", "public, max-age=31536000, immutable")
    } else if str_eq(ext, "json") {
        ("application/json; charset=utf-8", "public, max-age=3600")
    } else if str_eq(ext, "xml") {
        ("application/xml; charset=utf-8", "public, max-age=3600")
    } else if str_eq(ext, "txt") {
        ("text/plain; charset=utf-8", "public, max-age=3600")
    } else if str_eq(ext, "webmanifest") {
        ("application/manifest+json", "public, max-age=3600")
    } else {
        ("application/octet-stream", "public, max-age=3600")
    }
}

/// What `Path::extension` gives for a path, as text; empty when there is none.
pub uninterp spec fn path_extension(path: Seq<char>) -> Seq<char>;

/// Relies on `std::path::Path::extension`: the part of the file name after its last dot, or
/// none; it depends on the path's text alone.
#[verifier::external_body]
fn extension_of(path: &str) -> (r: String)
    ensures
        r@ == path_extension(path@),
{
    std::path::Path::new(path).extension().and_then(|e| e.to_str()).unwrap_or("").to_string()
}

/// Content type and cache policy for the file at `path`, chosen by its extension.
pub fn get_content_type_and_cache(path: &str) -> (r: (&'static str, &'static str))
    ensures
        (r.0@, r.1@) == content_policy(path_extension(path@)),
{
    let ext = extension_of(path);
    content_type_for_extension(ext.as_str())
}

/// What `md5::compute` gives for `data`: its 16-byte MD5 digest.
pub uninterp spec fn md5_digest_of(data: Seq<u8>) -> Seq<u8>;

/// Relies on `md5::compute`: the MD5 digest of the bytes, 16 bytes long.
#[verifier::external_body]
fn md5_digest(data: &[u8]) -> (r: Vec<u8>)
    ensures
        r@ == md5_digest_of(data@),
        r@.len() == 16,
{
    md5::compute(data).0.to_vec()
}

/// Lowercase hexadecimal digit for `d < 16`.
pub open spec fn hex_digit(d: int) -> char {
    if d < 10 {
        ((48 + d) as u8) as char
    } else {
        ((87 + d) as u8) as char
    }
}

/// Two lowercase hexadecimal digits per byte, most significant first.
pub open spec fn hex_lower(b: Seq<u8>) -> Seq<char>
    decreases b.len(),
{
    if b.len() == 0 {
        seq![]
    } else {
        hex_lower(b.drop_last()).push(hex_digit(b.last() as int / 16)).push(hex_digit(b.last() as int % 16))
    }
}

/// The entity tag for a digest: its lowercase hexadecimal form, in double quotes.
pub open spec fn quoted_hex(digest: Seq<u8>) -> Seq<char> {
    seq!['"'] + hex_lower(digest) + seq!['"']
}

fn hex_char(d: u8) -> (c: char)
    requires
        d < 16,
    ensures
        c == hex_digit(d as int),
{
    if d < 10 {
        (48u8 + d) as char
    } else {
        (87u8 + d) as char
    }
}

/// The entity tag for an already computed digest.
pub fn etag_from_digest(digest: &[u8]) -> (r: String)
    ensures
        r@ == quoted_hex(digest@),
{
    let mut r = String::new();
    push_char(&mut r, '"');
    let mut i: usize = 0;
    while i < digest.len()
        invariant
            i <= digest@.len(),
            r@ == seq!['"'] + hex_lower(digest@.take(i as int)),
        decreases digest@.len() - i,
    {
        let b = digest[i];
        assert(digest@.take(i + 1).drop_last() =~= digest@.take(i as int));
        push_char(&mut r, hex_char(b / 16));
        push_char(&mut r, hex_char(b % 16));
        i = i + 1;
        assert(r@ =~= seq!['"'] + hex_lower(digest@.take(i as int)));
    }
    assert(digest@.take(i as int) =~= digest@);
    push_char(&mut r, '"');
    r
}

/// The entity tag of a file's content: its MD5 digest in lowercase hexadecimal, quoted.
pub fn etag_for(content: &[u8]) -> (r: String)
    ensures
        r@ == quoted_hex(md5_digest_of(content@)),
{
    let digest = md5_digest(content);
    etag_from_digest(digest.as_slice())
}

} // verus!
