//! Uploaded images: a base64 text, possibly behind a data-URL header such as
//! `data:image/png;base64,`, stored under a file named by the upload time.
use vstd::prelude::*;
use base64::{engine::general_purpose::STANDARD as BASE64, Engine};
use crate::decimal::{decimal, i64_to_decimal};
use crate::http::{HttpError, http_error, INTERNAL_SERVER_ERROR};

verus! {

/// The byte of a comma.
pub const COMMA: u8 = 44;

/// The index of the first comma in `b`, or -1 when there is none.
pub open spec fn first_comma(b: Seq<u8>) -> int
    decreases b.len(),
{
    if b.len() == 0 {
        -1
    } else if b[0] == COMMA {
        0
    } else if first_comma(b.drop_first()) < 0 {
        -1
    } else {
        first_comma(b.drop_first()) + 1
    }
}

/// The base64 text of an upload: what follows its first comma, or all of
/// it when it has no comma.
pub open spec fn base64_part(b: Seq<u8>) -> Seq<u8> {
    if first_comma(b) < 0 {
        b
    } else {
        b.subrange(first_comma(b) + 1, b.len() as int)
    }
}

proof fn lemma_first_comma(b: Seq<u8>, i: int)
    requires
        0 <= i <= b.len(),
        forall|j: int| 0 <= j < i ==> b[j] != COMMA,
        i < b.len() ==> b[i] == COMMA,
    ensures
        first_comma(b) == if i < b.len() { i } else { -1 },
    decreases b.len(),
{
    if b.len() > 0 && i > 0 {
        assert forall|j: int| 0 <= j < i - 1 implies b.drop_first()[j] != COMMA by {
            assert(b.drop_first()[j] == b[j + 1]);
        }
        lemma_first_comma(b.drop_first(), i - 1);
    }
}

/// A data-URL header is ignored: base64 text (which has no comma) gives the
/// same bytes to decode whether it is sent bare or behind a header such as
/// `data:image/png;base64,`.
pub proof fn lemma_data_url_header_ignored(header: Seq<u8>, text: Seq<u8>)
    requires
        forall|j: int| 0 <= j < header.len() ==> header[j] != COMMA,
        forall|j: int| 0 <= j < text.len() ==> text[j] != COMMA,
    ensures
        base64_part(header + seq![COMMA] + text) == text,
        base64_part(text) == text,
{
    let sent = header + seq![COMMA] + text;
    assert forall|j: int| 0 <= j < header.len() implies sent[j] != COMMA by {
        assert(sent[j] == header[j]);
    }
    assert(sent[header.len() as int] == COMMA);
    lemma_first_comma(sent, header.len() as int);
    assert(sent.subrange(header.len() + 1int, sent.len() as int) =~= text);
    lemma_first_comma(text, text.len() as int);
}

/// The base64 text of an upload, without any data-URL header.
pub fn strip_data_url_header(data: &str) -> (r: &[u8])
    ensures
        r@ == base64_part(vstd::utf8::encode_utf8(data@)),
{
    let b = data.as_bytes();
    let mut i: usize = 0;
    while i < b.len()
        invariant
            i <= b@.len(),
            b@ == vstd::utf8::encode_utf8(data@),
            forall|j: int| 0 <= j < i ==> b@[j] != COMMA,
        decreases b@.len() - i,
    {
        if b[i] == COMMA {
            proof {
                lemma_first_comma(b@, i as int);
            }
            return &b[i + 1..b.len()];
        }
        i = i + 1;
    }
    proof {
        lemma_first_comma(b@, i as int);
    }
    b
}

/// The value of a symbol of the standard base64 alphabet (`A`-`Z` are 0 to
/// 25, `a`-`z` 26 to 51, `0`-`9` 52 to 61, `+` 62, `/` 63), or -1 for any
/// other byte.
pub open spec fn sextet(c: u8) -> int {
    if 65 <= c <= 90 {
        c - 65
    } else if 97 <= c <= 122 {
        c - 71
    } else if 48 <= c <= 57 {
        c + 4
    } else if c == 43 {
        62
    } else if c == 47 {
        63
    } else {
        -1
    }
}

/// Base64 text made of whole groups of four symbols of the standard
/// alphabet, with no padding.
pub open spec fn full_groups(text: Seq<u8>) -> bool {
    &&& text.len() % 4 == 0
    &&& forall|i: int| 0 <= i < text.len() ==> sextet(#[trigger] text[i]) >= 0
}

/// The three bytes carried by four symbols of 6 bits each, the most
/// significant bits first.
pub open spec fn group_bytes(a: int, b: int, c: int, d: int) -> Seq<u8> {
    seq![(a * 4 + b / 16) as u8, ((b % 16) * 16 + c / 4) as u8, ((c % 4) * 64 + d) as u8]
}

/// The bytes of whole groups of symbols: three for each group of four.
pub open spec fn decode_groups(text: Seq<u8>) -> Seq<u8>
    decreases text.len(),
{
    if text.len() < 4 {
        Seq::empty()
    } else {
        group_bytes(sextet(text[0]), sextet(text[1]), sextet(text[2]), sextet(text[3]))
            + decode_groups(text.subrange(4, text.len() as int))
    }
}

/// The byte of `=`, which pads the last group of base64 text.
pub const PAD: u8 = 61;

/// The bytes of the last group of four bytes of base64 text, or `None` when
/// it is not a valid last group: four symbols give three bytes; three
/// symbols and `=` give two, when the bits left over after them are zero;
/// two symbols and `==` give one, under the same condition.
pub open spec fn last_group(g: Seq<u8>) -> Option<Seq<u8>> {
    let a = sextet(g[0]);
    let b = sextet(g[1]);
    let c = sextet(g[2]);
    let d = sextet(g[3]);
    if a < 0 || b < 0 {
        None
    } else if c >= 0 && d >= 0 {
        Some(group_bytes(a, b, c, d))
    } else if c >= 0 && g[3] == PAD && c % 4 == 0 {
        Some(group_bytes(a, b, c, 0).take(2))
    } else if g[2] == PAD && g[3] == PAD && b % 16 == 0 {
        Some(group_bytes(a, b, 0, 0).take(1))
    } else {
        None
    }
}

/// What the standard base64 alphabet with canonical padding decodes `text`
/// to, or `None` when `text` is not such base64: empty text is no bytes;
/// otherwise its length is a multiple of four, every group but the last is
/// four symbols, and the last group is valid.
pub open spec fn base64_decoding(text: Seq<u8>) -> Option<Seq<u8>> {
    if text.len() == 0 {
        Some(Seq::empty())
    } else if text.len() % 4 != 0 {
        None
    } else {
        let body = text.subrange(0, text.len() - 4);
        if !full_groups(body) {
            None
        } else {
            match last_group(text.subrange(text.len() - 4, text.len() as int)) {
                Some(last) => Some(decode_groups(body) + last),
                None => None,
            }
        }
    }
}

proof fn lemma_decode_groups_last(text: Seq<u8>)
    requires
        text.len() >= 4,
        text.len() % 4 == 0,
    ensures
        decode_groups(text) == decode_groups(text.subrange(0, text.len() - 4)) + group_bytes(
            sextet(text[text.len() - 4]),
            sextet(text[text.len() - 3]),
            sextet(text[text.len() - 2]),
            sextet(text[text.len() - 1]),
        ),
    decreases text.len(),
{
    let n = text.len() as int;
    let last = group_bytes(sextet(text[n - 4]), sextet(text[n - 3]), sextet(text[n - 2]), sextet(text[n - 1]));
    if n == 4 {
        assert(text.subrange(4, 4) =~= Seq::<u8>::empty());
        assert(text.subrange(0, 0) =~= Seq::<u8>::empty());
        assert(decode_groups(text) =~= decode_groups(text.subrange(0, 0)) + last);
    } else {
        let rest = text.subrange(4, n);
        lemma_decode_groups_last(rest);
        let m = rest.len() as int;
        assert(rest[m - 4] == text[n - 4]);
        assert(rest[m - 3] == text[n - 3]);
        assert(rest[m - 2] == text[n - 2]);
        assert(rest[m - 1] == text[n - 1]);
        let body = text.subrange(0, n - 4);
        assert(body.subrange(4, body.len() as int) =~= rest.subrange(0, m - 4));
        assert(body[0] == text[0] && body[1] == text[1] && body[2] == text[2] && body[3] == text[3]);
        assert(decode_groups(body) == group_bytes(sextet(text[0]), sextet(text[1]), sextet(text[2]), sextet(text[3])) + decode_groups(rest.subrange(0, m - 4)));
        assert(decode_groups(text) =~= decode_groups(body) + last);
    }
}

/// Text of whole groups of four symbols, with no padding, decodes to three
/// bytes for each group, in order.
pub proof fn lemma_whole_groups_decode(text: Seq<u8>)
    requires
        full_groups(text),
    ensures
        base64_decoding(text) == Some(decode_groups(text)),
{
    let n = text.len() as int;
    if n == 0 {
        assert(decode_groups(text) =~= Seq::<u8>::empty());
    } else {
        let body = text.subrange(0, n - 4);
        let g = text.subrange(n - 4, n);
        assert forall|i: int| 0 <= i < body.len() implies sextet(#[trigger] body[i]) >= 0 by {
            assert(body[i] == text[i]);
        }
        assert(g[0] == text[n - 4] && g[1] == text[n - 3] && g[2] == text[n - 2] && g[3] == text[n - 1]);
        assert(sextet(text[n - 4]) >= 0 && sextet(text[n - 3]) >= 0);
        assert(sextet(text[n - 2]) >= 0 && sextet(text[n - 1]) >= 0);
        lemma_decode_groups_last(text);
    }
}

/// Decodes base64 text with `base64::engine::general_purpose::STANDARD`
/// (`Engine::decode`): the standard alphabet, canonical padding, and no
/// bits left over in the last group. The contract claims that the call
/// gives the bytes that `base64_decoding` states, and an error exactly when
/// that is `None`.
#[verifier::external_body]
fn decode_base64(text: &[u8]) -> (r: Option<Vec<u8>>)
    ensures
        match r {
            Some(v) => base64_decoding(text@) == Some(v@),
            None => base64_decoding(text@) is None,
        },
{
    match BASE64.decode(text) {
        Ok(bytes) => Some(bytes),
        Err(_) => None,
    }
}

/// An image ready to be written: where to write it, its bytes, and the URL
/// under which it will be served.
pub struct ImageFile {
    pub path: String,
    pub url: String,
    pub bytes: Vec<u8>,
}

/// The file name of an image uploaded at `timestamp` (seconds since the
/// Unix epoch): the decimal notation of the timestamp.
pub open spec fn image_name(timestamp: i64) -> Seq<char> {
    decimal(timestamp as int)
}

/// The file of decoded image bytes, stored in `directory` under the name of
/// `timestamp` and served under `images/`.
pub open spec fn image_file_spec(
    decoded: Option<Seq<u8>>,
    directory: Seq<char>,
    timestamp: i64,
) -> Option<(Seq<char>, Seq<char>, Seq<u8>)> {
    match decoded {
        None => None,
        Some(bytes) => Some(
            (
                directory + "/"@ + image_name(timestamp),
                "images/"@ + image_name(timestamp),
                bytes,
            ),
        ),
    }
}

/// An image file as the contracts speak of it.
pub open spec fn image_file_view(f: Option<ImageFile>) -> Option<(Seq<char>, Seq<char>, Seq<u8>)> {
    match f {
        None => None,
        Some(f) => Some((f.path@, f.url@, f.bytes@)),
    }
}

/// Places decoded image bytes, or gives up when the upload did not decode.
pub fn image_file(decoded: Option<Vec<u8>>, directory: &str, timestamp: i64) -> (r: Option<ImageFile>)
    ensures
        image_file_view(r) == image_file_spec(
            match decoded {
                Some(v) => Some(v@),
                None => None,
            },
            directory@,
            timestamp,
        ),
{
    match decoded {
        None => None,
        Some(bytes) => {
            let name = i64_to_decimal(timestamp);
            let mut path = String::from_str(directory);
            path.append("/");
            path.append(name.as_str());
            let mut url = String::from_str("images/");
            url.append(name.as_str());
            Some(ImageFile { path, url, bytes })
        },
    }
}

/// Decodes an upload and places it: `None` when its base64 text does not
/// decode.
pub fn prepare_image(data: &str, directory: &str, timestamp: i64) -> (r: Option<ImageFile>)
    ensures
        image_file_view(r) == image_file_spec(
            base64_decoding(base64_part(vstd::utf8::encode_utf8(data@))),
            directory@,
            timestamp,
        ),
        full_groups(base64_part(vstd::utf8::encode_utf8(data@))) ==> image_file_view(r)
            == image_file_spec(
            Some(decode_groups(base64_part(vstd::utf8::encode_utf8(data@)))),
            directory@,
            timestamp,
        ),
{
    let text = strip_data_url_header(data);
    proof {
        if full_groups(text@) {
            lemma_whole_groups_decode(text@);
        }
    }
    let decoded = decode_base64(text);
    image_file(decoded, directory, timestamp)
}

/// The path and the URL of an image name the same file: the URL is
/// `images/` followed by the file's name in the image directory.
pub proof fn lemma_image_url_names_stored_file(
    decoded: Seq<u8>,
    directory: Seq<char>,
    timestamp: i64,
)
    ensures
        ({
            let f = image_file_spec(Some(decoded), directory, timestamp).unwrap();
            &&& f.0 == directory + "/"@ + image_name(timestamp)
            &&& f.1 == "images/"@ + image_name(timestamp)
            &&& f.2 == decoded
        }),
{
}

/// The outcome of an optional upload as the contracts speak of it: no
/// image sent, an image that could not be saved, or the URL of the saved one.
pub open spec fn saved_upload_view(upload: Option<Option<String>>) -> Option<Option<Seq<char>>> {
    match upload {
        None => None,
        Some(None) => Some(None),
        Some(Some(url)) => Some(Some(url@)),
    }
}

/// An optional image URL, or an error, as the contracts speak of it.
pub open spec fn saved_image_view(r: Result<Option<String>, HttpError>) -> Result<
    Option<Seq<char>>,
    (u16, Seq<char>),
> {
    match r {
        Ok(None) => Ok(None),
        Ok(Some(url)) => Ok(Some(url@)),
        Err(e) => Err(e@),
    }
}

/// For an endpoint whose upload must succeed: no URL when no image was
/// sent, the URL of the saved image, or 500 with `failed` when it could not
/// be saved.
pub open spec fn saved_image_reply(upload: Option<Option<Seq<char>>>, failed: Seq<char>) -> Result<
    Option<Seq<char>>,
    (u16, Seq<char>),
> {
    match upload {
        None => Ok(None),
        Some(None) => Err((INTERNAL_SERVER_ERROR, failed)),
        Some(Some(url)) => Ok(Some(url)),
    }
}

/// Answers the outcome of an optional upload that must succeed.
pub fn reply_saved_image(upload: Option<Option<String>>, failed: &str) -> (r: Result<
    Option<String>,
    HttpError,
>)
    ensures
        saved_image_view(r) == saved_image_reply(saved_upload_view(upload), failed@),
{
    match upload {
        None => Ok(None),
        Some(None) => Err(http_error(INTERNAL_SERVER_ERROR, failed)),
        Some(Some(url)) => Ok(Some(url)),
    }
}

/// The URLs of several uploads that must all succeed: the URLs in order when
/// every image was saved, or 500 with `failed` when one was not.
pub open spec fn saved_images_ok(saved: Seq<Option<String>>) -> bool {
    forall|i: int| 0 <= i < saved.len() ==> #[trigger] saved[i] is Some
}

/// Answers the outcome of several uploads that must all succeed.
pub fn reply_saved_images(saved: Vec<Option<String>>, failed: &str) -> (r: Result<
    Vec<String>,
    HttpError,
>)
    ensures
        match r {
            Ok(urls) => saved_images_ok(saved@) && urls@.len() == saved@.len() && forall|i: int|
                0 <= i < urls@.len() ==> #[trigger] urls@[i] == saved@[i].unwrap(),
            Err(e) => !saved_images_ok(saved@) && e@ == (INTERNAL_SERVER_ERROR, failed@),
        },
{
    let mut urls: Vec<String> = Vec::new();
    let n = saved.len();
    for i in 0..n
        invariant
            n == saved@.len(),
            urls@.len() == i,
            forall|j: int| 0 <= j < i ==> #[trigger] saved@[j] is Some,
            forall|j: int| 0 <= j < i ==> #[trigger] urls@[j] == saved@[j].unwrap(),
    {
        match &saved[i] {
            Some(url) => urls.push(url.clone()),
            None => {
                return Err(http_error(INTERNAL_SERVER_ERROR, failed));
            },
        }
    }
    Ok(urls)
}

/// For an edit whose new image is optional: the URL of the new image, or
/// none (keeping the current image) when no image was sent or it could not
/// be saved.
pub open spec fn replacement_image(upload: Option<Option<Seq<char>>>) -> Option<Seq<char>> {
    match upload {
        Some(Some(url)) => Some(url),
        _ => None,
    }
}

/// The image to store on an edit: the new one when it was saved, else none.
pub fn reply_replacement_image(upload: Option<Option<String>>) -> (r: Option<String>)
    ensures
        match r {
            Some(url) => replacement_image(saved_upload_view(upload)) == Some(url@),
            None => replacement_image(saved_upload_view(upload)) is None,
        },
{
    match upload {
        Some(Some(url)) => Some(url),
        _ => None,
    }
}

} // verus!
