//! Values taken out of a request: arguments encoded in base64, and the parts
//! of a cookie header.

use crate::text::{part_texts, split_trimmed, trimmed_parts};
use vstd::prelude::*;
use vstd::utf8::{decode_utf8, valid_utf8};

verus! {

/// The bytes that a text stands for in base64 with the URL-safe alphabet and
/// padding, or nothing where the text is no such encoding.
pub uninterp spec fn base64_url_safe(text: Seq<char>) -> Option<Seq<u8>>;

/// `decode` of `base64::prelude::BASE64_URL_SAFE` decodes a text in base64
/// with the URL-safe alphabet, and requires the padding to be there. It fails
/// on any other text. The result depends on the text alone.
#[verifier::external_body]
fn decode_url_safe(value: &str) -> (bytes: Option<Vec<u8>>)
    ensures
        match bytes {
            Some(b) => base64_url_safe(value@) == Some(b@),
            None => base64_url_safe(value@) is None,
        },
{
    base64::Engine::decode(&base64::prelude::BASE64_URL_SAFE, value).ok()
}

/// `String::from_utf8` turns bytes into the string that they encode in
/// UTF-8, and fails exactly where the bytes are no valid UTF-8.
#[verifier::external_body]
fn string_from_utf8(bytes: Vec<u8>) -> (text: Option<String>)
    ensures
        match text {
            Some(s) => valid_utf8(bytes@) && s@ == decode_utf8(bytes@),
            None => !valid_utf8(bytes@),
        },
{
    String::from_utf8(bytes).ok()
}

/// A matched argument encoded in base64
#[derive(Debug, Clone)]
pub struct Base64(pub String);

/// The text that decoded bytes stand for: their decoding as UTF-8, where
/// there are bytes and they are valid UTF-8.
pub open spec fn text_of_decoded(bytes: Option<Seq<u8>>) -> Option<Seq<char>> {
    match bytes {
        Some(b) => if valid_utf8(b) {
            Some(decode_utf8(b))
        } else {
            None
        },
        None => None,
    }
}

impl Base64 {
    /// The argument that decoded bytes stand for: they must be there, and be
    /// valid UTF-8.
    pub fn from_decoded(bytes: Option<Vec<u8>>) -> (argument: Option<Base64>)
        ensures
            match argument {
                Some(a) => text_of_decoded(
                    match bytes {
                        Some(b) => Some(b@),
                        None => None,
                    },
                ) == Some(a.0@),
                None => text_of_decoded(
                    match bytes {
                        Some(b) => Some(b@),
                        None => None,
                    },
                ) is None,
            },
    {
        match bytes {
            Some(b) => match string_from_utf8(b) {
                Some(s) => Some(Base64(s)),
                None => None,
            },
            None => None,
        }
    }

    /// Reads an argument from its encoding: base64 with the URL-safe
    /// alphabet, of a text in UTF-8. Fails where the value is no such
    /// encoding, or does not encode valid UTF-8.
    pub fn decode(value: &str) -> (argument: Option<Base64>)
        ensures
            match argument {
                Some(a) => text_of_decoded(base64_url_safe(value@)) == Some(a.0@),
                None => text_of_decoded(base64_url_safe(value@)) is None,
            },
    {
        Base64::from_decoded(decode_url_safe(value))
    }

    /// The decoded text.
    pub fn as_str(&self) -> (text: &str)
        ensures
            text@ == self.0@,
    {
        self.0.as_str()
    }
}

/// The parts of a cookie header: what stands between its semicolons, each
/// part without the white space around it.
pub fn cookie_header_parts(header: &str) -> (parts: Vec<String>)
    ensures
        part_texts(parts@) == trimmed_parts(header@, ';'),
{
    split_trimmed(header, ';')
}

/// The name and the value of the cookie that a `name=value` text stands for,
/// once the percent-encoding of both is undone, or nothing where the text is
/// no cookie.
pub uninterp spec fn parsed_cookie(part: Seq<char>) -> Option<(Seq<char>, Seq<char>)>;

/// What a jar shows: for each name, the value of the cookie of that name.
pub uninterp spec fn jar_cookies(jar: cookie::CookieJar) -> Map<Seq<char>, Seq<char>>;

/// A set of cookies, in which every name occurs once.
#[verifier::external_type_specification]
#[verifier::external_body]
pub struct ExCookieJar(cookie::CookieJar);

/// `cookie::Cookie::parse_encoded` reads a cookie from a text and undoes the
/// percent-encoding of its name and value. It fails on a text that is no
/// cookie. Whether it fails, and what it reads, depends on the text alone.
#[verifier::external_body]
fn parse_cookie_pair(part: &str) -> (pair: Option<(String, String)>)
    ensures
        match pair {
            Some(p) => parsed_cookie(part@) == Some((p.0@, p.1@)),
            None => parsed_cookie(part@) is None,
        },
{
    cookie::Cookie::parse_encoded(part).ok().map(
        |c| (c.name().to_string(), c.value().to_string()),
    )
}

/// What an empty jar shows: nothing.
pub open spec fn no_cookies() -> Map<Seq<char>, Seq<char>> {
    Map::empty()
}

/// `cookie::CookieJar::new` makes a jar without cookies.
#[verifier::external_body]
fn jar_new() -> (jar: cookie::CookieJar)
    ensures
        jar_cookies(jar) == no_cookies(),
{
    cookie::CookieJar::new()
}

/// `cookie::CookieJar::add` puts a cookie into the jar. A cookie of the same
/// name that was there before is replaced; the others stay.
#[verifier::external_body]
fn jar_add(jar: &mut cookie::CookieJar, name: String, value: String)
    ensures
        jar_cookies(*final(jar)) == jar_cookies(*old(jar)).insert(name@, value@),
{
    jar.add((name, value))
}

/// The cookies shown after the first `count` of `parts` were read into a jar
/// that showed `start`: each part that is a cookie is put in, and replaces a
/// cookie of its name; each other part is passed over.
pub open spec fn cookies_after_parts(
    start: Map<Seq<char>, Seq<char>>,
    parts: Seq<Seq<char>>,
    count: nat,
) -> Map<Seq<char>, Seq<char>>
    decreases count,
{
    if count == 0 {
        start
    } else {
        let before = cookies_after_parts(start, parts, (count - 1) as nat);
        match parsed_cookie(parts[count - 1]) {
            Some((name, value)) => before.insert(name, value),
            None => before,
        }
    }
}

/// The cookies shown after the first `count` of `headers` were read, each
/// split at its semicolons.
pub open spec fn cookies_after_headers(headers: Seq<Seq<char>>, count: nat) -> Map<
    Seq<char>,
    Seq<char>,
>
    decreases count,
{
    if count == 0 {
        Map::empty()
    } else {
        let parts = trimmed_parts(headers[count - 1], ';');
        cookies_after_parts(
            cookies_after_headers(headers, (count - 1) as nat),
            parts,
            parts.len(),
        )
    }
}

/// Cookies on a request
#[derive(Debug)]
pub struct Cookies(pub cookie::CookieJar);

impl Cookies {
    /// Reads the cookies of a request from the values of its cookie headers,
    /// in the order of the headers. A later cookie replaces an earlier one of
    /// the same name, and a part that is no cookie is passed over.
    pub fn from_header_values(headers: &[String]) -> (cookies: Cookies)
        ensures
            jar_cookies(cookies.0) == cookies_after_headers(part_texts(headers@), headers@.len()),
    {
        let mut jar = jar_new();
        let ghost texts = part_texts(headers@);
        let mut h: usize = 0;
        while h < headers.len()
            invariant
                h <= headers@.len(),
                texts == part_texts(headers@),
                jar_cookies(jar) == cookies_after_headers(texts, h as nat),
            decreases headers@.len() - h,
        {
            let parts = cookie_header_parts(headers[h].as_str());
            let ghost start = jar_cookies(jar);
            let ghost part_list = part_texts(parts@);
            let mut p: usize = 0;
            while p < parts.len()
                invariant
                    p <= parts@.len(),
                    part_list == part_texts(parts@),
                    jar_cookies(jar) == cookies_after_parts(start, part_list, p as nat),
                decreases parts@.len() - p,
            {
                match parse_cookie_pair(parts[p].as_str()) {
                    Some(pair) => {
                        jar_add(&mut jar, pair.0, pair.1);
                    },
                    None => {},
                }
                p += 1;
            }
            proof {
                assert(part_list == trimmed_parts(texts[h as int], ';'));
            }
            h += 1;
        }
        Cookies(jar)
    }
}

} // verus!
