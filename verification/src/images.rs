//! Image generation support: URL construction and encoding.
//!
//! Image generation itself is a simple URL-construction plus download
//! operation, with no streaming or retry logic. The URL is built here; the
//! download is the caller's affair.

use vstd::prelude::*;
use vstd::utf8::encode_utf8;
use crate::text::{dec_str, dec_str_int};

verus! {

/// The parameters of one image generation call.
#[derive(Debug)]
pub struct ImageGenerationParams {
    pub prompt: String,
    pub width: Option<u32>,
    pub height: Option<u32>,
    pub seed: Option<i64>,
    pub model: Option<String>,
    pub nologo: Option<bool>,
    pub enhance: Option<bool>,
}

impl Default for ImageGenerationParams {
    /// A square image from the default model, random seed, no logo.
    fn default() -> (r: ImageGenerationParams)
        ensures
            r.prompt@ == Seq::<char>::empty(),
            r.width == Some(1024u32),
            r.height == Some(1024u32),
            r.seed == Some(-1i64),
            r.model matches Some(m) && m@ == "zimage"@,
            r.nologo == Some(true),
            r.enhance == Some(false),
    {
        ImageGenerationParams {
            prompt: String::new(),
            width: Some(1024),
            height: Some(1024),
            seed: Some(-1),
            model: Some(String::from_str("zimage")),
            nologo: Some(true),
            enhance: Some(false),
        }
    }
}

/// A request to generate an image and save it to a file.
#[derive(Debug)]
pub struct GenerateImageInput {
    pub params: ImageGenerationParams,
    pub save_path: String,
    pub pollinations_key: Option<String>,
}

/// The character a percent-encoded byte keeps as it is: ASCII alphanumerics
/// and `-`, `.`, `_`, `~`.
pub open spec fn url_unreserved(b: u8) -> bool {
    (48 <= b && b <= 57) || (65 <= b && b <= 90) || (97 <= b && b <= 122) || b == 45 || b == 46
        || b == 95 || b == 126
}

/// The character for a hexadecimal digit below sixteen, upper case.
pub open spec fn hex_digit_upper(d: int) -> char
    recommends
        0 <= d < 16,
{
    if d < 10 {
        crate::text::dec_digit(d)
    } else if d == 10 {
        'A'
    } else if d == 11 {
        'B'
    } else if d == 12 {
        'C'
    } else if d == 13 {
        'D'
    } else if d == 14 {
        'E'
    } else {
        'F'
    }
}

/// Percent-encoding of a byte sequence: every byte except the unreserved
/// ones becomes `%` and two upper-case hex digits.
pub open spec fn url_encode_bytes(bs: Seq<u8>) -> Seq<char>
    decreases bs.len(),
{
    if bs.len() == 0 {
        Seq::<char>::empty()
    } else {
        url_encode_bytes(bs.drop_last()) + (if url_unreserved(bs.last()) {
            seq![bs.last() as char]
        } else {
            seq!['%', hex_digit_upper(bs.last() as int / 16), hex_digit_upper(bs.last() as int % 16)]
        })
    }
}

/// Relies on `urlencoding::encode`: percent-encodes every byte of the
/// string's UTF-8 form except ASCII alphanumerics and `-`, `.`, `_`, `~`,
/// with upper-case hex digits.
#[verifier::external_body]
fn url_encode(s: &str) -> (r: String)
    ensures
        r@ == url_encode_bytes(encode_utf8(s@)),
{
    urlencoding::encode(s).into_owned()
}

/// Query parts joined with `&`.
pub open spec fn amp_join(parts: Seq<Seq<char>>) -> Seq<char>
    decreases parts.len(),
{
    if parts.len() == 0 {
        Seq::<char>::empty()
    } else if parts.len() == 1 {
        parts[0]
    } else {
        amp_join(parts.drop_last()) + "&"@ + parts.last()
    }
}

/// The query parts of an image URL, in a fixed order; `nologo` and `enhance`
/// appear only when set to true.
pub open spec fn image_query_parts(p: ImageGenerationParams) -> Seq<Seq<char>> {
    (match p.model {
        Some(m) => seq!["model="@ + m@],
        None => Seq::<Seq<char>>::empty(),
    }) + (match p.width {
        Some(w) => seq!["width="@ + dec_str(w as nat)],
        None => Seq::<Seq<char>>::empty(),
    }) + (match p.height {
        Some(h) => seq!["height="@ + dec_str(h as nat)],
        None => Seq::<Seq<char>>::empty(),
    }) + (match p.seed {
        Some(s) => seq!["seed="@ + dec_str_int(s as int)],
        None => Seq::<Seq<char>>::empty(),
    }) + (if p.nologo == Some(true) {
        seq!["nologo=true"@]
    } else {
        Seq::<Seq<char>>::empty()
    }) + (if p.enhance == Some(true) {
        seq!["enhance=true"@]
    } else {
        Seq::<Seq<char>>::empty()
    })
}

/// The URL of one image generation call: the base, the percent-encoded
/// prompt as the path, and the query parts when there are any.
pub open spec fn image_url_spec(base: Seq<char>, p: ImageGenerationParams) -> Seq<char> {
    let head = base + "/image/"@ + url_encode_bytes(encode_utf8(p.prompt@));
    let parts = image_query_parts(p);
    if parts.len() == 0 {
        head
    } else {
        head + "?"@ + amp_join(parts)
    }
}

/// Build the URL of one image generation call.
pub fn generate_image_url(base_url: &str, params: &ImageGenerationParams) -> (r: String)
    ensures
        r@ == image_url_spec(base_url@, *params),
{
    let mut url = String::new();
    url.append(base_url);
    url.append("/image/");
    let encoded = url_encode(params.prompt.as_str());
    url.append(encoded.as_str());

    let mut parts: Vec<String> = Vec::new();
    match &params.model {
        Some(m) => {
            let mut part = String::new();
            part.append("model=");
            part.append(m.as_str());
            proof {
                assert(part@ =~= "model="@ + m@);
            }
            parts.push(part);
        },
        None => {},
    }
    match params.width {
        Some(w) => {
            let mut part = String::new();
            part.append("width=");
            let ws = crate::text::u32_string(w);
            part.append(ws.as_str());
            proof {
                assert(part@ =~= "width="@ + dec_str(w as nat));
            }
            parts.push(part);
        },
        None => {},
    }
    match params.height {
        Some(h) => {
            let mut part = String::new();
            part.append("height=");
            let hs = crate::text::u32_string(h);
            part.append(hs.as_str());
            proof {
                assert(part@ =~= "height="@ + dec_str(h as nat));
            }
            parts.push(part);
        },
        None => {},
    }
    match params.seed {
        Some(s) => {
            let mut part = String::new();
            part.append("seed=");
            let ss = crate::text::i64_string(s);
            part.append(ss.as_str());
            proof {
                assert(part@ =~= "seed="@ + dec_str_int(s as int));
            }
            parts.push(part);
        },
        None => {},
    }
    match params.nologo {
        Some(true) => {
            parts.push(String::from_str("nologo=true"));
        },
        _ => {},
    }
    match params.enhance {
        Some(true) => {
            parts.push(String::from_str("enhance=true"));
        },
        _ => {},
    }
    proof {
        assert(parts.deep_view() =~= image_query_parts(*params));
    }

    if parts.len() > 0 {
        url.append("?");
        let ghost head = url@;
        let mut i: usize = 0;
        while i < parts.len()
            invariant
                i <= parts@.len(),
                parts.deep_view() == image_query_parts(*params),
                i == 0 ==> url@ == head,
                i > 0 ==> url@ == head + amp_join(parts.deep_view().take(i as int)),
            decreases parts@.len() - i,
        {
            if i > 0 {
                url.append("&");
            }
            url.append(parts[i].as_str());
            proof {
                let dv = parts.deep_view();
                assert(dv.take(i as int + 1).drop_last() =~= dv.take(i as int));
                assert(dv.take(i as int + 1).last() == dv[i as int]);
                assert(dv[i as int] == parts@[i as int]@);
                if i == 0 {
                    assert(dv.take(1)[0] == dv[0]);
                    assert(url@ =~= head + amp_join(dv.take(1)));
                } else {
                    assert(url@ =~= head + amp_join(dv.take(i as int + 1)));
                }
            }
            i = i + 1;
        }
        proof {
            assert(parts.deep_view().take(parts@.len() as int) =~= parts.deep_view());
            assert(url@ =~= image_url_spec(base_url@, *params));
        }
    } else {
        proof {
            assert(url@ =~= image_url_spec(base_url@, *params));
        }
    }
    url
}


/// The character of the standard base64 alphabet at an index below 64.
pub open spec fn b64_char(i: int) -> char
    recommends
        0 <= i < 64,
{
    if i < 26 {
        ((65 + i) as u8) as char
    } else if i < 52 {
        ((97 + (i - 26)) as u8) as char
    } else if i < 62 {
        ((48 + (i - 52)) as u8) as char
    } else if i == 62 {
        '+'
    } else {
        '/'
    }
}

/// Standard base64 with padding: three bytes become four characters, a
/// final group of one or two bytes is padded with `=`.
pub open spec fn base64_spec(bs: Seq<u8>) -> Seq<char>
    decreases bs.len(),
{
    if bs.len() == 0 {
        Seq::<char>::empty()
    } else if bs.len() == 1 {
        let b0 = bs[0] as int;
        seq![b64_char(b0 / 4), b64_char((b0 % 4) * 16), '=', '=']
    } else if bs.len() == 2 {
        let b0 = bs[0] as int;
        let b1 = bs[1] as int;
        seq![b64_char(b0 / 4), b64_char((b0 % 4) * 16 + b1 / 16), b64_char((b1 % 16) * 4), '=']
    } else {
        let b0 = bs[0] as int;
        let b1 = bs[1] as int;
        let b2 = bs[2] as int;
        seq![
            b64_char(b0 / 4),
            b64_char((b0 % 4) * 16 + b1 / 16),
            b64_char((b1 % 16) * 4 + b2 / 64),
            b64_char(b2 % 64),
        ] + base64_spec(bs.skip(3))
    }
}

/// Relies on `base64::engine::general_purpose::STANDARD` and
/// `base64::Engine::encode`: the standard alphabet with `=` padding.
#[verifier::external_body]
fn base64_standard(bytes: &[u8]) -> (r: String)
    ensures
        r@ == base64_spec(bytes@),
{
    base64::Engine::encode(&base64::engine::general_purpose::STANDARD, bytes)
}

/// Wrap downloaded image bytes as a `data:` URL for direct display.
pub fn image_data_url(bytes: &[u8]) -> (r: String)
    ensures
        r@ == "data:image/png;base64,"@ + base64_spec(bytes@),
{
    let mut r = String::new();
    r.append("data:image/png;base64,");
    let encoded = base64_standard(bytes);
    r.append(encoded.as_str());
    proof {
        assert(r@ =~= "data:image/png;base64,"@ + base64_spec(bytes@));
    }
    r
}

/// The URL a connection test fetches: a tiny probe image.
pub fn test_image_url(base_url: &str) -> (r: String)
    ensures
        r@ == base_url@ + "/image/test?width=64&height=64&model=zimage"@,
{
    let mut r = String::new();
    r.append(base_url);
    r.append("/image/test?width=64&height=64&model=zimage");
    r
}

/// A book cover prompt for a title, genre and mood.
pub fn cover_prompt_template(title: &str, genre: &str, mood: &str) -> (r: String)
    ensures
        r@ == "Book cover design for '"@ + title@ + "', "@ + genre@ + " genre, "@ + mood@
            + " mood, professional illustration, high quality, detailed, cinematic lighting, trending on artstation"@,
{
    let mut r = String::new();
    r.append("Book cover design for '");
    r.append(title);
    r.append("', ");
    r.append(genre);
    r.append(" genre, ");
    r.append(mood);
    r.append(
        " mood, professional illustration, high quality, detailed, cinematic lighting, trending on artstation",
    );
    r
}

/// A character portrait prompt for a name, description and style.
pub fn character_portrait_template(name: &str, description: &str, style: &str) -> (r: String)
    ensures
        r@ == "Character portrait of "@ + name@ + ", "@ + description@ + ", "@ + style@
            + " art style, detailed face, professional digital art, high quality"@,
{
    let mut r = String::new();
    r.append("Character portrait of ");
    r.append(name);
    r.append(", ");
    r.append(description);
    r.append(", ");
    r.append(style);
    r.append(" art style, detailed face, professional digital art, high quality");
    r
}

/// A scene illustration prompt for a description, mood and style.
pub fn scene_illustration_template(scene_description: &str, mood: &str, style: &str) -> (r: String)
    ensures
        r@ == scene_description@ + ", "@ + mood@ + " atmosphere, "@ + style@
            + " art style, detailed illustration, cinematic composition, professional quality"@,
{
    let mut r = String::new();
    r.append(scene_description);
    r.append(", ");
    r.append(mood);
    r.append(" atmosphere, ");
    r.append(style);
    r.append(" art style, detailed illustration, cinematic composition, professional quality");
    r
}

/// A social media poster prompt for a hook and its visual elements.
pub fn social_media_poster_template(hook: &str, visual_elements: &str) -> (r: String)
    ensures
        r@ == "Social media poster: '"@ + hook@ + "', "@ + visual_elements@
            + ", eye-catching design, modern layout, high contrast, professional graphics"@,
{
    let mut r = String::new();
    r.append("Social media poster: '");
    r.append(hook);
    r.append("', ");
    r.append(visual_elements);
    r.append(", eye-catching design, modern layout, high contrast, professional graphics");
    r
}

} // verus!
