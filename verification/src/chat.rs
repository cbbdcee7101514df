//! Chat-completion requests and replies.
//!
//! The request body sent to the upstream chat-completion endpoint is framed
//! here as JSON text with verified escaping; the non-streaming reply's
//! content is extracted here, as are the JSON payloads that some operations
//! ask the model itself to produce (promotion copy, character sheets).

use vstd::prelude::*;
use crate::relay::GenError;
use crate::text::{
    dec_str, ends_with_spec, json_escape_spec, strip_prefix_spec, strip_suffix_spec, trim_spec,
};

verus! {

/// One chat message: a role (`system`, `user`, `assistant`) and its text.
#[derive(Debug)]
pub struct ChatMessage {
    pub role: String,
    pub content: String,
}

/// Token accounting reported by the upstream.
#[derive(Debug)]
pub struct Usage {
    pub prompt_tokens: u32,
    pub completion_tokens: u32,
    pub total_tokens: u32,
}

/// One reply alternative of a non-streaming chat completion.
#[derive(Debug)]
pub struct Choice {
    pub index: u32,
    pub message: ChatMessage,
    pub finish_reason: Option<String>,
}

/// A non-streaming chat-completion reply.
#[derive(Debug)]
pub struct ChatCompletionResponse {
    pub id: String,
    pub choices: Vec<Choice>,
    pub usage: Option<Usage>,
}

/// The message list of one call: the optional system prompt first, then the
/// user prompt.
pub fn build_messages(system_prompt: Option<&str>, user_prompt: &str) -> (r: Vec<ChatMessage>)
    ensures
        match system_prompt {
            Some(sys) => r@.len() == 2 && r@[0].role@ == "system"@ && r@[0].content@ == sys@
                && r@[1].role@ == "user"@ && r@[1].content@ == user_prompt@,
            None => r@.len() == 1 && r@[0].role@ == "user"@ && r@[0].content@ == user_prompt@,
        },
{
    let mut r: Vec<ChatMessage> = Vec::new();
    match system_prompt {
        Some(sys) => {
            r.push(ChatMessage { role: String::from_str("system"), content: String::from_str(sys) });
        },
        None => {},
    }
    r.push(ChatMessage { role: String::from_str("user"), content: String::from_str(user_prompt) });
    r
}

/// The text of the first reply alternative; a reply without one is a
/// protocol violation of the upstream.
pub fn first_choice_content(resp: &ChatCompletionResponse) -> (r: Result<String, GenError>)
    ensures
        resp.choices@.len() > 0 ==> (r matches Ok(c) && c@ == resp.choices@[0].message.content@),
        resp.choices@.len() == 0 ==> (r matches Err(GenError::Upstream(m)) && m@
            == "No choices in response"@),
{
    if resp.choices.len() > 0 {
        Ok(resp.choices[0].message.content.clone())
    } else {
        Err(GenError::Upstream(String::from_str("No choices in response")))
    }
}

/// A temperature in tenths written as a decimal fraction, `8` as `0.8`.
pub open spec fn tenths_str(tenths: nat) -> Seq<char> {
    dec_str(tenths / 10) + "."@ + dec_str(tenths % 10)
}

/// The JSON body of one chat-completion call: model, a system and a user
/// message, the sampling temperature in tenths, the token budget, and the
/// streaming flag (left out when false, as the upstream treats absence as
/// false).
pub open spec fn chat_request_body_spec(
    model: Seq<char>,
    system: Seq<char>,
    user: Seq<char>,
    temperature_tenths: nat,
    max_tokens: nat,
    stream: bool,
) -> Seq<char> {
    "{\"model\":\""@ + json_escape_spec(model)
        + "\",\"messages\":[{\"role\":\"system\",\"content\":\""@ + json_escape_spec(system)
        + "\"},{\"role\":\"user\",\"content\":\""@ + json_escape_spec(user)
        + "\"}],\"temperature\":"@ + tenths_str(temperature_tenths) + ",\"max_tokens\":"@
        + dec_str(max_tokens) + (if stream {
        ",\"stream\":true}"@
    } else {
        "}"@
    })
}

/// Frame the JSON body of one chat-completion call.
pub fn chat_request_body(
    model: &str,
    system_prompt: &str,
    user_prompt: &str,
    temperature_tenths: u32,
    max_tokens: u32,
    stream: bool,
) -> (r: String)
    ensures
        r@ == chat_request_body_spec(
            model@,
            system_prompt@,
            user_prompt@,
            temperature_tenths as nat,
            max_tokens as nat,
            stream,
        ),
{
    let mut r = String::new();
    r.append("{\"model\":\"");
    let m = crate::text::json_escape(model);
    r.append(m.as_str());
    r.append("\",\"messages\":[{\"role\":\"system\",\"content\":\"");
    let s = crate::text::json_escape(system_prompt);
    r.append(s.as_str());
    r.append("\"},{\"role\":\"user\",\"content\":\"");
    let u = crate::text::json_escape(user_prompt);
    r.append(u.as_str());
    r.append("\"}],\"temperature\":");
    let whole = crate::text::u32_string(temperature_tenths / 10);
    r.append(whole.as_str());
    r.append(".");
    let frac = crate::text::u32_string(temperature_tenths % 10);
    r.append(frac.as_str());
    r.append(",\"max_tokens\":");
    let mt = crate::text::u32_string(max_tokens);
    r.append(mt.as_str());
    if stream {
        r.append(",\"stream\":true}");
    } else {
        r.append("}");
    }
    proof {
        assert(r@ =~= chat_request_body_spec(
            model@,
            system_prompt@,
            user_prompt@,
            temperature_tenths as nat,
            max_tokens as nat,
            stream,
        ));
    }
    r
}

/// An API base URL normalized: surrounding whitespace and trailing slashes
/// removed.
pub open spec fn normalized_base_url_spec(s: Seq<char>) -> Seq<char> {
    strip_suffix_spec(trim_spec(s), "/"@)
}

/// Normalize an API base URL.
pub fn normalized_api_base_url(api_url: &str) -> (r: String)
    ensures
        r@ == normalized_base_url_spec(api_url@),
{
    let t = crate::text::trim_str(api_url);
    let n = crate::text::strip_suffix_all(t, "/");
    n.to_owned()
}

/// The chat-completions endpoint of an API base URL; a base that already
/// names the endpoint is kept as it is.
pub open spec fn chat_completions_url_spec(s: Seq<char>) -> Seq<char> {
    let base = normalized_base_url_spec(s);
    if ends_with_spec(base, "/chat/completions"@) {
        base
    } else {
        base + "/chat/completions"@
    }
}

/// The chat-completions endpoint for an API base URL.
pub fn chat_completions_url(api_url: &str) -> (r: String)
    ensures
        r@ == chat_completions_url_spec(api_url@),
{
    let mut base = normalized_api_base_url(api_url);
    if crate::text::ends_with_str(base.as_str(), "/chat/completions") {
        base
    } else {
        base.append("/chat/completions");
        base
    }
}


/// Model replies asked to be JSON sometimes arrive wrapped in a Markdown
/// code fence; this is the reply with the fence peeled off.
pub open spec fn clean_fences_spec(s: Seq<char>) -> Seq<char> {
    trim_spec(
        strip_suffix_spec(
            strip_prefix_spec(strip_prefix_spec(trim_spec(s), "```json"@), "```"@),
            "```"@,
        ),
    )
}

/// Peel a Markdown code fence off a model reply.
pub fn clean_json_fences(s: &str) -> (r: String)
    ensures
        r@ == clean_fences_spec(s@),
{
    let t0 = crate::text::trim_str(s);
    let t1 = crate::text::strip_prefix_all(t0, "```json");
    let t2 = crate::text::strip_prefix_all(t1, "```");
    let t3 = crate::text::strip_suffix_all(t2, "```");
    let t4 = crate::text::trim_str(t3);
    t4.to_owned()
}

/// The string at a top-level key of a JSON object: nothing at all when the
/// text does not parse as JSON, otherwise the field's string when it is
/// present as one. The text and the key alone determine the result.
pub uninterp spec fn json_field_of(text: Seq<char>, key: Seq<char>) -> Option<Option<Seq<char>>>;

/// Relies on `serde_json::from_str` and `serde_json::Value::{get, as_str}`:
/// parses the text as JSON and extracts the string at the given top-level
/// key; the result is a function of the text and the key alone.
#[verifier::external_body]
fn json_string_field(text: &str, key: &str) -> (r: Option<Option<String>>)
    ensures
        r is Some <==> json_field_of(text@, key@) is Some,
        r matches Some(f) ==> (f is Some <==> json_field_of(text@, key@)->0 is Some),
        r matches Some(Some(s)) ==> s@ == json_field_of(text@, key@)->0->0,
{
    match serde_json::from_str::<serde_json::Value>(text) {
        Err(_) => None,
        Ok(v) => Some(v.get(key).and_then(|f| f.as_str()).map(|s| s.to_string())),
    }
}

/// The message reported when a model reply that was asked to be JSON does
/// not parse: the offending text is attached for diagnostics.
pub open spec fn bad_json_message_spec(cleaned: Seq<char>) -> Seq<char> {
    "解析AI返回的JSON失败。原始内容: "@ + cleaned
}

fn bad_json_message(cleaned: &str) -> (r: String)
    ensures
        r@ == bad_json_message_spec(cleaned@),
{
    let mut r = String::new();
    r.append("解析AI返回的JSON失败。原始内容: ");
    r.append(cleaned);
    proof {
        assert(r@ =~= bad_json_message_spec(cleaned@));
    }
    r
}

/// The illustration prompt used when the model reply carries none.
pub open spec fn illustration_fallback() -> Seq<char> {
    "A cinematic book illustration, dramatic lighting, highly detailed"@
}

/// Pull the English illustration prompt out of a model reply: the reply is
/// unfenced and parsed as JSON; an unparseable reply is an error, a missing
/// `image_prompt` field falls back to a stock prompt.
pub fn extract_illustration_prompt(content: &str) -> (r: Result<String, String>)
    ensures
        (match json_field_of(clean_fences_spec(content@), "image_prompt"@) {
            None => r matches Err(m) && m@ == bad_json_message_spec(clean_fences_spec(content@)),
            Some(Some(p)) => r matches Ok(s) && s@ == p,
            Some(None) => r matches Ok(s) && s@ == illustration_fallback(),
        }),
{
    let cleaned = clean_json_fences(content);
    match json_string_field(cleaned.as_str(), "image_prompt") {
        None => Err(bad_json_message(cleaned.as_str())),
        Some(Some(p)) => Ok(p),
        Some(None) => Ok(String::from_str(
            "A cinematic book illustration, dramatic lighting, highly detailed",
        )),
    }
}

/// A chapter's promotion copy: a cover-image prompt and a short summary.
#[derive(Debug)]
pub struct ChapterPromoResult {
    pub image_prompt: String,
    pub summary: String,
    pub image_base64: Option<String>,
}

/// The summary used when the model reply carries none.
pub open spec fn summary_fallback() -> Seq<char> {
    "摘要生成失败"@
}

/// The promo image prompt used when the model reply carries none.
pub open spec fn promo_image_fallback() -> Seq<char> {
    "A dramatic scene from a novel, cinematic lighting, high quality illustration"@
}

/// Pull summary and image prompt out of a model reply: the reply is
/// unfenced and parsed as JSON; an unparseable reply is an error, each
/// missing field falls back to stock text. No image is attached here.
pub fn extract_chapter_promo(content: &str) -> (r: Result<ChapterPromoResult, String>)
    ensures
        ({
            let cleaned = clean_fences_spec(content@);
            let summary = json_field_of(cleaned, "summary"@);
            let image = json_field_of(cleaned, "image_prompt"@);
            &&& summary is None ==> (r matches Err(m) && m@ == bad_json_message_spec(cleaned))
            &&& summary is Some ==> (r matches Ok(p) && p.image_base64 is None && p.summary@
                == (match summary {
                Some(Some(s)) => s,
                _ => summary_fallback(),
            }) && p.image_prompt@ == (match image {
                Some(Some(s)) => s,
                _ => promo_image_fallback(),
            }))
        }),
{
    let cleaned = clean_json_fences(content);
    let summary_field = json_string_field(cleaned.as_str(), "summary");
    let image_field = json_string_field(cleaned.as_str(), "image_prompt");
    match summary_field {
        None => Err(bad_json_message(cleaned.as_str())),
        Some(summary_opt) => {
            let summary = match summary_opt {
                Some(s) => s,
                None => String::from_str("摘要生成失败"),
            };
            let image_prompt = match image_field {
                Some(Some(s)) => s,
                _ => String::from_str(
                    "A dramatic scene from a novel, cinematic lighting, high quality illustration",
                ),
            };
            Ok(ChapterPromoResult { image_prompt, summary, image_base64: None })
        },
    }
}


/// A generated character sheet: the prose description and the portrait
/// prompt.
#[derive(Debug)]
pub struct CharacterAppearanceResult {
    pub appearance: String,
    pub image_prompt: String,
}

/// A generated character portrait prompt.
#[derive(Debug)]
pub struct CharacterPortraitPromptResult {
    pub image_prompt: String,
}

/// The portrait prompt used when the model reply carries none.
pub open spec fn portrait_fallback() -> Seq<char> {
    "studio portrait, one-inch ID photo, clean background, realistic, high detail"@
}

/// The message reported when a character-sheet reply does not parse.
pub open spec fn bad_character_json_spec(cleaned: Seq<char>) -> Seq<char> {
    "解析 AI 返回 JSON 失败。原始内容: "@ + cleaned
}

fn bad_character_json(cleaned: &str) -> (r: String)
    ensures
        r@ == bad_character_json_spec(cleaned@),
{
    let mut r = String::new();
    r.append("解析 AI 返回 JSON 失败。原始内容: ");
    r.append(cleaned);
    proof {
        assert(r@ =~= bad_character_json_spec(cleaned@));
    }
    r
}

/// Pull a character sheet out of a model reply: an unparseable reply is an
/// error; the `appearance` field, trimmed, must be nonempty; a missing
/// `image_prompt` falls back to a stock portrait prompt and is trimmed too.
pub fn extract_character_appearance(content: &str) -> (r: Result<CharacterAppearanceResult, String>)
    ensures
        ({
            let cleaned = clean_fences_spec(content@);
            let appearance = json_field_of(cleaned, "appearance"@);
            let image = json_field_of(cleaned, "image_prompt"@);
            let app_trimmed = trim_spec(
                match appearance {
                    Some(Some(a)) => a,
                    _ => Seq::<char>::empty(),
                },
            );
            &&& appearance is None ==> (r matches Err(m) && m@ == bad_character_json_spec(cleaned))
            &&& (appearance is Some && app_trimmed.len() == 0) ==> (r matches Err(m) && m@
                == "AI 未返回有效的人物形象文本"@)
            &&& (appearance is Some && app_trimmed.len() > 0) ==> (r matches Ok(p) && p.appearance@
                == app_trimmed && p.image_prompt@ == trim_spec(
                match image {
                    Some(Some(s)) => s,
                    _ => portrait_fallback(),
                },
            ))
        }),
{
    let cleaned = clean_json_fences(content);
    let appearance_field = json_string_field(cleaned.as_str(), "appearance");
    let image_field = json_string_field(cleaned.as_str(), "image_prompt");
    match appearance_field {
        None => Err(bad_character_json(cleaned.as_str())),
        Some(appearance_opt) => {
            let raw_appearance = match appearance_opt {
                Some(a) => a,
                None => String::new(),
            };
            let appearance = crate::text::trim_str(raw_appearance.as_str()).to_owned();
            if appearance.as_str().is_empty() {
                return Err(String::from_str("AI 未返回有效的人物形象文本"));
            }
            let raw_image = match image_field {
                Some(Some(s)) => s,
                _ => String::from_str(
                    "studio portrait, one-inch ID photo, clean background, realistic, high detail",
                ),
            };
            let image_prompt = crate::text::trim_str(raw_image.as_str()).to_owned();
            Ok(CharacterAppearanceResult { appearance, image_prompt })
        },
    }
}

/// Pull a portrait prompt out of a model reply: an unparseable reply is an
/// error; a missing `image_prompt` falls back to a stock portrait prompt;
/// the prompt, trimmed, must be nonempty.
pub fn extract_portrait_prompt(content: &str) -> (r: Result<CharacterPortraitPromptResult, String>)
    ensures
        ({
            let cleaned = clean_fences_spec(content@);
            let image = json_field_of(cleaned, "image_prompt"@);
            let trimmed = trim_spec(
                match image {
                    Some(Some(s)) => s,
                    _ => portrait_fallback(),
                },
            );
            &&& image is None ==> (r matches Err(m) && m@ == bad_character_json_spec(cleaned))
            &&& (image is Some && trimmed.len() == 0) ==> (r matches Err(m) && m@
                == "AI 未返回有效的人像提示词"@)
            &&& (image is Some && trimmed.len() > 0) ==> (r matches Ok(p) && p.image_prompt@
                == trimmed)
        }),
{
    let cleaned = clean_json_fences(content);
    match json_string_field(cleaned.as_str(), "image_prompt") {
        None => Err(bad_character_json(cleaned.as_str())),
        Some(image_opt) => {
            let raw = match image_opt {
                Some(s) => s,
                None => String::from_str(
                    "studio portrait, one-inch ID photo, clean background, realistic, high detail",
                ),
            };
            let image_prompt = crate::text::trim_str(raw.as_str()).to_owned();
            if image_prompt.as_str().is_empty() {
                return Err(String::from_str("AI 未返回有效的人像提示词"));
            }
            Ok(CharacterPortraitPromptResult { image_prompt })
        },
    }
}


/// Check a caller's text-model configuration: key, URL and model name must
/// each hold visible text. (The sampling temperature is checked by the
/// caller, which owns that value.) The first missing field names the
/// configuration error.
pub fn validate_text_config(api_key: &str, api_url: &str, model: &str) -> (r: Result<(), GenError>)
    ensures
        trim_spec(api_key@).len() == 0 ==> (r matches Err(GenError::Config(m)) && m@
            == "API Key 不能为空"@),
        (trim_spec(api_key@).len() > 0 && trim_spec(api_url@).len() == 0) ==> (r matches Err(
            GenError::Config(m),
        ) && m@ == "API URL 不能为空"@),
        (trim_spec(api_key@).len() > 0 && trim_spec(api_url@).len() > 0 && trim_spec(
            model@,
        ).len() == 0) ==> (r matches Err(GenError::Config(m)) && m@ == "模型名称不能为空"@),
        (trim_spec(api_key@).len() > 0 && trim_spec(api_url@).len() > 0 && trim_spec(
            model@,
        ).len() > 0) ==> r is Ok,
{
    if crate::text::is_blank(api_key) {
        return Err(GenError::Config(String::from_str("API Key 不能为空")));
    }
    if crate::text::is_blank(api_url) {
        return Err(GenError::Config(String::from_str("API URL 不能为空")));
    }
    if crate::text::is_blank(model) {
        return Err(GenError::Config(String::from_str("模型名称不能为空")));
    }
    Ok(())
}

} // verus!
