//! The records of the local store and their construction rules.
//!
//! Reading and writing the store is the caller's affair; what is verified
//! here is how a record is formed from its input: which fields carry over,
//! which defaults hold at creation, and how word counts are computed.

use vstd::prelude::*;
use crate::text::{is_space_char, lower_spec, trim_spec};

verus! {

/// A writing project.
#[derive(Debug)]
pub struct Project {
    pub id: String,
    pub title: String,
    pub author: Option<String>,
    pub genre: Option<String>,
    pub description: Option<String>,
    pub language: String,
    pub target_word_count: Option<i64>,
    pub current_word_count: i64,
    pub status: String,
    pub created_at: String,
    pub updated_at: String,
    pub cover_images: Option<String>,
    pub default_cover_id: Option<String>,
}

/// What a caller supplies to create or update a project.
#[derive(Debug)]
pub struct CreateProjectInput {
    pub title: String,
    pub author: Option<String>,
    pub genre: Option<String>,
    pub description: Option<String>,
    pub language: Option<String>,
    pub target_word_count: Option<i64>,
    pub cover_images: Option<String>,
    pub default_cover_id: Option<String>,
}

/// One chapter of a project.
#[derive(Debug)]
pub struct Chapter {
    pub id: String,
    pub project_id: String,
    pub title: String,
    pub order_index: i32,
    pub outline_goal: Option<String>,
    pub conflict: Option<String>,
    pub twist: Option<String>,
    pub cliffhanger: Option<String>,
    pub draft_text: Option<String>,
    pub final_text: Option<String>,
    pub illustrations: Option<String>,
    pub word_count: i64,
    pub status: String,
    pub created_at: String,
    pub updated_at: String,
}

/// What a caller supplies to create a chapter.
#[derive(Debug)]
pub struct CreateChapterInput {
    pub project_id: String,
    pub title: String,
    pub order_index: i32,
    pub outline_goal: Option<String>,
    pub conflict: Option<String>,
}

/// What a caller may change about a chapter's metadata.
#[derive(Debug)]
pub struct UpdateChapterMetaInput {
    pub title: Option<String>,
    pub order_index: Option<i32>,
    pub outline_goal: Option<String>,
    pub conflict: Option<String>,
    pub twist: Option<String>,
    pub cliffhanger: Option<String>,
}

/// One character sheet of a project.
#[derive(Debug)]
pub struct Character {
    pub id: String,
    pub project_id: String,
    pub name: String,
    pub role: Option<String>,
    pub description: Option<String>,
    pub personality: Option<String>,
    pub background: Option<String>,
    pub motivation: Option<String>,
    pub voice_style: Option<String>,
    pub created_at: String,
    pub updated_at: String,
}

/// A content snapshot for undo and comparison.
#[derive(Debug)]
pub struct Snapshot {
    pub id: String,
    pub target_type: String,
    pub target_id: String,
    pub content: String,
    pub content_hash: String,
    pub note: Option<String>,
    pub created_at: String,
}

/// The stored API endpoints and keys.
#[derive(Debug)]
pub struct ApiConfig {
    pub deepseek_api_key: Option<String>,
    pub deepseek_base_url: String,
    pub deepseek_model: String,
    pub pollinations_api_key: Option<String>,
    pub pollinations_base_url: String,
}

impl Default for ApiConfig {
    /// No keys, the stock endpoints and model.
    fn default() -> (r: ApiConfig)
        ensures
            r.deepseek_api_key is None,
            r.deepseek_base_url@ == "https://api.deepseek.com/v1"@,
            r.deepseek_model@ == "deepseek-chat"@,
            r.pollinations_api_key is None,
            r.pollinations_base_url@ == "https://image.pollinations.ai"@,
    {
        ApiConfig {
            deepseek_api_key: None,
            deepseek_base_url: String::from_str("https://api.deepseek.com/v1"),
            deepseek_model: String::from_str("deepseek-chat"),
            pollinations_api_key: None,
            pollinations_base_url: String::from_str("https://image.pollinations.ai"),
        }
    }
}

/// The language a project is normalized to: `en` exactly when the caller
/// named English (any case, surrounding whitespace ignored), `zh` otherwise.
pub open spec fn normalized_language_spec(input: Option<Seq<char>>) -> Seq<char> {
    match input {
        Some(s) => if lower_spec(trim_spec(s)) == "en"@ {
            "en"@
        } else {
            "zh"@
        },
        None => "zh"@,
    }
}

/// Normalize a project's language setting.
pub fn normalize_project_language(input: Option<&str>) -> (r: String)
    ensures
        r@ == normalized_language_spec(
            match input {
                Some(s) => Some(s@),
                None => None,
            },
        ),
{
    match input {
        Some(s) => {
            let lowered = crate::text::ascii_lowercase(crate::text::trim_str(s));
            let en = String::from_str("en");
            if lowered.eq(&en) {
                en
            } else {
                String::from_str("zh")
            }
        },
        None => String::from_str("zh"),
    }
}

/// Relies on `uuid::Uuid::new_v4` and its `Display` form: a random
/// version-4 UUID written in the standard 36-character hyphenated form.
#[verifier::external_body]
fn new_uuid_string() -> (r: String)
    ensures
        r@.len() == 36,
{
    uuid::Uuid::new_v4().to_string()
}

/// Relies on `chrono::Utc::now` and `DateTime::to_rfc3339`: the current
/// time written in RFC 3339 form. The result depends on the clock, so
/// nothing is assumed of it.
#[verifier::external_body]
fn now_rfc3339() -> (r: String)
{
    chrono::Utc::now().to_rfc3339()
}

/// Project persistence. Running the statements against the store is the
/// caller's affair; the record a new project starts from is built here.
pub struct ProjectService;

impl ProjectService {
    /// The record of a new project: a fresh id, the caller's fields, the
    /// language normalized, no words counted yet, status `draft`, created
    /// and updated at the same instant.
    pub fn new_project(input: CreateProjectInput) -> (r: Project)
        ensures
            r.id@.len() == 36,
            r.title == input.title,
            r.author == input.author,
            r.genre == input.genre,
            r.description == input.description,
            r.language@ == normalized_language_spec(
                match input.language {
                    Some(s) => Some(s@),
                    None => None,
                },
            ),
            r.target_word_count == input.target_word_count,
            r.current_word_count == 0,
            r.status@ == "draft"@,
            r.created_at == r.updated_at,
            r.cover_images == input.cover_images,
            r.default_cover_id == input.default_cover_id,
    {
        let language = normalize_project_language(
            match &input.language {
                Some(s) => Some(s.as_str()),
                None => None,
            },
        );
        let now = now_rfc3339();
        Project {
            id: new_uuid_string(),
            title: input.title,
            author: input.author,
            genre: input.genre,
            description: input.description,
            language,
            target_word_count: input.target_word_count,
            current_word_count: 0,
            status: String::from_str("draft"),
            created_at: now.clone(),
            updated_at: now,
            cover_images: input.cover_images,
            default_cover_id: input.default_cover_id,
        }
    }
}

/// The number of non-whitespace characters of a text: how words are counted
/// for the store.
pub open spec fn word_count_spec(s: Seq<char>) -> nat
    decreases s.len(),
{
    if s.len() == 0 {
        0
    } else {
        word_count_spec(s.drop_last()) + (if is_space_char(s.last()) {
            0nat
        } else {
            1nat
        })
    }
}

/// Count the non-whitespace characters of a text.
pub fn count_words(text: &str) -> (r: usize)
    ensures
        r as nat == word_count_spec(text@),
{
    let len = text.unicode_len();
    let mut count: usize = 0;
    let mut i: usize = 0;
    while i < len
        invariant
            i <= len,
            len == text@.len(),
            count as nat == word_count_spec(text@.take(i as int)),
            count <= i,
        decreases len - i,
    {
        let c = text.get_char(i);
        proof {
            assert(text@.take(i as int + 1).drop_last() =~= text@.take(i as int));
            assert(text@.take(i as int + 1).last() == text@[i as int]);
        }
        if !crate::text::is_space_exec(c) {
            count = count + 1;
        }
        i = i + 1;
    }
    proof {
        assert(text@.take(len as int) =~= text@);
    }
    count
}

/// Chapter persistence. Running the statements against the store is the
/// caller's affair; the record a new chapter starts from, and the word
/// count stored with a text update, are built here.
pub struct ChapterService;

impl ChapterService {
    /// The record of a new chapter: a fresh id, the caller's fields, no text
    /// yet, no words counted, status `draft`, created and updated at the
    /// same instant.
    pub fn new_chapter(input: CreateChapterInput) -> (r: Chapter)
        ensures
            r.id@.len() == 36,
            r.project_id == input.project_id,
            r.title == input.title,
            r.order_index == input.order_index,
            r.outline_goal == input.outline_goal,
            r.conflict == input.conflict,
            r.twist is None,
            r.cliffhanger is None,
            r.draft_text is None,
            r.final_text is None,
            r.illustrations is None,
            r.word_count == 0,
            r.status@ == "draft"@,
            r.created_at == r.updated_at,
    {
        let now = now_rfc3339();
        Chapter {
            id: new_uuid_string(),
            project_id: input.project_id,
            title: input.title,
            order_index: input.order_index,
            outline_goal: input.outline_goal,
            conflict: input.conflict,
            twist: None,
            cliffhanger: None,
            draft_text: None,
            final_text: None,
            illustrations: None,
            word_count: 0,
            status: String::from_str("draft"),
            created_at: now.clone(),
            updated_at: now,
        }
    }

    /// The word count stored with a text update: counted over the final
    /// text when there is one, else over the draft, else zero.
    pub fn updated_word_count(draft_text: Option<&str>, final_text: Option<&str>) -> (r: usize)
        ensures
            r as nat == match (final_text, draft_text) {
                (Some(f), _) => word_count_spec(f@),
                (None, Some(d)) => word_count_spec(d@),
                (None, None) => 0,
            },
    {
        match final_text {
            Some(f) => count_words(f),
            None => match draft_text {
                Some(d) => count_words(d),
                None => 0,
            },
        }
    }
}

} // verus!
