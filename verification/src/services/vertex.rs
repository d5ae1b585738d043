//! Vertex AI: access tokens, supported media types, and the messages of the API.

use vstd::prelude::*;
use crate::clock::now_millis;
use crate::error::AppError;
use crate::encoding::{base64_encoded, encode_base64};
use crate::text::{all_ascii, ascii_lower, decimal, lowercase, owned, push_str, str_eq, to_lowercase, u64_to_decimal};

verus! {

// ---------------------------------------------------------------------------------------
// Access token

/// An OAuth2 access token and the moment (milliseconds since the Unix epoch) from which it
/// counts as expired.
#[derive(Debug, Clone)]
pub struct CachedToken {
    pub access_token: String,
    pub expires_at: u64,
}

/// The moment from which a token obtained at `now` for `expires_in_seconds` counts as
/// expired: one minute before its real expiry.
pub open spec fn expiry_of(now: u64, expires_in_seconds: u64) -> int {
    let margin: int = if expires_in_seconds >= 60 {
        expires_in_seconds - 60
    } else {
        0
    };
    now + margin * 1000
}

/// Whether a token counts as expired at `now` (milliseconds): its expiry has been reached.
pub open spec fn expired_at(t: CachedToken, now: u64) -> bool {
    now >= t.expires_at
}

impl CachedToken {
    /// A token obtained at `now` that is valid for `expires_in_seconds`, with one minute of
    /// margin.
    pub fn new_at(access_token: String, expires_in_seconds: u64, now: u64) -> (r: Self)
        requires
            expiry_of(now, expires_in_seconds) <= u64::MAX,
        ensures
            r.access_token == access_token,
            r.expires_at == expiry_of(now, expires_in_seconds),
    {
        let margin = expires_in_seconds.saturating_sub(60);
        assert(margin * 1000 <= u64::MAX - now);
        CachedToken { access_token, expires_at: now + margin * 1000 }
    }

    /// A token obtained now that is valid for `expires_in_seconds`, with one minute of
    /// margin. An expiry beyond the range of the clock is held at its end.
    pub fn new(access_token: String, expires_in_seconds: u64) -> (r: Self)
        ensures
            r.access_token == access_token,
            exists|now: u64|
                r.expires_at == if expiry_of(now, expires_in_seconds) <= u64::MAX {
                    expiry_of(now, expires_in_seconds)
                } else {
                    u64::MAX as int
                },
    {
        let now = now_millis();
        let margin = expires_in_seconds.saturating_sub(60);
        if margin <= (u64::MAX - now) / 1000 {
            proof {
                assert(margin * 1000 <= u64::MAX - now) by (nonlinear_arith)
                    requires
                        margin <= (u64::MAX - now) / 1000,
                        now <= u64::MAX,
                ;
            }
            let r = Self::new_at(access_token, expires_in_seconds, now);
            assert(expiry_of(now, expires_in_seconds) <= u64::MAX);
            r
        } else {
            proof {
                assert(margin * 1000 > u64::MAX - now) by (nonlinear_arith)
                    requires
                        margin > (u64::MAX - now) / 1000,
                        now <= u64::MAX,
                ;
            }
            assert(expiry_of(now, expires_in_seconds) > u64::MAX);
            CachedToken { access_token, expires_at: u64::MAX }
        }
    }

    /// Whether the token counts as expired at `now`.
    pub fn is_expired_at(&self, now: u64) -> (r: bool)
        ensures
            r == expired_at(*self, now),
    {
        now >= self.expires_at
    }

    /// Whether the token counts as expired now: whether the clock (milliseconds since the
    /// Unix epoch) has reached its expiry.
    pub fn is_expired(&self) -> (r: bool)
        ensures
            exists|now: u64| r == expired_at(*self, now),
    {
        self.is_expired_at(now_millis())
    }
}

// ---------------------------------------------------------------------------------------
// Media types

/// The media types that Vertex AI accepts.
#[derive(Debug, Clone, Copy, PartialEq, Eq, Structural)]
pub enum SupportedMimeType {
    ImageJpeg,
    ImagePng,
    ImageWebp,
    ImageGif,
    VideoMp4,
    VideoQuicktime,
    VideoMpeg,
    VideoWebm,
    AudioMp3,
    AudioMpeg,
    AudioWav,
    AudioAac,
    ApplicationPdf,
}

/// The supported type that a lowercased MIME type names.
pub open spec fn mime_of_lowercase(m: Seq<char>) -> Option<SupportedMimeType> {
    if m == "image/jpeg"@ || m == "image/jpg"@ {
        Some(SupportedMimeType::ImageJpeg)
    } else if m == "image/png"@ {
        Some(SupportedMimeType::ImagePng)
    } else if m == "image/webp"@ {
        Some(SupportedMimeType::ImageWebp)
    } else if m == "image/gif"@ {
        Some(SupportedMimeType::ImageGif)
    } else if m == "video/mp4"@ {
        Some(SupportedMimeType::VideoMp4)
    } else if m == "video/quicktime"@ || m == "video/mov"@ {
        Some(SupportedMimeType::VideoQuicktime)
    } else if m == "video/mpeg"@ {
        Some(SupportedMimeType::VideoMpeg)
    } else if m == "video/webm"@ {
        Some(SupportedMimeType::VideoWebm)
    } else if m == "audio/mp3"@ || m == "audio/mpeg"@ {
        Some(SupportedMimeType::AudioMp3)
    } else if m == "audio/wav"@ {
        Some(SupportedMimeType::AudioWav)
    } else if m == "audio/aac"@ {
        Some(SupportedMimeType::AudioAac)
    } else if m == "application/pdf"@ {
        Some(SupportedMimeType::ApplicationPdf)
    } else {
        None
    }
}

/// The MIME type written for a supported type.
pub open spec fn mime_text(t: SupportedMimeType) -> Seq<char> {
    match t {
        SupportedMimeType::ImageJpeg => "image/jpeg"@,
        SupportedMimeType::ImagePng => "image/png"@,
        SupportedMimeType::ImageWebp => "image/webp"@,
        SupportedMimeType::ImageGif => "image/gif"@,
        SupportedMimeType::VideoMp4 => "video/mp4"@,
        SupportedMimeType::VideoQuicktime => "video/quicktime"@,
        SupportedMimeType::VideoMpeg => "video/mpeg"@,
        SupportedMimeType::VideoWebm => "video/webm"@,
        SupportedMimeType::AudioMp3 => "audio/mpeg"@,
        SupportedMimeType::AudioMpeg => "audio/mpeg"@,
        SupportedMimeType::AudioWav => "audio/wav"@,
        SupportedMimeType::AudioAac => "audio/aac"@,
        SupportedMimeType::ApplicationPdf => "application/pdf"@,
    }
}

impl SupportedMimeType {
    /// The supported type that a MIME type names, compared without regard to case.
    pub fn from_str(mime_str: &str) -> (r: Option<Self>)
        ensures
            r == mime_of_lowercase(lowercase(mime_str@)),
            all_ascii(mime_str@) ==> r == mime_of_lowercase(ascii_lower(mime_str@)),
    {
        let l = to_lowercase(mime_str);
        let m = l.as_str();
        if str_eq(m, "image/jpeg") || str_eq(m, "image/jpg") {
            Some(Self::ImageJpeg)
        } else if str_eq(m, "image/png") {
            Some(Self::ImagePng)
        } else if str_eq(m, "image/webp") {
            Some(Self::ImageWebp)
        } else if str_eq(m, "image/gif") {
            Some(Self::ImageGif)
        } else if str_eq(m, "video/mp4") {
            Some(Self::VideoMp4)
        } else if str_eq(m, "video/quicktime") || str_eq(m, "video/mov") {
            Some(Self::VideoQuicktime)
        } else if str_eq(m, "video/mpeg") {
            Some(Self::VideoMpeg)
        } else if str_eq(m, "video/webm") {
            Some(Self::VideoWebm)
        } else if str_eq(m, "audio/mp3") || str_eq(m, "audio/mpeg") {
            Some(Self::AudioMp3)
        } else if str_eq(m, "audio/wav") {
            Some(Self::AudioWav)
        } else if str_eq(m, "audio/aac") {
            Some(Self::AudioAac)
        } else if str_eq(m, "application/pdf") {
            Some(Self::ApplicationPdf)
        } else {
            None
        }
    }

    /// The MIME type written for this type.
    pub fn to_string(&self) -> (r: &'static str)
        ensures
            r@ == mime_text(*self),
    {
        match self {
            Self::ImageJpeg => "image/jpeg",
            Self::ImagePng => "image/png",
            Self::ImageWebp => "image/webp",
            Self::ImageGif => "image/gif",
            Self::VideoMp4 => "video/mp4",
            Self::VideoQuicktime => "video/quicktime",
            Self::VideoMpeg => "video/mpeg",
            Self::VideoWebm => "video/webm",
            Self::AudioMp3 => "audio/mpeg",
            Self::AudioMpeg => "audio/mpeg",
            Self::AudioWav => "audio/wav",
            Self::AudioAac => "audio/aac",
            Self::ApplicationPdf => "application/pdf",
        }
    }

    /// Whether this is an image type.
    pub fn is_image(&self) -> (r: bool)
        ensures
            r == (*self == Self::ImageJpeg || *self == Self::ImagePng || *self == Self::ImageWebp
                || *self == Self::ImageGif),
    {
        matches!(self, Self::ImageJpeg | Self::ImagePng | Self::ImageWebp | Self::ImageGif)
    }

    /// Whether this is a video type.
    pub fn is_video(&self) -> (r: bool)
        ensures
            r == (*self == Self::VideoMp4 || *self == Self::VideoQuicktime || *self
                == Self::VideoMpeg || *self == Self::VideoWebm),
    {
        matches!(self, Self::VideoMp4 | Self::VideoQuicktime | Self::VideoMpeg | Self::VideoWebm)
    }

    /// Whether this is an audio type.
    pub fn is_audio(&self) -> (r: bool)
        ensures
            r == (*self == Self::AudioMp3 || *self == Self::AudioMpeg || *self == Self::AudioWav
                || *self == Self::AudioAac),
    {
        matches!(self, Self::AudioMp3 | Self::AudioMpeg | Self::AudioWav | Self::AudioAac)
    }

    /// Whether this is a document type.
    pub fn is_document(&self) -> (r: bool)
        ensures
            r == (*self == Self::ApplicationPdf),
    {
        matches!(self, Self::ApplicationPdf)
    }
}

// ---------------------------------------------------------------------------------------
// Messages of the API

/// Media sent inline, Base64-encoded.
#[derive(Debug, Clone)]
pub struct InlineData {
    pub mime_type: String,
    pub data: String,
}

/// A part of a message: text or media.
#[derive(Debug, Clone)]
pub enum Part {
    Text(String),
    InlineData(InlineData),
}

/// A message and its author's role.
#[derive(Debug, Clone)]
pub struct Content {
    pub role: String,
    pub parts: Vec<Part>,
}

/// A safety rating of a candidate.
#[derive(Debug, Clone)]
pub struct SafetyRating {
    pub category: String,
    pub probability: String,
}

/// Tokens that a request used.
#[derive(Debug, Clone)]
pub struct UsageMetadata {
    pub prompt_token_count: i32,
    pub candidates_token_count: i32,
    pub total_token_count: i32,
}

/// A candidate answer.
#[derive(Debug, Clone)]
pub struct Candidate {
    pub content: Content,
    pub finish_reason: String,
    pub safety_ratings: Vec<SafetyRating>,
}

/// An answer of Vertex AI.
#[derive(Debug, Clone)]
pub struct VertexAIResponse {
    pub candidates: Vec<Candidate>,
    pub usage_metadata: UsageMetadata,
}

/// The text of the first text part.
pub open spec fn first_text(parts: Seq<Part>) -> Option<Seq<char>>
    decreases parts.len(),
{
    if parts.len() == 0 {
        None
    } else {
        match parts[0] {
            Part::Text(t) => Some(t@),
            _ => first_text(parts.drop_first()),
        }
    }
}

impl Content {
    /// A user message with the prompt as its first part, followed by the media parts.
    pub fn user_prompt(prompt: &str, media_parts: Vec<Part>) -> (r: Content)
        ensures
            r.role@ == "user"@,
            r.parts@.len() == media_parts@.len() + 1,
            r.parts@[0] matches Part::Text(t) && t@ == prompt@,
            r.parts@.drop_first() == media_parts@,
    {
        let mut parts = media_parts;
        parts.insert(0, Part::Text(owned(prompt)));
        assert(parts@.drop_first() =~= media_parts@);
        Content { role: owned("user"), parts }
    }
}

/// Adds a media part to the first message, when there is one.
pub fn add_media(contents: &mut Vec<Content>, media_part: Part)
    ensures
        old(contents)@.len() == 0 ==> final(contents)@ == old(contents)@,
        old(contents)@.len() > 0 ==> {
            &&& final(contents)@.len() == old(contents)@.len()
            &&& final(contents)@.drop_first() == old(contents)@.drop_first()
            &&& final(contents)@[0].role == old(contents)@[0].role
            &&& final(contents)@[0].parts@ == old(contents)@[0].parts@.push(media_part)
        },
{
    if contents.len() > 0 {
        let mut first = contents.remove(0);
        first.parts.push(media_part);
        contents.insert(0, first);
    }
}

impl VertexAIResponse {
    /// The text of the first text part of the first candidate.
    pub fn get_text(&self) -> (r: Option<String>)
        ensures
            self.candidates@.len() == 0 ==> r.is_none(),
            self.candidates@.len() > 0 ==> crate::services::prompts::opt_view(r) == first_text(
                self.candidates@[0].content.parts@,
            ),
    {
        if self.candidates.len() == 0 {
            return None;
        }
        let parts = &self.candidates[0].content.parts;
        let mut i: usize = 0;
        assert(parts@.skip(0) == parts@);
        while i < parts.len()
            invariant
                self.candidates@.len() > 0,
                parts@ == self.candidates@[0].content.parts@,
                i <= parts@.len(),
                first_text(parts@) == first_text(parts@.skip(i as int)),
            decreases parts@.len() - i,
        {
            assert(parts@.skip(i as int)[0] == parts@[i as int]);
            match &parts[i] {
                Part::Text(t) => {
                    return Some(t.clone());
                },
                _ => {},
            }
            assert(parts@.skip(i as int).drop_first() == parts@.skip(i + 1));
            i = i + 1;
        }
        None
    }

    /// Whether the first candidate was stopped by the safety filters.
    pub fn is_blocked(&self) -> (r: bool)
        ensures
            r == (self.candidates@.len() > 0 && self.candidates@[0].finish_reason@ == "SAFETY"@),
    {
        if self.candidates.len() == 0 {
            false
        } else {
            str_eq(self.candidates[0].finish_reason.as_str(), "SAFETY")
        }
    }

    /// Why the first candidate finished.
    pub fn finish_reason(&self) -> (r: Option<&str>)
        ensures
            self.candidates@.len() == 0 ==> r.is_none(),
            self.candidates@.len() > 0 ==> (r matches Some(s) && s@ == self.candidates@[0].finish_reason@),
    {
        if self.candidates.len() == 0 {
            None
        } else {
            Some(self.candidates[0].finish_reason.as_str())
        }
    }
}

/// The largest media file sent inline, in bytes.
pub open spec fn max_media_bytes() -> nat {
    10 * 1024 * 1024
}

/// The `content-type` of an answer, `application/octet-stream` when absent.
pub open spec fn content_type_or_default(content_type: Option<&str>) -> Seq<char> {
    match content_type {
        Some(c) => c@,
        None => "application/octet-stream"@,
    }
}

/// The supported type of a downloaded file from its `content-type` header, which counts as
/// `application/octet-stream` when absent; an unsupported type is an error that names it.
pub fn media_type_of_response(content_type: Option<&str>) -> (r: Result<SupportedMimeType, AppError>)
    ensures
        match mime_of_lowercase(lowercase(content_type_or_default(content_type))) {
            Some(t) => r matches Ok(x) && x == t,
            None => r matches Err(AppError::VertexError(m)) && m@ == "Tipo MIME não suportado: "@
                + content_type_or_default(content_type),
        },
{
    let ct = match content_type {
        Some(c) => c,
        None => "application/octet-stream",
    };
    match SupportedMimeType::from_str(ct) {
        Some(t) => Ok(t),
        None => {
            let mut m = owned("Tipo MIME não suportado: ");
            push_str(&mut m, ct);
            Err(AppError::VertexError(m))
        },
    }
}

/// The inline part of a downloaded file: its bytes in Base64 with its type; a file over
/// ten megabytes is refused with its size.
pub fn inline_media_part(bytes: &[u8], mime: SupportedMimeType) -> (r: Result<Part, AppError>)
    ensures
        bytes@.len() > max_media_bytes() ==> (r matches Err(AppError::VertexError(m))
            && m@ == "Arquivo muito grande: "@ + decimal(bytes@.len()) + " bytes (máximo 10MB)"@),
        bytes@.len() <= max_media_bytes() ==> (r matches Ok(Part::InlineData(d))
            && d.mime_type@ == mime_text(mime) && d.data@ == base64_encoded(bytes@)),
{
    if bytes.len() > 10 * 1024 * 1024 {
        let mut m = owned("Arquivo muito grande: ");
        let n = u64_to_decimal(bytes.len() as u64);
        push_str(&mut m, n.as_str());
        push_str(&mut m, " bytes (máximo 10MB)");
        Err(AppError::VertexError(m))
    } else {
        let data = encode_base64(bytes);
        Ok(Part::InlineData(InlineData { mime_type: owned(mime.to_string()), data }))
    }
}

/// Reading back the MIME type written for a supported type gives that type; `audio/mpeg`,
/// written for both MP3 types, reads back as [`SupportedMimeType::AudioMp3`]. Every
/// written type is ASCII, so [`SupportedMimeType::from_str`] reads it by its ASCII
/// lowercase form.
pub proof fn lemma_mime_round_trip(m: SupportedMimeType)
    ensures
        all_ascii(mime_text(m)),
        mime_of_lowercase(ascii_lower(mime_text(m))) == if m == SupportedMimeType::AudioMpeg {
            Some(SupportedMimeType::AudioMp3)
        } else {
            Some(m)
        },
{
    match m {
        SupportedMimeType::ImageJpeg => {
        reveal_strlit("image/jpeg");
        assert(all_ascii("image/jpeg"@));
        assert(ascii_lower("image/jpeg"@) =~= "image/jpeg"@);
        },
        SupportedMimeType::ImagePng => {
        reveal_strlit("image/png");
        assert(all_ascii("image/png"@));
        assert(ascii_lower("image/png"@) =~= "image/png"@);
        reveal_strlit("image/jpeg");
        reveal_strlit("image/jpg");
        assert("image/png"@[6] != "image/jpg"@[6]);
        },
        SupportedMimeType::ImageWebp => {
        reveal_strlit("image/webp");
        assert(all_ascii("image/webp"@));
        assert(ascii_lower("image/webp"@) =~= "image/webp"@);
        reveal_strlit("image/jpeg");
        assert("image/webp"@[6] != "image/jpeg"@[6]);
        reveal_strlit("image/jpg");
        reveal_strlit("image/png");
        },
        SupportedMimeType::ImageGif => {
        reveal_strlit("image/gif");
        assert(all_ascii("image/gif"@));
        assert(ascii_lower("image/gif"@) =~= "image/gif"@);
        reveal_strlit("image/jpeg");
        reveal_strlit("image/jpg");
        assert("image/gif"@[6] != "image/jpg"@[6]);
        reveal_strlit("image/png");
        assert("image/gif"@[6] != "image/png"@[6]);
        reveal_strlit("image/webp");
        },
        SupportedMimeType::VideoMp4 => {
        reveal_strlit("video/mp4");
        assert(all_ascii("video/mp4"@));
        assert(ascii_lower("video/mp4"@) =~= "video/mp4"@);
        reveal_strlit("image/jpeg");
        reveal_strlit("image/jpg");
        assert("video/mp4"@[0] != "image/jpg"@[0]);
        reveal_strlit("image/png");
        assert("video/mp4"@[0] != "image/png"@[0]);
        reveal_strlit("image/webp");
        reveal_strlit("image/gif");
        assert("video/mp4"@[0] != "image/gif"@[0]);
        },
        SupportedMimeType::VideoQuicktime => {
        reveal_strlit("video/quicktime");
        assert(all_ascii("video/quicktime"@));
        assert(ascii_lower("video/quicktime"@) =~= "video/quicktime"@);
        reveal_strlit("image/jpeg");
        reveal_strlit("image/jpg");
        reveal_strlit("image/png");
        reveal_strlit("image/webp");
        reveal_strlit("image/gif");
        reveal_strlit("video/mp4");
        },
        SupportedMimeType::VideoMpeg => {
        reveal_strlit("video/mpeg");
        assert(all_ascii("video/mpeg"@));
        assert(ascii_lower("video/mpeg"@) =~= "video/mpeg"@);
        reveal_strlit("image/jpeg");
        assert("video/mpeg"@[0] != "image/jpeg"@[0]);
        reveal_strlit("image/jpg");
        reveal_strlit("image/png");
        reveal_strlit("image/webp");
        assert("video/mpeg"@[0] != "image/webp"@[0]);
        reveal_strlit("image/gif");
        reveal_strlit("video/mp4");
        reveal_strlit("video/quicktime");
        reveal_strlit("video/mov");
        },
        SupportedMimeType::VideoWebm => {
        reveal_strlit("video/webm");
        assert(all_ascii("video/webm"@));
        assert(ascii_lower("video/webm"@) =~= "video/webm"@);
        reveal_strlit("image/jpeg");
        assert("video/webm"@[0] != "image/jpeg"@[0]);
        reveal_strlit("image/jpg");
        reveal_strlit("image/png");
        reveal_strlit("image/webp");
        assert("video/webm"@[0] != "image/webp"@[0]);
        reveal_strlit("image/gif");
        reveal_strlit("video/mp4");
        reveal_strlit("video/quicktime");
        reveal_strlit("video/mov");
        reveal_strlit("video/mpeg");
        assert("video/webm"@[6] != "video/mpeg"@[6]);
        },
        SupportedMimeType::AudioMp3 => {
        reveal_strlit("audio/mpeg");
        assert(all_ascii("audio/mpeg"@));
        assert(ascii_lower("audio/mpeg"@) =~= "audio/mpeg"@);
        reveal_strlit("image/jpeg");
        assert("audio/mpeg"@[0] != "image/jpeg"@[0]);
        reveal_strlit("image/jpg");
        reveal_strlit("image/png");
        reveal_strlit("image/webp");
        assert("audio/mpeg"@[0] != "image/webp"@[0]);
        reveal_strlit("image/gif");
        reveal_strlit("video/mp4");
        reveal_strlit("video/quicktime");
        reveal_strlit("video/mov");
        reveal_strlit("video/mpeg");
        assert("audio/mpeg"@[0] != "video/mpeg"@[0]);
        reveal_strlit("video/webm");
        assert("audio/mpeg"@[0] != "video/webm"@[0]);
        reveal_strlit("audio/mp3");
        },
        SupportedMimeType::AudioMpeg => {
        reveal_strlit("audio/mpeg");
        assert(all_ascii("audio/mpeg"@));
        assert(ascii_lower("audio/mpeg"@) =~= "audio/mpeg"@);
        reveal_strlit("image/jpeg");
        assert("audio/mpeg"@[0] != "image/jpeg"@[0]);
        reveal_strlit("image/jpg");
        reveal_strlit("image/png");
        reveal_strlit("image/webp");
        assert("audio/mpeg"@[0] != "image/webp"@[0]);
        reveal_strlit("image/gif");
        reveal_strlit("video/mp4");
        reveal_strlit("video/quicktime");
        reveal_strlit("video/mov");
        reveal_strlit("video/mpeg");
        assert("audio/mpeg"@[0] != "video/mpeg"@[0]);
        reveal_strlit("video/webm");
        assert("audio/mpeg"@[0] != "video/webm"@[0]);
        reveal_strlit("audio/mp3");
        },
        SupportedMimeType::AudioWav => {
        reveal_strlit("audio/wav");
        assert(all_ascii("audio/wav"@));
        assert(ascii_lower("audio/wav"@) =~= "audio/wav"@);
        reveal_strlit("image/jpeg");
        reveal_strlit("image/jpg");
        assert("audio/wav"@[0] != "image/jpg"@[0]);
        reveal_strlit("image/png");
        assert("audio/wav"@[0] != "image/png"@[0]);
        reveal_strlit("image/webp");
        reveal_strlit("image/gif");
        assert("audio/wav"@[0] != "image/gif"@[0]);
        reveal_strlit("video/mp4");
        assert("audio/wav"@[0] != "video/mp4"@[0]);
        reveal_strlit("video/quicktime");
        reveal_strlit("video/mov");
        assert("audio/wav"@[0] != "video/mov"@[0]);
        reveal_strlit("video/mpeg");
        reveal_strlit("video/webm");
        reveal_strlit("audio/mp3");
        assert("audio/wav"@[6] != "audio/mp3"@[6]);
        reveal_strlit("audio/mpeg");
        },
        SupportedMimeType::AudioAac => {
        reveal_strlit("audio/aac");
        assert(all_ascii("audio/aac"@));
        assert(ascii_lower("audio/aac"@) =~= "audio/aac"@);
        reveal_strlit("image/jpeg");
        reveal_strlit("image/jpg");
        assert("audio/aac"@[0] != "image/jpg"@[0]);
        reveal_strlit("image/png");
        assert("audio/aac"@[0] != "image/png"@[0]);
        reveal_strlit("image/webp");
        reveal_strlit("image/gif");
        assert("audio/aac"@[0] != "image/gif"@[0]);
        reveal_strlit("video/mp4");
        assert("audio/aac"@[0] != "video/mp4"@[0]);
        reveal_strlit("video/quicktime");
        reveal_strlit("video/mov");
        assert("audio/aac"@[0] != "video/mov"@[0]);
        reveal_strlit("video/mpeg");
        reveal_strlit("video/webm");
        reveal_strlit("audio/mp3");
        assert("audio/aac"@[6] != "audio/mp3"@[6]);
        reveal_strlit("audio/mpeg");
        reveal_strlit("audio/wav");
        assert("audio/aac"@[6] != "audio/wav"@[6]);
        },
        SupportedMimeType::ApplicationPdf => {
        reveal_strlit("application/pdf");
        assert(all_ascii("application/pdf"@));
        assert(ascii_lower("application/pdf"@) =~= "application/pdf"@);
        reveal_strlit("image/jpeg");
        reveal_strlit("image/jpg");
        reveal_strlit("image/png");
        reveal_strlit("image/webp");
        reveal_strlit("image/gif");
        reveal_strlit("video/mp4");
        reveal_strlit("video/quicktime");
        assert("application/pdf"@[0] != "video/quicktime"@[0]);
        reveal_strlit("video/mov");
        reveal_strlit("video/mpeg");
        reveal_strlit("video/webm");
        reveal_strlit("audio/mp3");
        reveal_strlit("audio/mpeg");
        reveal_strlit("audio/wav");
        reveal_strlit("audio/aac");
        },
    }
}

} // verus!
