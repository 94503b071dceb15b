//! WeChat CDN media message types, inbound attachment extraction, outbound
//! media item construction and media payload encryption.
use vstd::prelude::*;
use vstd::utf8::encode_utf8;
use crate::crypto::{
    aes256_cbc_encrypt, aes256_cbc_pkcs7, base64_encode, base64_standard_encoded, hex_decode, hex_decoded,
    hex_encode, hex_lower, md5, md5_digest, random_bytes,
};
use crate::gateway::platforms::weixin_auth::{signed_decimal, signed_decimal_string};
use crate::json::{json_text, Json};
use crate::text::{
    chars_eq_str, chars_of, clone_opt, clone_string, decimal, decimal_string, lemma_parse_decimal, lower_text,
    opt_view, parse_u64, parse_u64_spec, slice_chars, string_from_chars, to_lowercase,
};

verus! {

/// Message item type: text.
pub const MESSAGE_ITEM_TEXT: i32 = 1;
/// Message item type: image.
pub const MESSAGE_ITEM_IMAGE: i32 = 2;
/// Message item type: voice.
pub const MESSAGE_ITEM_VOICE: i32 = 3;
/// Message item type: file.
pub const MESSAGE_ITEM_FILE: i32 = 4;
/// Message item type: video.
pub const MESSAGE_ITEM_VIDEO: i32 = 5;
/// Upload media type for images.
pub const UPLOAD_MEDIA_TYPE_IMAGE: i32 = 1;
/// Upload media type for videos.
pub const UPLOAD_MEDIA_TYPE_VIDEO: i32 = 2;
/// Upload media type for files.
pub const UPLOAD_MEDIA_TYPE_FILE: i32 = 3;

/// CDN media resource descriptor shared by all media item types.
#[derive(Debug, Clone, Default)]
pub struct CdnMedia {
    /// Encrypted query parameter used in CDN download/upload URLs.
    pub encrypt_query_param: Option<String>,
    /// AES decryption key (base64).
    pub aes_key: Option<String>,
    /// Encryption type (1 = AES-256-CBC).
    pub encrypt_type: Option<i32>,
}

/// Image media item.
#[derive(Debug, Clone, Default)]
pub struct ImageItem {
    pub media: Option<CdnMedia>,
    pub thumb_media: Option<CdnMedia>,
    /// Alternative AES key (takes priority over `media.aes_key`).
    pub aeskey: Option<String>,
    pub mid_size: Option<String>,
    pub thumb_size: Option<String>,
}

/// Voice media item.
#[derive(Debug, Clone, Default)]
pub struct VoiceItem {
    pub media: Option<CdnMedia>,
    /// Encoding type: 7=mp3, 8=ogg, 5=amr, other=silk.
    pub encode_type: Option<i32>,
    /// Duration in seconds.
    pub playtime: Option<i32>,
    /// Voice-to-text transcription.
    pub text: Option<String>,
}

/// File media item.
#[derive(Debug, Clone, Default)]
pub struct FileItem {
    pub media: Option<CdnMedia>,
    pub file_name: Option<String>,
    /// File size as a decimal string.
    pub len: Option<String>,
}

/// Video media item.
#[derive(Debug, Clone, Default)]
pub struct VideoItem {
    pub media: Option<CdnMedia>,
    pub thumb_media: Option<CdnMedia>,
    pub video_size: Option<String>,
    pub thumb_size: Option<String>,
    pub play_length: Option<i32>,
}

/// Text item.
#[derive(Debug, Clone, Default)]
pub struct TextItem {
    pub text: Option<String>,
}

/// Union-style message item: `item_type` says which `*_item` is populated.
#[derive(Debug, Clone, Default)]
pub struct MessageItem {
    pub item_type: i32,
    pub text_item: Option<TextItem>,
    pub image_item: Option<ImageItem>,
    pub voice_item: Option<VoiceItem>,
    pub file_item: Option<FileItem>,
    pub video_item: Option<VideoItem>,
}

/// Type of media attachment.
#[derive(Debug, Clone, Copy, PartialEq, Eq)]
pub enum MediaType {
    Image,
    Video,
    Voice,
    File,
}

impl MediaType {
    /// The lower-case name of the media type (its `Display` form).
    pub fn as_str(&self) -> (r: &'static str)
        ensures
            r@ == media_type_name(*self),
    {
        match self {
            MediaType::Image => "image",
            MediaType::Video => "video",
            MediaType::Voice => "voice",
            MediaType::File => "file",
        }
    }
}

/// The lower-case name of a media type.
pub open spec fn media_type_name(t: MediaType) -> Seq<char> {
    match t {
        MediaType::Image => "image"@,
        MediaType::Video => "video"@,
        MediaType::Voice => "voice"@,
        MediaType::File => "file"@,
    }
}

/// Structured media attachment extracted from an inbound message.
#[derive(Debug, Clone)]
pub struct MediaAttachment {
    pub media_type: MediaType,
    /// CDN download URL.
    pub url: String,
    pub file_name: Option<String>,
    pub size: Option<u64>,
    /// AES key for decryption (base64).
    pub aes_key: Option<String>,
    pub mime_type: String,
    /// Voice transcription (voice items only).
    pub transcription: Option<String>,
    /// Duration in seconds (voice/video items).
    pub duration_secs: Option<i32>,
}

/// Mathematical view of a [`MediaAttachment`].
pub struct MediaAttachmentView {
    pub media_type: MediaType,
    pub url: Seq<char>,
    pub file_name: Option<Seq<char>>,
    pub size: Option<u64>,
    pub aes_key: Option<Seq<char>>,
    pub mime_type: Seq<char>,
    pub transcription: Option<Seq<char>>,
    pub duration_secs: Option<i32>,
}

impl View for MediaAttachment {
    type V = MediaAttachmentView;

    open spec fn view(&self) -> MediaAttachmentView {
        MediaAttachmentView {
            media_type: self.media_type,
            url: self.url@,
            file_name: opt_view(self.file_name),
            size: self.size,
            aes_key: opt_view(self.aes_key),
            mime_type: self.mime_type@,
            transcription: opt_view(self.transcription),
            duration_secs: self.duration_secs,
        }
    }
}

// ---------------------------------------------------------------------------
// URL and MIME helpers
// ---------------------------------------------------------------------------

/// `s` without trailing `/` characters.
pub open spec fn trim_trailing_slashes(s: Seq<char>) -> Seq<char>
    decreases s.len(),
{
    if s.len() > 0 && s.last() == '/' {
        trim_trailing_slashes(s.drop_last())
    } else {
        s
    }
}

/// The CDN download URL for a base URL and encrypted query parameter.
pub open spec fn cdn_download_url(base: Seq<char>, param: Seq<char>) -> Seq<char> {
    "https://"@ + trim_trailing_slashes(base) + "/download?encrypted_query_param="@ + param
}

/// `s` without trailing `/` characters (`str::trim_end_matches('/')`).
pub fn without_trailing_slashes(s: &str) -> (r: String)
    ensures
        r@ == trim_trailing_slashes(s@),
{
    let cs = chars_of(s);
    let mut j = cs.len();
    assert(cs@.subrange(0, j as int) =~= cs@);
    while j > 0 && cs[j - 1] == '/'
        invariant
            j <= cs@.len(),
            trim_trailing_slashes(cs@) == trim_trailing_slashes(cs@.subrange(0, j as int)),
        decreases j,
    {
        assert(cs@.subrange(0, j as int).drop_last() =~= cs@.subrange(0, j - 1));
        j -= 1;
    }
    string_from_chars(slice_chars(&cs, 0, j).as_slice())
}

/// Builds the CDN download URL from the base URL and encrypted query parameter.
pub fn build_cdn_download_url(cdn_base_url: &str, encrypt_query_param: &str) -> (r: String)
    ensures
        r@ == cdn_download_url(cdn_base_url@, encrypt_query_param@),
{
    let base = without_trailing_slashes(cdn_base_url);
    let mut out = String::from_str("https://");
    out.append(base.as_str());
    out.append("/download?encrypted_query_param=");
    out.append(encrypt_query_param);
    out
}

/// The voice MIME type for an `encode_type`.
pub open spec fn voice_mime(encode_type: Option<i32>) -> Seq<char> {
    match encode_type {
        Some(7) => "audio/mpeg"@,
        Some(8) => "audio/ogg"@,
        Some(5) => "audio/amr"@,
        _ => "audio/silk"@,
    }
}

/// Infers the voice MIME type from the `encode_type` field.
pub fn infer_voice_mime(encode_type: Option<i32>) -> (r: &'static str)
    ensures
        r@ == voice_mime(encode_type),
{
    match encode_type {
        Some(7) => "audio/mpeg",
        Some(8) => "audio/ogg",
        Some(5) => "audio/amr",
        _ => "audio/silk",
    }
}

/// The text after the last `.` of a file name (the whole name when it has
/// no `.`), as `rsplit('.').next()` yields it.
pub open spec fn extension_of(name: Seq<char>) -> Seq<char>
    decreases name.len(),
{
    if name.len() == 0 {
        name
    } else if name.last() == '.' {
        Seq::empty()
    } else {
        extension_of(name.drop_last()).push(name.last())
    }
}

/// The MIME type for a lower-cased file extension.
pub open spec fn mime_for_extension(ext: Seq<char>) -> Seq<char> {
    if ext == "pdf"@ { "application/pdf"@ }
    else if ext == "doc"@ || ext == "docx"@ { "application/msword"@ }
    else if ext == "xls"@ || ext == "xlsx"@ { "application/vnd.ms-excel"@ }
    else if ext == "ppt"@ || ext == "pptx"@ { "application/vnd.ms-powerpoint"@ }
    else if ext == "zip"@ { "application/zip"@ }
    else if ext == "rar"@ { "application/x-rar-compressed"@ }
    else if ext == "7z"@ { "application/x-7z-compressed"@ }
    else if ext == "txt"@ { "text/plain"@ }
    else if ext == "csv"@ { "text/csv"@ }
    else if ext == "json"@ { "application/json"@ }
    else if ext == "xml"@ { "application/xml"@ }
    else if ext == "html"@ || ext == "htm"@ { "text/html"@ }
    else if ext == "png"@ { "image/png"@ }
    else if ext == "jpg"@ || ext == "jpeg"@ { "image/jpeg"@ }
    else if ext == "gif"@ { "image/gif"@ }
    else if ext == "webp"@ { "image/webp"@ }
    else if ext == "svg"@ { "image/svg+xml"@ }
    else if ext == "mp3"@ { "audio/mpeg"@ }
    else if ext == "wav"@ { "audio/wav"@ }
    else if ext == "ogg"@ { "audio/ogg"@ }
    else if ext == "mp4"@ { "video/mp4"@ }
    else if ext == "avi"@ { "video/x-msvideo"@ }
    else if ext == "mkv"@ { "video/x-matroska"@ }
    else if ext == "mov"@ { "video/quicktime"@ }
    else { "application/octet-stream"@ }
}

/// The MIME type for an already lower-cased extension.
pub fn mime_type_for_extension(ext: &str) -> (r: &'static str)
    ensures
        r@ == mime_for_extension(ext@),
{
    let cs = chars_of(ext);
    let e = cs.as_slice();
    if chars_eq_str(e, "pdf") { "application/pdf" }
    else if chars_eq_str(e, "doc") || chars_eq_str(e, "docx") { "application/msword" }
    else if chars_eq_str(e, "xls") || chars_eq_str(e, "xlsx") { "application/vnd.ms-excel" }
    else if chars_eq_str(e, "ppt") || chars_eq_str(e, "pptx") { "application/vnd.ms-powerpoint" }
    else if chars_eq_str(e, "zip") { "application/zip" }
    else if chars_eq_str(e, "rar") { "application/x-rar-compressed" }
    else if chars_eq_str(e, "7z") { "application/x-7z-compressed" }
    else if chars_eq_str(e, "txt") { "text/plain" }
    else if chars_eq_str(e, "csv") { "text/csv" }
    else if chars_eq_str(e, "json") { "application/json" }
    else if chars_eq_str(e, "xml") { "application/xml" }
    else if chars_eq_str(e, "html") || chars_eq_str(e, "htm") { "text/html" }
    else if chars_eq_str(e, "png") { "image/png" }
    else if chars_eq_str(e, "jpg") || chars_eq_str(e, "jpeg") { "image/jpeg" }
    else if chars_eq_str(e, "gif") { "image/gif" }
    else if chars_eq_str(e, "webp") { "image/webp" }
    else if chars_eq_str(e, "svg") { "image/svg+xml" }
    else if chars_eq_str(e, "mp3") { "audio/mpeg" }
    else if chars_eq_str(e, "wav") { "audio/wav" }
    else if chars_eq_str(e, "ogg") { "audio/ogg" }
    else if chars_eq_str(e, "mp4") { "video/mp4" }
    else if chars_eq_str(e, "avi") { "video/x-msvideo" }
    else if chars_eq_str(e, "mkv") { "video/x-matroska" }
    else if chars_eq_str(e, "mov") { "video/quicktime" }
    else { "application/octet-stream" }
}

/// Infers the MIME type from a file name's extension (always `Some`).
pub fn infer_mime_from_extension(filename: &str) -> (r: Option<&'static str>)
    ensures
        r matches Some(m) && m@ == mime_for_extension(lower_text(extension_of(filename@))),
{
    let cs = chars_of(filename);
    let mut j = cs.len();
    assert(cs@.subrange(0, j as int) =~= cs@);
    assert(cs@.subrange(j as int, cs@.len() as int) =~= Seq::<char>::empty());
    while j > 0 && cs[j - 1] != '.'
        invariant
            j <= cs@.len(),
            extension_of(cs@) == extension_of(cs@.subrange(0, j as int)) + cs@.subrange(j as int, cs@.len() as int),
        decreases j,
    {
        assert(cs@.subrange(0, j as int).drop_last() =~= cs@.subrange(0, j - 1));
        assert(cs@.subrange(j - 1, cs@.len() as int) =~= seq![cs@[j - 1]] + cs@.subrange(j as int, cs@.len() as int));
        j -= 1;
    }
    if j > 0 {
        assert(cs@.subrange(0, j as int).last() == '.');
    }
    let ext = string_from_chars(slice_chars(&cs, j, cs.len()).as_slice());
    let lowered = to_lowercase(ext.as_str());
    proof {
        assert(extension_of(cs@.subrange(0, j as int)) =~= Seq::<char>::empty());
        assert(ext@ =~= extension_of(filename@));
    }
    Some(mime_type_for_extension(lowered.as_str()))
}

// ---------------------------------------------------------------------------
// Inbound attachments
// ---------------------------------------------------------------------------

/// A non-empty optional string, or `None`.
pub open spec fn non_empty(o: Option<Seq<char>>) -> Option<Seq<char>> {
    match o {
        Some(s) => if s.len() > 0 { Some(s) } else { None },
        None => None,
    }
}

fn non_empty_opt(o: &Option<String>) -> (r: Option<String>)
    ensures
        opt_view(r) == non_empty(opt_view(*o)),
{
    match o {
        Some(s) => if chars_of(s.as_str()).len() > 0 {
            Some(clone_string(s))
        } else {
            None
        },
        None => None,
    }
}

/// A parsed size field.
pub open spec fn size_of_field(o: Option<String>) -> Option<u64> {
    match o {
        Some(s) => parse_u64_spec(s@),
        None => None,
    }
}

fn parse_size(o: &Option<String>) -> (r: Option<u64>)
    ensures
        r == size_of_field(*o),
{
    match o {
        Some(s) => {
            let cs = chars_of(s.as_str());
            parse_u64(cs.as_slice())
        },
        None => None,
    }
}

/// The download URL of a CDN media descriptor, if it has a query parameter.
pub open spec fn media_url(media: Option<CdnMedia>, base: Seq<char>) -> Option<Seq<char>> {
    match media {
        Some(m) => match m.encrypt_query_param {
            Some(p) => Some(cdn_download_url(base, p@)),
            None => None,
        },
        None => None,
    }
}

/// The AES key of an optional media descriptor.
pub open spec fn media_key(media: Option<CdnMedia>) -> Option<Seq<char>> {
    match media {
        Some(m) => opt_view(m.aes_key),
        None => None,
    }
}

/// The attachment an image item yields.
pub open spec fn image_attachment(img: ImageItem, base: Seq<char>) -> Option<MediaAttachmentView> {
    match media_url(img.media, base) {
        Some(url) => Some(MediaAttachmentView {
            media_type: MediaType::Image,
            url,
            file_name: None,
            size: size_of_field(img.mid_size),
            aes_key: match img.aeskey {
                Some(k) => non_empty(Some(k@)),
                None => non_empty(media_key(img.media)),
            },
            mime_type: "image/jpeg"@,
            transcription: None,
            duration_secs: None,
        }),
        None => None,
    }
}

/// The attachment a voice item yields.
pub open spec fn voice_attachment(v: VoiceItem, base: Seq<char>) -> Option<MediaAttachmentView> {
    match media_url(v.media, base) {
        Some(url) => Some(MediaAttachmentView {
            media_type: MediaType::Voice,
            url,
            file_name: None,
            size: None,
            aes_key: non_empty(media_key(v.media)),
            mime_type: voice_mime(v.encode_type),
            transcription: non_empty(opt_view(v.text)),
            duration_secs: v.playtime,
        }),
        None => None,
    }
}

/// The attachment a file item yields.
pub open spec fn file_attachment(f: FileItem, base: Seq<char>) -> Option<MediaAttachmentView> {
    match media_url(f.media, base) {
        Some(url) => Some(MediaAttachmentView {
            media_type: MediaType::File,
            url,
            file_name: non_empty(opt_view(f.file_name)),
            size: size_of_field(f.len),
            aes_key: non_empty(media_key(f.media)),
            mime_type: match non_empty(opt_view(f.file_name)) {
                Some(n) => mime_for_extension(lower_text(extension_of(n))),
                None => "application/octet-stream"@,
            },
            transcription: None,
            duration_secs: None,
        }),
        None => None,
    }
}

/// The attachment a video item yields.
pub open spec fn video_attachment(v: VideoItem, base: Seq<char>) -> Option<MediaAttachmentView> {
    match media_url(v.media, base) {
        Some(url) => Some(MediaAttachmentView {
            media_type: MediaType::Video,
            url,
            file_name: None,
            size: size_of_field(v.video_size),
            aes_key: non_empty(media_key(v.media)),
            mime_type: "video/mp4"@,
            transcription: None,
            duration_secs: v.play_length,
        }),
        None => None,
    }
}

/// The attachment a message item yields, by its type.
pub open spec fn item_attachment(item: MessageItem, base: Seq<char>) -> Option<MediaAttachmentView> {
    if item.item_type == MESSAGE_ITEM_IMAGE {
        match item.image_item {
            Some(i) => image_attachment(i, base),
            None => None,
        }
    } else if item.item_type == MESSAGE_ITEM_VOICE {
        match item.voice_item {
            Some(v) => voice_attachment(v, base),
            None => None,
        }
    } else if item.item_type == MESSAGE_ITEM_FILE {
        match item.file_item {
            Some(f) => file_attachment(f, base),
            None => None,
        }
    } else if item.item_type == MESSAGE_ITEM_VIDEO {
        match item.video_item {
            Some(v) => video_attachment(v, base),
            None => None,
        }
    } else {
        None
    }
}

/// The attachments of an item list, in order.
pub open spec fn attachments_of(items: Seq<MessageItem>, base: Seq<char>) -> Seq<MediaAttachmentView>
    decreases items.len(),
{
    if items.len() == 0 {
        Seq::empty()
    } else {
        let prev = attachments_of(items.drop_last(), base);
        match item_attachment(items.last(), base) {
            Some(a) => prev.push(a),
            None => prev,
        }
    }
}

fn media_download_url(media: &Option<CdnMedia>, cdn_base_url: &str) -> (r: Option<String>)
    ensures
        opt_view(r) == media_url(*media, cdn_base_url@),
{
    match media {
        Some(m) => match &m.encrypt_query_param {
            Some(p) => Some(build_cdn_download_url(cdn_base_url, p.as_str())),
            None => None,
        },
        None => None,
    }
}

fn media_aes_key(media: &Option<CdnMedia>) -> (r: Option<String>)
    ensures
        opt_view(r) == non_empty(media_key(*media)),
{
    match media {
        Some(m) => non_empty_opt(&m.aes_key),
        None => None,
    }
}

/// Maps an image item to an attachment.
pub fn map_image_attachment(img: &ImageItem, cdn_base_url: &str) -> (r: Option<MediaAttachment>)
    ensures
        match r {
            Some(a) => image_attachment(*img, cdn_base_url@) == Some(a@),
            None => image_attachment(*img, cdn_base_url@) is None,
        },
{
    let url = match media_download_url(&img.media, cdn_base_url) {
        Some(u) => u,
        None => return None,
    };
    let aes_key = match &img.aeskey {
        Some(k) => non_empty_opt(&Some(clone_string(k))),
        None => media_aes_key(&img.media),
    };
    Some(MediaAttachment {
        media_type: MediaType::Image,
        url,
        file_name: None,
        size: parse_size(&img.mid_size),
        aes_key,
        mime_type: String::from_str("image/jpeg"),
        transcription: None,
        duration_secs: None,
    })
}

/// Maps a voice item to an attachment.
pub fn map_voice_attachment(voice: &VoiceItem, cdn_base_url: &str) -> (r: Option<MediaAttachment>)
    ensures
        match r {
            Some(a) => voice_attachment(*voice, cdn_base_url@) == Some(a@),
            None => voice_attachment(*voice, cdn_base_url@) is None,
        },
{
    let url = match media_download_url(&voice.media, cdn_base_url) {
        Some(u) => u,
        None => return None,
    };
    Some(MediaAttachment {
        media_type: MediaType::Voice,
        url,
        file_name: None,
        size: None,
        aes_key: media_aes_key(&voice.media),
        mime_type: String::from_str(infer_voice_mime(voice.encode_type)),
        transcription: non_empty_opt(&voice.text),
        duration_secs: voice.playtime,
    })
}

/// Maps a file item to an attachment.
pub fn map_file_attachment(file: &FileItem, cdn_base_url: &str) -> (r: Option<MediaAttachment>)
    ensures
        match r {
            Some(a) => file_attachment(*file, cdn_base_url@) == Some(a@),
            None => file_attachment(*file, cdn_base_url@) is None,
        },
{
    let url = match media_download_url(&file.media, cdn_base_url) {
        Some(u) => u,
        None => return None,
    };
    let file_name = non_empty_opt(&file.file_name);
    let mime_type = match &file_name {
        Some(n) => match infer_mime_from_extension(n.as_str()) {
            Some(m) => String::from_str(m),
            None => String::from_str("application/octet-stream"),
        },
        None => String::from_str("application/octet-stream"),
    };
    Some(MediaAttachment {
        media_type: MediaType::File,
        url,
        file_name,
        size: parse_size(&file.len),
        aes_key: media_aes_key(&file.media),
        mime_type,
        transcription: None,
        duration_secs: None,
    })
}

/// Maps a video item to an attachment.
pub fn map_video_attachment(video: &VideoItem, cdn_base_url: &str) -> (r: Option<MediaAttachment>)
    ensures
        match r {
            Some(a) => video_attachment(*video, cdn_base_url@) == Some(a@),
            None => video_attachment(*video, cdn_base_url@) is None,
        },
{
    let url = match media_download_url(&video.media, cdn_base_url) {
        Some(u) => u,
        None => return None,
    };
    Some(MediaAttachment {
        media_type: MediaType::Video,
        url,
        file_name: None,
        size: parse_size(&video.video_size),
        aes_key: media_aes_key(&video.media),
        mime_type: String::from_str("video/mp4"),
        transcription: None,
        duration_secs: video.play_length,
    })
}

fn map_item(item: &MessageItem, cdn_base_url: &str) -> (r: Option<MediaAttachment>)
    ensures
        match r {
            Some(a) => item_attachment(*item, cdn_base_url@) == Some(a@),
            None => item_attachment(*item, cdn_base_url@) is None,
        },
{
    if item.item_type == MESSAGE_ITEM_IMAGE {
        match &item.image_item {
            Some(img) => map_image_attachment(img, cdn_base_url),
            None => None,
        }
    } else if item.item_type == MESSAGE_ITEM_VOICE {
        match &item.voice_item {
            Some(v) => map_voice_attachment(v, cdn_base_url),
            None => None,
        }
    } else if item.item_type == MESSAGE_ITEM_FILE {
        match &item.file_item {
            Some(f) => map_file_attachment(f, cdn_base_url),
            None => None,
        }
    } else if item.item_type == MESSAGE_ITEM_VIDEO {
        match &item.video_item {
            Some(v) => map_video_attachment(v, cdn_base_url),
            None => None,
        }
    } else {
        None
    }
}

/// Extracts all media attachments from a message's item list, in order.
pub fn extract_media_attachments(item_list: &[MessageItem], cdn_base_url: &str) -> (r: Vec<MediaAttachment>)
    ensures
        r@.map_values(|a: MediaAttachment| a@) == attachments_of(item_list@, cdn_base_url@),
{
    let mut attachments: Vec<MediaAttachment> = Vec::new();
    let mut i: usize = 0;
    assert(item_list@.subrange(0, 0) =~= Seq::<MessageItem>::empty());
    while i < item_list.len()
        invariant
            i <= item_list@.len(),
            attachments@.map_values(|a: MediaAttachment| a@) == attachments_of(item_list@.subrange(0, i as int), cdn_base_url@),
        decreases item_list@.len() - i,
    {
        assert(item_list@.subrange(0, i + 1).drop_last() =~= item_list@.subrange(0, i as int));
        let ghost prev = attachments@.map_values(|a: MediaAttachment| a@);
        match map_item(&item_list[i], cdn_base_url) {
            Some(a) => {
                attachments.push(a);
                assert(attachments@.map_values(|a: MediaAttachment| a@) =~= prev.push(a@));
            },
            None => {},
        }
        i += 1;
    }
    assert(item_list@.subrange(0, i as int) =~= item_list@);
    attachments
}

// ---------------------------------------------------------------------------
// Outbound media
// ---------------------------------------------------------------------------

/// Result of a successful CDN upload.
#[derive(Debug, Clone)]
pub struct UploadedMedia {
    /// Encrypted query parameter for the download URL.
    pub download_encrypted_query_param: String,
    /// AES key in base64 for the recipient.
    pub cdn_aes_key_base64: String,
    /// Size of the encrypted ciphertext.
    pub file_size_ciphertext: u64,
    /// Size of the plaintext before encryption.
    pub plaintext_size: u64,
}

/// Upload media type for the upload-URL API.
#[derive(Debug, Clone, Copy, PartialEq, Eq)]
pub enum UploadMediaType {
    Image,
    Video,
    File,
}

/// The API's numeric code of an upload media type.
pub open spec fn upload_api_value(t: UploadMediaType) -> i32 {
    match t {
        UploadMediaType::Image => UPLOAD_MEDIA_TYPE_IMAGE,
        UploadMediaType::Video => UPLOAD_MEDIA_TYPE_VIDEO,
        UploadMediaType::File => UPLOAD_MEDIA_TYPE_FILE,
    }
}

/// The message item type that carries an uploaded media type.
pub open spec fn item_type_for(t: UploadMediaType) -> i32 {
    match t {
        UploadMediaType::Image => MESSAGE_ITEM_IMAGE,
        UploadMediaType::Video => MESSAGE_ITEM_VIDEO,
        UploadMediaType::File => MESSAGE_ITEM_FILE,
    }
}

impl UploadMediaType {
    /// The API's numeric media type.
    pub fn api_value(self) -> (r: i32)
        ensures
            r == upload_api_value(self),
    {
        match self {
            UploadMediaType::Image => UPLOAD_MEDIA_TYPE_IMAGE,
            UploadMediaType::Video => UPLOAD_MEDIA_TYPE_VIDEO,
            UploadMediaType::File => UPLOAD_MEDIA_TYPE_FILE,
        }
    }

    /// The message item type carrying this media.
    pub fn message_item_type(self) -> (r: i32)
        ensures
            r == item_type_for(self),
    {
        match self {
            UploadMediaType::Image => MESSAGE_ITEM_IMAGE,
            UploadMediaType::Video => MESSAGE_ITEM_VIDEO,
            UploadMediaType::File => MESSAGE_ITEM_FILE,
        }
    }

    /// The upload type for an inbound media type (voice is sent as a file).
    pub fn from_media_type(mt: &MediaType) -> (r: UploadMediaType)
        ensures
            r == match *mt {
                MediaType::Image => UploadMediaType::Image,
                MediaType::Video => UploadMediaType::Video,
                _ => UploadMediaType::File,
            },
    {
        match mt {
            MediaType::Image => UploadMediaType::Image,
            MediaType::Video => UploadMediaType::Video,
            _ => UploadMediaType::File,
        }
    }
}

/// The padded ciphertext size (PKCS7, 16-byte blocks) for a plaintext size.
pub fn padded_ciphertext_size(plaintext_size: usize) -> (r: usize)
    requires
        (plaintext_size / 16 + 1) * 16 <= usize::MAX,
    ensures
        r == (plaintext_size / 16 + 1) * 16,
{
    ((plaintext_size / 16) + 1) * 16
}

/// Encrypts a media payload with a fresh random AES-256 key and IV
/// (AES-256-CBC, PKCS#7). Returns the IV followed by the ciphertext, and
/// the key as lower-case hex.
pub fn encrypt_media_payload(data: &[u8]) -> (r: (Vec<u8>, String))
    requires
        data@.len() + 32 <= usize::MAX,
    ensures
        r.0@.len() == 16 + (data@.len() / 16 + 1) * 16,
        exists|key: Seq<u8>, iv: Seq<u8>| #![auto]
            key.len() == 32 && iv.len() == 16 && r.1@ == hex_lower(key)
            && r.0@ == iv + aes256_cbc_pkcs7(key, iv, data@),
{
    let key = random_bytes(32);
    let iv = random_bytes(16);
    let ciphertext = aes256_cbc_encrypt(key.as_slice(), iv.as_slice(), data);
    let mut result: Vec<u8> = Vec::new();
    let mut i: usize = 0;
    while i < iv.len()
        invariant
            iv@.len() == 16,
            i <= 16,
            result@ == iv@.subrange(0, i as int),
        decreases 16 - i,
    {
        result.push(iv[i]);
        i += 1;
    }
    let mut k: usize = 0;
    while k < ciphertext.len()
        invariant
            iv@.len() == 16,
            k <= ciphertext@.len(),
            result@ == iv@ + ciphertext@.subrange(0, k as int),
        decreases ciphertext@.len() - k,
    {
        result.push(ciphertext[k]);
        k += 1;
    }
    assert(ciphertext@.subrange(0, k as int) =~= ciphertext@);
    let key_hex = hex_encode(key.as_slice());
    (result, key_hex)
}

/// A CDN descriptor pointing at an uploaded file: its query parameter and
/// key, encryption type 1.
pub open spec fn is_uploaded_cdn(m: Option<CdnMedia>, uploaded: UploadedMedia) -> bool {
    m matches Some(c) && opt_view(c.encrypt_query_param) == Some(uploaded.download_encrypted_query_param@)
        && opt_view(c.aes_key) == Some(uploaded.cdn_aes_key_base64@) && c.encrypt_type == Some(1i32)
}

/// The outbound message item for an uploaded file of the given type, name
/// and plain size.
pub open spec fn is_outbound_item(
    r: MessageItem,
    uploaded: UploadedMedia,
    media_type: UploadMediaType,
    file_name: Seq<char>,
    raw_size: u64,
) -> bool {
    &&& r.item_type == item_type_for(media_type)
    &&& r.text_item is None && r.voice_item is None
    &&& match media_type {
        UploadMediaType::Image => r.video_item is None && r.file_item is None && (r.image_item matches Some(img)
            && is_uploaded_cdn(img.media, uploaded) && img.thumb_media is None && opt_view(img.aeskey) == Some(
            uploaded.cdn_aes_key_base64@,
        ) && img.mid_size is None && img.thumb_size is None),
        UploadMediaType::Video => r.image_item is None && r.file_item is None && (r.video_item matches Some(v)
            && is_uploaded_cdn(v.media, uploaded) && v.thumb_media is None && opt_view(v.video_size) == Some(
            decimal(raw_size as nat),
        ) && v.thumb_size is None && v.play_length is None),
        UploadMediaType::File => r.image_item is None && r.video_item is None && (r.file_item matches Some(f)
            && is_uploaded_cdn(f.media, uploaded) && opt_view(f.file_name) == Some(file_name) && opt_view(f.len)
            == Some(decimal(raw_size as nat))),
    }
}

/// The attachment a recipient reads back from the outbound item of an
/// uploaded file.
pub open spec fn uploaded_attachment(
    uploaded: UploadedMedia,
    media_type: UploadMediaType,
    file_name: Seq<char>,
    raw_size: u64,
    base: Seq<char>,
) -> MediaAttachmentView {
    MediaAttachmentView {
        media_type: match media_type {
            UploadMediaType::Image => MediaType::Image,
            UploadMediaType::Video => MediaType::Video,
            UploadMediaType::File => MediaType::File,
        },
        url: cdn_download_url(base, uploaded.download_encrypted_query_param@),
        file_name: match media_type {
            UploadMediaType::File => Some(file_name),
            _ => None,
        },
        size: match media_type {
            UploadMediaType::Image => None,
            _ => Some(raw_size),
        },
        aes_key: Some(uploaded.cdn_aes_key_base64@),
        mime_type: match media_type {
            UploadMediaType::Image => "image/jpeg"@,
            UploadMediaType::Video => "video/mp4"@,
            UploadMediaType::File => mime_for_extension(lower_text(extension_of(file_name))),
        },
        transcription: None,
        duration_secs: None,
    }
}

/// An uploaded file sent as an outbound item is read back by attachment
/// extraction as one attachment with the upload's download URL and key, and
/// the item's type, name and size.
pub proof fn lemma_outbound_item_round_trip(
    uploaded: UploadedMedia,
    media_type: UploadMediaType,
    file_name: Seq<char>,
    raw_size: u64,
    item: MessageItem,
    base: Seq<char>,
)
    requires
        is_outbound_item(item, uploaded, media_type, file_name, raw_size),
        uploaded.cdn_aes_key_base64@.len() > 0,
        file_name.len() > 0,
    ensures
        attachments_of(seq![item], base) == seq![uploaded_attachment(uploaded, media_type, file_name, raw_size, base)],
{
    lemma_parse_decimal(raw_size);
    let items = seq![item];
    assert(items.drop_last() =~= Seq::<MessageItem>::empty());
    assert(items.last() == item);
    assert(attachments_of(items.drop_last(), base) =~= Seq::<MediaAttachmentView>::empty());
    assert(item_attachment(item, base) == Some(uploaded_attachment(uploaded, media_type, file_name, raw_size, base)));
    assert(attachments_of(items, base) =~= seq![uploaded_attachment(uploaded, media_type, file_name, raw_size, base)]);
}

/// Builds the outbound message item for an uploaded media file.
pub fn build_outbound_media_item(
    uploaded: &UploadedMedia,
    media_type: UploadMediaType,
    file_name: &str,
    raw_size: u64,
) -> (r: MessageItem)
    ensures
        is_outbound_item(r, *uploaded, media_type, file_name@, raw_size),
{
    let cdn_media = CdnMedia {
        encrypt_query_param: Some(clone_string(&uploaded.download_encrypted_query_param)),
        aes_key: Some(clone_string(&uploaded.cdn_aes_key_base64)),
        encrypt_type: Some(1),
    };
    match media_type {
        UploadMediaType::Image => MessageItem {
            item_type: MESSAGE_ITEM_IMAGE,
            text_item: None,
            image_item: Some(ImageItem {
                media: Some(cdn_media),
                thumb_media: None,
                aeskey: Some(clone_string(&uploaded.cdn_aes_key_base64)),
                mid_size: None,
                thumb_size: None,
            }),
            voice_item: None,
            file_item: None,
            video_item: None,
        },
        UploadMediaType::Video => MessageItem {
            item_type: MESSAGE_ITEM_VIDEO,
            text_item: None,
            image_item: None,
            voice_item: None,
            file_item: None,
            video_item: Some(VideoItem {
                media: Some(cdn_media),
                thumb_media: None,
                video_size: Some(decimal_string(raw_size)),
                thumb_size: None,
                play_length: None,
            }),
        },
        UploadMediaType::File => MessageItem {
            item_type: MESSAGE_ITEM_FILE,
            text_item: None,
            image_item: None,
            voice_item: None,
            file_item: Some(FileItem {
                media: Some(cdn_media),
                file_name: Some(String::from_str(file_name)),
                len: Some(decimal_string(raw_size)),
            }),
            video_item: None,
        },
    }
}

/// Send-message request body (inner `msg` structure).
#[derive(Debug)]
pub struct SendMessageRequest {
    pub to_user_id: String,
    pub client_id: String,
    pub message_type: i32,
    pub context_token: Option<String>,
    pub item_list: Vec<MessageItem>,
}


/// A media file made ready for upload: its encrypted bytes (IV first), the
/// key as hex, both sizes and the MD5 of the plain bytes.
#[derive(Debug)]
pub struct UploadPlan {
    pub ciphertext: Vec<u8>,
    pub aes_key_hex: String,
    pub raw_size: u64,
    pub ciphertext_size: u64,
    /// Lower-case hex MD5 of the plain bytes.
    pub raw_md5: String,
}

/// Encrypts a file for upload and measures it.
pub fn prepare_upload(file_data: &[u8]) -> (r: UploadPlan)
    requires
        file_data@.len() + 32 <= u64::MAX,
        file_data@.len() + 32 <= usize::MAX,
    ensures
        r.raw_size == file_data@.len(),
        r.ciphertext_size == r.ciphertext@.len(),
        r.ciphertext@.len() == 16 + (file_data@.len() / 16 + 1) * 16,
        r.raw_md5@ == hex_lower(md5_digest(file_data@)),
        exists|key: Seq<u8>, iv: Seq<u8>| #![auto]
            key.len() == 32 && iv.len() == 16 && r.aes_key_hex@ == hex_lower(key)
            && r.ciphertext@ == iv + aes256_cbc_pkcs7(key, iv, file_data@),
{
    let (ciphertext, aes_key_hex) = encrypt_media_payload(file_data);
    let raw_size = file_data.len() as u64;
    let ciphertext_size = ciphertext.len() as u64;
    let raw_md5 = hex_encode(md5(file_data).as_slice());
    UploadPlan { ciphertext, aes_key_hex, raw_size, ciphertext_size, raw_md5 }
}

/// Whether `b` is the upload-URL request body
/// `{"media_type", "file_size", "md5", "no_need_thumb": true}`.
pub open spec fn is_upload_request(b: Json, media_type: i32, file_size: u64, md5_hex: Seq<char>) -> bool {
    match b {
        Json::Object(fs) => fs@.len() == 4 && fs@[0].0@ == "media_type"@ && fs@[0].1 == Json::Int(media_type as i64)
            && fs@[1].0@ == "file_size"@ && fs@[1].1 == Json::UInt(file_size) && fs@[2].0@ == "md5"@ && json_text(
            fs@[2].1,
        ) == Some(md5_hex) && fs@[3].0@ == "no_need_thumb"@ && fs@[3].1 == Json::Bool(true),
        _ => false,
    }
}

/// The body of the upload-URL request for a prepared file.
pub fn upload_url_request(plan: &UploadPlan, media_type: UploadMediaType) -> (r: Json)
    ensures
        is_upload_request(r, upload_api_value(media_type), plan.ciphertext_size, plan.raw_md5@),
{
    let mut fs: Vec<(String, Json)> = Vec::new();
    fs.push((String::from_str("media_type"), Json::Int(media_type.api_value() as i64)));
    fs.push((String::from_str("file_size"), Json::UInt(plan.ciphertext_size)));
    fs.push((String::from_str("md5"), Json::Str(clone_string(&plan.raw_md5))));
    fs.push((String::from_str("no_need_thumb"), Json::Bool(true)));
    Json::Object(fs)
}

/// The reply of the upload-URL request, as its fields read.
#[derive(Debug)]
pub struct GetUploadUrlResponse {
    pub errcode: Option<i32>,
    pub errmsg: Option<String>,
    pub upload_param: Option<String>,
    pub filekey: Option<String>,
}

/// Where the ciphertext is uploaded, or why it cannot be: a non-zero
/// `errcode`, or a missing upload parameter or file key.
pub open spec fn upload_target_spec(resp: GetUploadUrlResponse, cdn_base: Seq<char>) -> Result<Seq<char>, Seq<char>> {
    let code = match resp.errcode {
        Some(c) => c,
        None => 0i32,
    };
    if code != 0 {
        Err(
            "getuploadurl failed: errcode="@ + signed_decimal(code as int) + ", errmsg="@ + match resp.errmsg {
                Some(m) => m@,
                None => Seq::empty(),
            },
        )
    } else {
        match (resp.upload_param, resp.filekey) {
            (None, _) => Err("missing upload_param in response"@),
            (Some(_), None) => Err("missing filekey in response"@),
            (Some(p), Some(k)) => Ok(
                "https://"@ + trim_trailing_slashes(cdn_base) + "/upload?encrypted_query_param="@ + p@ + "&filekey="@
                    + k@,
            ),
        }
    }
}

/// The CDN upload URL from the upload-URL reply.
pub fn upload_target(resp: &GetUploadUrlResponse, cdn_base_url: &str) -> (r: Result<String, String>)
    ensures
        match r {
            Ok(u) => upload_target_spec(*resp, cdn_base_url@) == Ok::<Seq<char>, Seq<char>>(u@),
            Err(e) => upload_target_spec(*resp, cdn_base_url@) == Err::<Seq<char>, Seq<char>>(e@),
        },
{
    match resp.errcode {
        Some(code) => if code != 0 {
            let mut e = String::from_str("getuploadurl failed: errcode=");
            e.append(signed_decimal_string(code as i64).as_str());
            e.append(", errmsg=");
            match &resp.errmsg {
                Some(m) => e.append(m.as_str()),
                None => {},
            }
            proof {
                reveal_strlit("");
            }
            return Err(e);
        },
        None => {},
    }
    let param = match &resp.upload_param {
        Some(p) => p,
        None => return Err(String::from_str("missing upload_param in response")),
    };
    let key = match &resp.filekey {
        Some(k) => k,
        None => return Err(String::from_str("missing filekey in response")),
    };
    let mut u = String::from_str("https://");
    u.append(without_trailing_slashes(cdn_base_url).as_str());
    u.append("/upload?encrypted_query_param=");
    u.append(param.as_str());
    u.append("&filekey=");
    u.append(key.as_str());
    Ok(u)
}

/// The uploaded media after the CDN answered: a failure status, or a reply
/// without the `x-encrypted-param` header, is an error; otherwise the
/// download parameter and the key in base64.
pub fn finish_upload(plan: &UploadPlan, status_ok: bool, status_text: &str, download_param: Option<String>) -> (r: Result<UploadedMedia, String>)
    ensures
        !status_ok ==> (r matches Err(e) && e@ == "CDN upload failed with status: "@ + status_text@),
        status_ok && download_param is None ==> (r matches Err(e) && e@ == "missing x-encrypted-param in CDN response"@),
        status_ok && download_param is Some ==> match hex_decoded(encode_utf8(plan.aes_key_hex@)) {
            Some(key) => r matches Ok(m) && Some(m.download_encrypted_query_param@) == opt_view(download_param)
                && m.cdn_aes_key_base64@ == base64_standard_encoded(key) && m.file_size_ciphertext == plan.ciphertext_size
                && m.plaintext_size == plan.raw_size,
            None => r matches Err(e) && e@ == "invalid hex key"@,
        },
{
    if !status_ok {
        let mut e = String::from_str("CDN upload failed with status: ");
        e.append(status_text);
        return Err(e);
    }
    let param = match download_param {
        Some(p) => p,
        None => return Err(String::from_str("missing x-encrypted-param in CDN response")),
    };
    let key = match hex_decode(plan.aes_key_hex.as_str()) {
        Some(k) => k,
        None => return Err(String::from_str("invalid hex key")),
    };
    Ok(
        UploadedMedia {
            download_encrypted_query_param: param,
            cdn_aes_key_base64: base64_encode(key.as_slice()),
            file_size_ciphertext: plan.ciphertext_size,
            plaintext_size: plan.raw_size,
        },
    )
}

} // verus!
