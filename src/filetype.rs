//! Classification of files by extension, for sorting downloads into folders.

use vstd::prelude::*;
use crate::text::str_eq;

verus! {

/// Kind of a file, by its extension.
#[derive(Clone, Copy, Debug, PartialEq, Eq, Structural)]
pub enum FileType {
    Image,
    Video,
    Audio,
    Document,
    Archive,
    Code,
    Other,
}

impl FileType {
    /// Name of the folder that files of this kind go to.
    pub fn folder_name(&self) -> (r: &'static str)
        ensures
            r@ == folder_text(*self),
    {
        match self {
            FileType::Image => "图片",
            FileType::Video => "视频",
            FileType::Audio => "音频",
            FileType::Document => "文档",
            FileType::Archive => "压缩包",
            FileType::Code => "代码",
            FileType::Other => "其他",
        }
    }
}

/// Folder name of each kind.
pub open spec fn folder_text(t: FileType) -> Seq<char> {
    match t {
        FileType::Image => "图片"@,
        FileType::Video => "视频"@,
        FileType::Audio => "音频"@,
        FileType::Document => "文档"@,
        FileType::Archive => "压缩包"@,
        FileType::Code => "代码"@,
        FileType::Other => "其他"@,
    }
}

/// Lower-case extensions of kind `Image`.
pub open spec fn is_image_ext(e: Seq<char>) -> bool {
    e == "jpg"@ || e == "jpeg"@ || e == "png"@ || e == "gif"@ || e == "bmp"@ || e == "webp"@ || e == "svg"@ || e == "ico"@
}

fn image_ext(e: &str) -> (r: bool)
    ensures
        r == is_image_ext(e@),
{
    str_eq(e, "jpg") || str_eq(e, "jpeg") || str_eq(e, "png") || str_eq(e, "gif") || str_eq(e, "bmp") || str_eq(e, "webp") || str_eq(e, "svg") || str_eq(e, "ico")
}

/// Lower-case extensions of kind `Video`.
pub open spec fn is_video_ext(e: Seq<char>) -> bool {
    e == "mp4"@ || e == "avi"@ || e == "mkv"@ || e == "mov"@ || e == "wmv"@ || e == "flv"@ || e == "webm"@ || e == "m4v"@
}

fn video_ext(e: &str) -> (r: bool)
    ensures
        r == is_video_ext(e@),
{
    str_eq(e, "mp4") || str_eq(e, "avi") || str_eq(e, "mkv") || str_eq(e, "mov") || str_eq(e, "wmv") || str_eq(e, "flv") || str_eq(e, "webm") || str_eq(e, "m4v")
}

/// Lower-case extensions of kind `Audio`.
pub open spec fn is_audio_ext(e: Seq<char>) -> bool {
    e == "mp3"@ || e == "wav"@ || e == "flac"@ || e == "aac"@ || e == "ogg"@ || e == "m4a"@ || e == "wma"@
}

fn audio_ext(e: &str) -> (r: bool)
    ensures
        r == is_audio_ext(e@),
{
    str_eq(e, "mp3") || str_eq(e, "wav") || str_eq(e, "flac") || str_eq(e, "aac") || str_eq(e, "ogg") || str_eq(e, "m4a") || str_eq(e, "wma")
}

/// Lower-case extensions of kind `Document`.
pub open spec fn is_document_ext(e: Seq<char>) -> bool {
    e == "pdf"@ || e == "doc"@ || e == "docx"@ || e == "xls"@ || e == "xlsx"@ || e == "ppt"@ || e == "pptx"@ || e == "txt"@ || e == "rtf"@ || e == "odt"@ || e == "ods"@ || e == "odp"@
}

fn document_ext(e: &str) -> (r: bool)
    ensures
        r == is_document_ext(e@),
{
    str_eq(e, "pdf") || str_eq(e, "doc") || str_eq(e, "docx") || str_eq(e, "xls") || str_eq(e, "xlsx") || str_eq(e, "ppt") || str_eq(e, "pptx") || str_eq(e, "txt") || str_eq(e, "rtf") || str_eq(e, "odt") || str_eq(e, "ods") || str_eq(e, "odp")
}

/// Lower-case extensions of kind `Archive`.
pub open spec fn is_archive_ext(e: Seq<char>) -> bool {
    e == "zip"@ || e == "rar"@ || e == "7z"@ || e == "tar"@ || e == "gz"@ || e == "bz2"@ || e == "xz"@
}

fn archive_ext(e: &str) -> (r: bool)
    ensures
        r == is_archive_ext(e@),
{
    str_eq(e, "zip") || str_eq(e, "rar") || str_eq(e, "7z") || str_eq(e, "tar") || str_eq(e, "gz") || str_eq(e, "bz2") || str_eq(e, "xz")
}

/// Lower-case extensions of kind `Code`.
pub open spec fn is_code_ext(e: Seq<char>) -> bool {
    e == "js"@ || e == "ts"@ || e == "html"@ || e == "css"@ || e == "json"@ || e == "xml"@ || e == "py"@ || e == "java"@ || e == "cpp"@ || e == "c"@ || e == "h"@ || e == "rs"@ || e == "go"@ || e == "php"@ || e == "rb"@ || e == "swift"@ || e == "kt"@
}

fn code_ext(e: &str) -> (r: bool)
    ensures
        r == is_code_ext(e@),
{
    str_eq(e, "js") || str_eq(e, "ts") || str_eq(e, "html") || str_eq(e, "css") || str_eq(e, "json") || str_eq(e, "xml") || str_eq(e, "py") || str_eq(e, "java") || str_eq(e, "cpp") || str_eq(e, "c") || str_eq(e, "h") || str_eq(e, "rs") || str_eq(e, "go") || str_eq(e, "php") || str_eq(e, "rb") || str_eq(e, "swift") || str_eq(e, "kt")
}

/// Kind of a file whose extension, already in lower case, is `e`.
pub open spec fn spec_file_type(e: Seq<char>) -> FileType {
    if is_image_ext(e) {
        FileType::Image
    } else if is_video_ext(e) {
        FileType::Video
    } else if is_audio_ext(e) {
        FileType::Audio
    } else if is_document_ext(e) {
        FileType::Document
    } else if is_archive_ext(e) {
        FileType::Archive
    } else if is_code_ext(e) {
        FileType::Code
    } else {
        FileType::Other
    }
}

/// What `str::to_lowercase` makes of `s`.
pub uninterp spec fn lower_of(s: Seq<char>) -> Seq<char>;

/// Relies on `str::to_lowercase`: the result depends on the characters alone.
#[verifier::external_body]
fn lowercase(s: &str) -> (r: String)
    ensures
        r@ == lower_of(s@),
{
    s.to_lowercase()
}

/// Kind of a file whose extension, already in lower case, is `ext`.
pub fn file_type_of_lowercase(ext: &str) -> (r: FileType)
    ensures
        r == spec_file_type(ext@),
{
    if image_ext(ext) {
        FileType::Image
    } else if video_ext(ext) {
        FileType::Video
    } else if audio_ext(ext) {
        FileType::Audio
    } else if document_ext(ext) {
        FileType::Document
    } else if archive_ext(ext) {
        FileType::Archive
    } else if code_ext(ext) {
        FileType::Code
    } else {
        FileType::Other
    }
}

/// Kind of a file with extension `ext`, in any case.
pub fn get_file_type_from_extension(ext: &str) -> (r: FileType)
    ensures
        r == spec_file_type(lower_of(ext@)),
{
    let lower = lowercase(ext);
    file_type_of_lowercase(lower.as_str())
}

} // verus!
