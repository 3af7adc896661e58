//! Media files on disk: which extensions count as video, audio or picture,
//! what is told of one file, and what the engine's version query says.

use crate::parse::{find_char, position_of};
use crate::text::{chars_of, spells, views};
use vstd::prelude::*;
use vstd::string::*;

verus! {

/// What is told of a file on disk. `extension` is in lower case.
#[derive(Debug, Clone)]
pub struct FileMetadata {
    pub name: String,
    pub path: String,
    pub size_bytes: u64,
    pub extension: String,
    pub is_video: bool,
    pub is_audio: bool,
}

/// A file's metadata over plain text.
pub struct MetadataView {
    pub name: Seq<char>,
    pub path: Seq<char>,
    pub size_bytes: u64,
    pub extension: Seq<char>,
    pub is_video: bool,
    pub is_audio: bool,
}

impl View for FileMetadata {
    type V = MetadataView;

    open spec fn view(&self) -> MetadataView {
        MetadataView {
            name: self.name@,
            path: self.path@,
            size_bytes: self.size_bytes,
            extension: self.extension@,
            is_video: self.is_video,
            is_audio: self.is_audio,
        }
    }
}

/// A file as a directory listing finds it; `extension` is as the name has
/// it, in any case.
#[derive(Debug, Clone)]
pub struct FileEntry {
    pub name: String,
    pub path: String,
    pub size_bytes: u64,
    pub extension: String,
}

/// A directory entry over plain text.
pub struct EntryView {
    pub name: Seq<char>,
    pub path: Seq<char>,
    pub size_bytes: u64,
    pub extension: Seq<char>,
}

impl View for FileEntry {
    type V = EntryView;

    open spec fn view(&self) -> EntryView {
        EntryView {
            name: self.name@,
            path: self.path@,
            size_bytes: self.size_bytes,
            extension: self.extension@,
        }
    }
}

/// Why nothing could be told of a path.
#[derive(Debug, Clone, PartialEq, Eq)]
pub enum MediaError {
    /// There is no file at the path.
    FileNotFound(String),
    /// The path is no directory.
    NotADirectory(String),
}

/// A media error over plain text.
pub enum MediaErrorView {
    FileNotFound(Seq<char>),
    NotADirectory(Seq<char>),
}

impl View for MediaError {
    type V = MediaErrorView;

    open spec fn view(&self) -> MediaErrorView {
        match *self {
            MediaError::FileNotFound(path) => MediaErrorView::FileNotFound(path@),
            MediaError::NotADirectory(path) => MediaErrorView::NotADirectory(path@),
        }
    }
}

/// The message that a media error shows to the caller.
pub open spec fn media_message(e: MediaErrorView) -> Seq<char> {
    match e {
        MediaErrorView::FileNotFound(path) => "File not found: "@ + path,
        MediaErrorView::NotADirectory(path) => "Not a directory: "@ + path,
    }
}

impl MediaError {
    /// The message shown to the caller.
    pub fn message(&self) -> (r: String)
        ensures
            r@ == media_message(self@),
    {
        match self {
            MediaError::FileNotFound(path) => {
                let mut r = String::from_str("File not found: ");
                r.append(path.as_str());
                r
            },
            MediaError::NotADirectory(path) => {
                let mut r = String::from_str("Not a directory: ");
                r.append(path.as_str());
                r
            },
        }
    }
}

/// Whether a lower-case extension is one of a video file.
pub open spec fn is_video_extension(e: Seq<char>) -> bool {
    ||| e == "mp4"@
    ||| e == "mov"@
    ||| e == "avi"@
    ||| e == "mkv"@
    ||| e == "webm"@
    ||| e == "m4v"@
    ||| e == "flv"@
    ||| e == "wmv"@
}

/// Whether a lower-case extension is one of an audio file.
pub open spec fn is_audio_extension(e: Seq<char>) -> bool {
    ||| e == "mp3"@
    ||| e == "wav"@
    ||| e == "aac"@
    ||| e == "flac"@
    ||| e == "ogg"@
    ||| e == "m4a"@
    ||| e == "wma"@
}

/// Whether a lower-case extension is one of a picture file.
pub open spec fn is_picture_extension(e: Seq<char>) -> bool {
    ||| e == "png"@
    ||| e == "jpg"@
    ||| e == "jpeg"@
    ||| e == "gif"@
    ||| e == "bmp"@
    ||| e == "tiff"@
    ||| e == "webp"@
}

/// Whether a lower-case extension is one that a listing of media files
/// keeps.
pub open spec fn is_media_extension(e: Seq<char>) -> bool {
    is_video_extension(e) || is_audio_extension(e) || is_picture_extension(e)
}

/// What is told of a file with the given lower-case extension.
pub open spec fn metadata_of(name: Seq<char>, path: Seq<char>, size_bytes: u64, lowered: Seq<char>)
    -> MetadataView {
    MetadataView {
        name,
        path,
        size_bytes,
        extension: lowered,
        is_video: is_video_extension(lowered),
        is_audio: is_audio_extension(lowered),
    }
}

/// The text in lower case, as `str::to_lowercase` gives it.
pub uninterp spec fn lowercase_of(s: Seq<char>) -> Seq<char>;

/// `str::to_lowercase`: the text with each char replaced by its lower-case
/// form under the Unicode rules. The result depends on the text alone.
#[verifier::external_body]
fn lowercase(s: &str) -> (r: String)
    ensures
        r@ == lowercase_of(s@),
{
    s.to_lowercase()
}

/// What is told of an entry.
pub open spec fn entry_metadata(e: EntryView) -> MetadataView {
    metadata_of(e.name, e.path, e.size_bytes, lowercase_of(e.extension))
}

/// What a listing tells of the entries: of each whose extension is one of
/// a media file, in the entries' order.
pub open spec fn listed_metadata(entries: Seq<EntryView>) -> Seq<MetadataView>
    decreases entries.len(),
{
    if entries.len() == 0 {
        Seq::<MetadataView>::empty()
    } else if is_media_extension(lowercase_of(entries.last().extension)) {
        listed_metadata(entries.drop_last()).push(entry_metadata(entries.last()))
    } else {
        listed_metadata(entries.drop_last())
    }
}

/// What came of asking the engine for its version.
#[derive(Debug, Clone)]
pub enum VersionQuery {
    /// The engine could not be started.
    NotStarted,
    /// The engine ran: whether it ended with success, and what it wrote to
    /// standard output.
    Finished { success: bool, output: String },
}

/// A version query over plain text.
pub enum QueryView {
    NotStarted,
    Finished { success: bool, output: Seq<char> },
}

impl View for VersionQuery {
    type V = QueryView;

    open spec fn view(&self) -> QueryView {
        match *self {
            VersionQuery::NotStarted => QueryView::NotStarted,
            VersionQuery::Finished { success, output } => QueryView::Finished {
                success,
                output: output@,
            },
        }
    }
}

/// The first line of the text without its line ending; nothing where the
/// text is empty.
pub open spec fn first_line(s: Seq<char>) -> Option<Seq<char>> {
    if s.len() == 0 {
        None
    } else {
        let end = position_of(s, '\n');
        let line = s.take(end);
        if end < s.len() && line.len() > 0 && line.last() == '\r' {
            Some(line.drop_last())
        } else {
            Some(line)
        }
    }
}

/// What the version query says: the first line of the engine's output
/// where it ran with success, and why not otherwise.
pub open spec fn version_report(query: QueryView) -> Result<Seq<char>, Seq<char>> {
    match query {
        QueryView::NotStarted => Err(
            "FFmpeg not found. Please install FFmpeg to enable video export."@,
        ),
        QueryView::Finished { success, output } => if !success {
            Err("FFmpeg found but returned an error."@)
        } else {
            match first_line(output) {
                Some(line) => Ok(line),
                None => Ok("FFmpeg found"@),
            }
        },
    }
}

/// Whether a lower-case extension is one of a video file.
pub fn video_extension(lowered: &str) -> (r: bool)
    ensures
        r == is_video_extension(lowered@),
{
    let e = chars_of(lowered);
    spells(&e, "mp4") || spells(&e, "mov") || spells(&e, "avi") || spells(&e, "mkv") || spells(
        &e,
        "webm",
    ) || spells(&e, "m4v") || spells(&e, "flv") || spells(&e, "wmv")
}

/// Whether a lower-case extension is one of an audio file.
pub fn audio_extension(lowered: &str) -> (r: bool)
    ensures
        r == is_audio_extension(lowered@),
{
    let e = chars_of(lowered);
    spells(&e, "mp3") || spells(&e, "wav") || spells(&e, "aac") || spells(&e, "flac") || spells(
        &e,
        "ogg",
    ) || spells(&e, "m4a") || spells(&e, "wma")
}

/// Whether a lower-case extension is one of a picture file.
pub fn picture_extension(lowered: &str) -> (r: bool)
    ensures
        r == is_picture_extension(lowered@),
{
    let e = chars_of(lowered);
    spells(&e, "png") || spells(&e, "jpg") || spells(&e, "jpeg") || spells(&e, "gif") || spells(
        &e,
        "bmp",
    ) || spells(&e, "tiff") || spells(&e, "webp")
}

/// Whether a lower-case extension is one that a listing of media files
/// keeps.
pub fn media_extension(lowered: &str) -> (r: bool)
    ensures
        r == is_media_extension(lowered@),
{
    video_extension(lowered) || audio_extension(lowered) || picture_extension(lowered)
}

/// Tells of a file whose extension is given in lower case.
pub fn describe_file(name: &str, path: &str, size_bytes: u64, lowered: String) -> (r: FileMetadata)
    ensures
        r@ == metadata_of(name@, path@, size_bytes, lowered@),
{
    let is_video = video_extension(lowered.as_str());
    let is_audio = audio_extension(lowered.as_str());
    FileMetadata {
        name: String::from_str(name),
        path: String::from_str(path),
        size_bytes,
        extension: lowered,
        is_video,
        is_audio,
    }
}

/// Tells of a file whose extension is given as its name has it.
pub fn get_file_metadata(name: &str, path: &str, size_bytes: u64, extension: &str) -> (r:
    FileMetadata)
    ensures
        r@ == metadata_of(name@, path@, size_bytes, lowercase_of(extension@)),
{
    describe_file(name, path, size_bytes, lowercase(extension))
}

/// Whether a listing of media files keeps a file of this extension, given
/// as the name has it.
pub fn is_listed(extension: &str) -> (r: bool)
    ensures
        r == is_media_extension(lowercase_of(extension@)),
{
    media_extension(lowercase(extension).as_str())
}

/// Lists the media files among the entries.
pub fn list_media_files(entries: &Vec<FileEntry>) -> (files: Vec<FileMetadata>)
    ensures
        views(files@) == listed_metadata(views(entries@)),
{
    let mut files: Vec<FileMetadata> = Vec::new();
    let ghost all = views(entries@);
    let mut i: usize = 0;
    assert(all.take(0) =~= Seq::<EntryView>::empty());
    assert(views(files@) =~= Seq::<MetadataView>::empty());
    while i < entries.len()
        invariant
            i <= entries.len(),
            all == views(entries@),
            views(files@) == listed_metadata(all.take(i as int)),
        decreases entries.len() - i,
    {
        proof {
            assert(all.take(i + 1).drop_last() =~= all.take(i as int));
            assert(all.take(i + 1).last() == entries@[i as int]@);
        }
        let entry = &entries[i];
        let lowered = lowercase(entry.extension.as_str());
        if media_extension(lowered.as_str()) {
            let ghost before = files@;
            let described = describe_file(
                entry.name.as_str(),
                entry.path.as_str(),
                entry.size_bytes,
                lowered,
            );
            files.push(described);
            assert(views(files@) =~= views(before).push(described@));
        }
        i += 1;
    }
    assert(all.take(i as int) =~= all);
    files
}

/// Reads the first line of the text.
pub fn read_first_line(text: &str) -> (r: Option<String>)
    ensures
        match r {
            Some(line) => first_line(text@) == Some(line@),
            None => first_line(text@) is None,
        },
{
    let chars = chars_of(text);
    let n: usize = chars.len();
    if n == 0 {
        return None;
    }
    assert(chars@.subrange(0, n as int) =~= text@);
    let end: usize = find_char(&chars, 0, n, '\n');
    let stop: usize = if end < n && end > 0 && chars[end - 1] == '\r' {
        end - 1
    } else {
        end
    };
    assert(text@.subrange(0, stop as int) =~= if end < n && end > 0 && chars@[end - 1] == '\r' {
        text@.take(end as int).drop_last()
    } else {
        text@.take(end as int)
    });
    Some(String::from_str(text.substring_char(0, stop)))
}

/// Tells whether the engine is there, from what the version query gave.
pub fn check_ffmpeg(query: &VersionQuery) -> (r: Result<String, String>)
    ensures
        match version_report(query@) {
            Ok(banner) => r matches Ok(line) && line@ == banner,
            Err(cause) => r matches Err(why) && why@ == cause,
        },
{
    match query {
        VersionQuery::NotStarted => Err(
            String::from_str("FFmpeg not found. Please install FFmpeg to enable video export."),
        ),
        VersionQuery::Finished { success, output } => {
            if !*success {
                Err(String::from_str("FFmpeg found but returned an error."))
            } else {
                match read_first_line(output.as_str()) {
                    Some(line) => Ok(line),
                    None => Ok(String::from_str("FFmpeg found")),
                }
            }
        },
    }
}

} // verus!
