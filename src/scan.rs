//! Describing the entries of a directory listing.

use vstd::prelude::*;
use crate::classify::{MediaGroup, group_of, determine_media};
use crate::mime::{mime_of, guess_mime_type, octet_stream};

verus! {

/// One file of the gallery.
pub struct MediaFile {
    /// The base name with its extension; the page links to it relative to itself.
    filename: String,
    /// The guessed mime type, which the viewers need.
    mime_type: String,
    /// A free comment, empty for now.
    comment: String,
    /// The media group, derived from the mime type.
    media: MediaGroup,
}

/// What a `MediaFile` holds, as plain values.
pub ghost struct Descriptor {
    pub filename: Seq<char>,
    pub mime_type: Seq<char>,
    pub comment: Seq<char>,
    pub media: MediaGroup,
}

impl View for MediaFile {
    type V = Descriptor;

    closed spec fn view(&self) -> Descriptor {
        Descriptor {
            filename: self.filename@,
            mime_type: self.mime_type@,
            comment: self.comment@,
            media: self.media,
        }
    }
}

/// The descriptor of the entry called `name`.
pub open spec fn describe(name: Seq<char>) -> Descriptor {
    Descriptor {
        filename: name,
        mime_type: mime_of(name),
        comment: Seq::empty(),
        media: group_of(mime_of(name)),
    }
}

/// The descriptors of a sequence of entry names, in the same order.
pub open spec fn describe_all(names: Seq<Seq<char>>) -> Seq<Descriptor> {
    names.map_values(|name: Seq<char>| describe(name))
}

/// A directory entry has a name when its base name could be read and is not empty.
pub open spec fn entry_named(entry: Option<String>) -> bool {
    entry is Some && entry->0@.len() > 0
}

/// The names of a listing whose entries all have one.
pub open spec fn entry_names(entries: Seq<Option<String>>) -> Seq<Seq<char>> {
    entries.map_values(|e: Option<String>| e->0@)
}

pub open spec fn all_named(entries: Seq<Option<String>>) -> bool {
    forall|i: int| 0 <= i < entries.len() ==> entry_named(#[trigger] entries[i])
}

/// `k` is the position of the first entry that has no name.
pub open spec fn first_unnamed(entries: Seq<Option<String>>, k: int) -> bool {
    &&& 0 <= k < entries.len()
    &&& !entry_named(entries[k])
    &&& forall|j: int| 0 <= j < k ==> entry_named(#[trigger] entries[j])
}

pub open spec fn files_view(files: Seq<MediaFile>) -> Seq<Descriptor> {
    files.map_values(|f: MediaFile| f@)
}

/// Why a listing could not be described.
#[derive(PartialEq, Eq, Structural, Clone, Copy, Debug)]
pub enum ScanError {
    /// The entry at this position of the listing has no base name.
    UnnamedEntry(usize),
}

impl MediaFile {
    /// Describes the entry called `filename`: its guessed mime type, its group
    /// and an empty comment.
    pub fn describe_entry(filename: String) -> (r: MediaFile)
        ensures
            r@ == describe(filename@),
            !filename@.contains('.') ==> r@.mime_type == octet_stream(),
    {
        let mime_type = guess_mime_type(filename.as_str());
        let media = determine_media(&mime_type);
        MediaFile { filename, mime_type, comment: String::new(), media }
    }

    pub fn filename(&self) -> (r: &String)
        ensures
            r@ == self@.filename,
    {
        &self.filename
    }

    pub fn mime_type(&self) -> (r: &String)
        ensures
            r@ == self@.mime_type,
    {
        &self.mime_type
    }

    pub fn comment(&self) -> (r: &String)
        ensures
            r@ == self@.comment,
    {
        &self.comment
    }

    pub fn media(&self) -> (r: MediaGroup)
        ensures
            r == self@.media,
    {
        self.media
    }
}

/// Describes every entry of a directory listing, in the listing's order, and
/// appends the descriptions to `media_files`. An entry without a name stops the
/// scan: the error gives the first such entry and `media_files` is left as it was.
pub fn gather_files(entries: &Vec<Option<String>>, media_files: &mut Vec<MediaFile>) -> (r: Result<
    (),
    ScanError,
>)
    ensures
        r is Ok <==> all_named(entries@),
        r is Ok ==> files_view(final(media_files)@) == files_view(old(media_files)@)
            + describe_all(entry_names(entries@)),
        r matches Err(ScanError::UnnamedEntry(k)) ==> first_unnamed(entries@, k as int)
            && final(media_files)@ == old(media_files)@,
{
    let mut k: usize = 0;
    while k < entries.len()
        invariant
            k <= entries@.len(),
            forall|j: int| 0 <= j < k ==> entry_named(#[trigger] entries@[j]),
        decreases entries@.len() - k,
    {
        match &entries[k] {
            Some(name) => {
                if name.as_str().is_empty() {
                    return Err(ScanError::UnnamedEntry(k));
                }
            },
            None => {
                return Err(ScanError::UnnamedEntry(k));
            },
        }
        k = k + 1;
    }
    let ghost start = files_view(media_files@);
    let mut i: usize = 0;
    while i < entries.len()
        invariant
            i <= entries@.len(),
            all_named(entries@),
            files_view(media_files@) == start + describe_all(entry_names(entries@)).take(
                i as int,
            ),
        decreases entries@.len() - i,
    {
        let name = match &entries[i] {
            Some(name) => name.clone(),
            None => String::new(),
        };
        let file = MediaFile::describe_entry(name);
        let ghost before = files_view(media_files@);
        media_files.push(file);
        assert(files_view(media_files@) =~= before.push(file@));
        assert(describe_all(entry_names(entries@)).take(i + 1) =~= describe_all(
            entry_names(entries@),
        ).take(i as int).push(file@));
        i = i + 1;
    }
    assert(describe_all(entry_names(entries@)).take(i as int) =~= describe_all(
        entry_names(entries@),
    ));
    Ok(())
}

} // verus!
