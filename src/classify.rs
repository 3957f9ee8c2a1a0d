//! Coarse classification of a mime type into a media group.

use vstd::prelude::*;
use vstd::string::*;

verus! {

/// The media group of a file; it decides which viewer shows the file.
#[derive(PartialEq, Eq, Structural, Clone, Copy, Debug)]
pub enum MediaGroup {
    Audio,
    Video,
    Unknown,
}

/// `needle` occurs in `hay` as a contiguous run of characters.
pub open spec fn is_substring(needle: Seq<char>, hay: Seq<char>) -> bool {
    exists|i: int|
        0 <= i && i + needle.len() <= hay.len() && #[trigger] hay.subrange(i, i + needle.len())
            == needle
}

pub open spec fn audio_word() -> Seq<char> {
    seq!['a', 'u', 'd', 'i', 'o']
}

pub open spec fn video_word() -> Seq<char> {
    seq!['v', 'i', 'd', 'e', 'o']
}

/// The group of a mime type: audio wins over video, and anything else is unknown.
pub open spec fn group_of(mime: Seq<char>) -> MediaGroup {
    if is_substring(audio_word(), mime) {
        MediaGroup::Audio
    } else if is_substring(video_word(), mime) {
        MediaGroup::Video
    } else {
        MediaGroup::Unknown
    }
}

/// Whether `needle` occurs in `hay`, by a scan over every start position.
pub fn contains_text(hay: &str, needle: &str) -> (r: bool)
    ensures
        r == is_substring(needle@, hay@),
{
    let n = hay.unicode_len();
    let m = needle.unicode_len();
    if m > n {
        proof {
            assert forall|i: int| 0 <= i && i + needle@.len() <= hay@.len() implies
                #[trigger] hay@.subrange(i, i + needle@.len()) != needle@ by {}
        }
        return false;
    }
    let mut i: usize = 0;
    while i <= n - m
        invariant
            n == hay@.len(),
            m == needle@.len(),
            m <= n,
            i <= n - m + 1,
            forall|k: int| 0 <= k < i ==> #[trigger] hay@.subrange(k, k + m) != needle@,
        decreases n - m + 1 - i,
    {
        let mut j: usize = 0;
        let mut same = true;
        while j < m && same
            invariant
                n == hay@.len(),
                m == needle@.len(),
                i + m <= n,
                j <= m,
                same ==> forall|k: int| 0 <= k < j ==> hay@[i + k] == needle@[k],
                !same ==> j > 0 && hay@[i + j - 1] != needle@[j - 1],
            decreases m - j + (if same { 1int } else { 0int }),
        {
            if hay.get_char(i + j) != needle.get_char(j) {
                same = false;
            }
            j = j + 1;
        }
        if same {
            assert(hay@.subrange(i as int, i + m) =~= needle@);
            return true;
        }
        assert(hay@.subrange(i as int, i + m)[j - 1] != needle@[j - 1]);
        i = i + 1;
    }
    false
}

/// Assigns a media group to a mime type, so that a viewer can be chosen.
pub fn determine_media(mime_type: &String) -> (r: MediaGroup)
    ensures
        r == group_of(mime_type@),
{
    proof {
        reveal_strlit("audio");
        reveal_strlit("video");
    }
    assert("audio"@ =~= audio_word());
    assert("video"@ =~= video_word());
    if contains_text(mime_type.as_str(), "audio") {
        MediaGroup::Audio
    } else if contains_text(mime_type.as_str(), "video") {
        MediaGroup::Video
    } else {
        MediaGroup::Unknown
    }
}

} // verus!
