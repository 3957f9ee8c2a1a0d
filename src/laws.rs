//! Laws that hold of every scan.

use vstd::prelude::*;
use crate::classify::{MediaGroup, is_substring, audio_word, video_word};
use crate::mime::mime_of;
use crate::scan::{describe, describe_all, entry_names, all_named, entry_named};

verus! {

/// A file whose guessed mime type names audio is in the audio group; one whose
/// type names video and not audio is in the video group; every other file is
/// in the unknown group.
pub proof fn lemma_group_by_mime(name: Seq<char>)
    ensures
        describe(name).media == MediaGroup::Audio <==> is_substring(audio_word(), mime_of(name)),
        describe(name).media == MediaGroup::Video <==> !is_substring(audio_word(), mime_of(name))
            && is_substring(video_word(), mime_of(name)),
        describe(name).media == MediaGroup::Unknown <==> !is_substring(
            audio_word(),
            mime_of(name),
        ) && !is_substring(video_word(), mime_of(name)),
{
}

/// A listing of `n` named entries is described by exactly `n` descriptors; the
/// `i`-th carries the `i`-th entry's name, which is not empty, and an empty comment.
pub proof fn lemma_one_descriptor_per_entry(entries: Seq<Option<String>>)
    requires
        all_named(entries),
    ensures
        describe_all(entry_names(entries)).len() == entries.len(),
        forall|i: int|
            0 <= i < entries.len() ==> {
                let d = #[trigger] describe_all(entry_names(entries))[i];
                &&& d.filename == entries[i]->0@
                &&& d.filename.len() > 0
                &&& d.comment == Seq::<char>::empty()
            },
{
    assert forall|i: int| 0 <= i < entries.len() implies {
        let d = #[trigger] describe_all(entry_names(entries))[i];
        &&& d.filename == entries[i]->0@
        &&& d.filename.len() > 0
        &&& d.comment == Seq::<char>::empty()
    } by {
        assert(entry_named(entries[i]));
    }
}

/// Two listings that hold the same names, in whatever order, are described by
/// the same set of descriptors.
pub proof fn lemma_scan_order_free(a: Seq<Seq<char>>, b: Seq<Seq<char>>)
    requires
        a.to_set() == b.to_set(),
    ensures
        describe_all(a).to_set() == describe_all(b).to_set(),
{
    assert forall|d| describe_all(a).to_set().contains(d) implies describe_all(b).to_set().contains(
        d,
    ) by {
        let i = choose|i: int| 0 <= i < describe_all(a).len() && describe_all(a)[i] == d;
        assert(a.to_set().contains(a[i]));
        assert(b.to_set().contains(a[i]));
        let j = choose|j: int| 0 <= j < b.len() && b[j] == a[i];
        assert(describe_all(b)[j] == d);
    }
    assert forall|d| describe_all(b).to_set().contains(d) implies describe_all(a).to_set().contains(
        d,
    ) by {
        let i = choose|i: int| 0 <= i < describe_all(b).len() && describe_all(b)[i] == d;
        assert(b.to_set().contains(b[i]));
        assert(a.to_set().contains(b[i]));
        let j = choose|j: int| 0 <= j < a.len() && a[j] == b[i];
        assert(describe_all(a)[j] == d);
    }
    assert(describe_all(a).to_set() =~= describe_all(b).to_set());
}

} // verus!
