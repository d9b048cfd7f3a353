//! Searching the catalog: a song matches a query when its name contains
//! the query, both taken in lower case.

use crate::osu::Song;
use vstd::prelude::*;
use vstd::string::StrSliceExecFns;

verus! {

/// The lower-case form of a text, as `str::to_lowercase` of the standard
/// library computes it.
pub uninterp spec fn spec_lowercase(text: Seq<char>) -> Seq<char>;

/// `needle` occurs in `hay` as a run of consecutive characters.
pub open spec fn is_substring(needle: Seq<char>, hay: Seq<char>) -> bool {
    exists|start: int|
        0 <= start && start + needle.len() <= hay.len() && #[trigger] hay.subrange(
            start,
            start + needle.len(),
        ) == needle
}

/// A song matches a query when the lower-case form of its name contains
/// the lower-case form of the query.
pub open spec fn song_matches(song: Song, query: Seq<char>) -> bool {
    is_substring(spec_lowercase(query), spec_lowercase(song.song_name@))
}

/// The songs of `all` that match `query`, in their order.
pub open spec fn matching(all: Seq<Song>, query: Seq<char>) -> Seq<Song> {
    all.filter(|song: Song| song_matches(song, query))
}

/// Calls `str::to_lowercase`. The result is a function of the text alone;
/// the contract gives it the name `spec_lowercase` and claims nothing else.
#[verifier::external_body]
fn lowercase(text: &str) -> (lower: String)
    ensures
        lower@ == spec_lowercase(text@),
{
    text.to_lowercase()
}

/// The characters of a text.
fn chars_of(text: &str) -> (chars: Vec<char>)
    ensures
        chars@ == text@,
{
    let len: usize = text.unicode_len();
    let mut chars: Vec<char> = Vec::new();
    let mut i: usize = 0;
    while i < len
        invariant
            i <= len,
            len == text@.len(),
            chars@ == text@.subrange(0, i as int),
        decreases len - i,
    {
        chars.push(text.get_char(i));
        i += 1;
        assert(chars@ =~= text@.subrange(0, i as int));
    }
    assert(chars@ =~= text@);
    chars
}

/// Whether `needle` stands in `hay` at position `start`.
fn occurs_at(hay: &Vec<char>, needle: &Vec<char>, start: usize) -> (occurs: bool)
    requires
        start + needle.len() <= hay.len(),
    ensures
        occurs == (hay@.subrange(start as int, start + needle.len()) == needle@),
{
    let mut k: usize = 0;
    while k < needle.len()
        invariant
            k <= needle.len(),
            start + needle.len() <= hay.len(),
            forall|j: int| 0 <= j < k ==> hay[start + j] == needle[j],
        decreases needle.len() - k,
    {
        if hay[start + k] != needle[k] {
            assert(hay@.subrange(start as int, start + needle.len())[k as int] != needle@[k as int]);
            return false;
        }
        k += 1;
    }
    assert(hay@.subrange(start as int, start + needle.len()) =~= needle@);
    true
}

/// Whether `needle` occurs in `hay`.
pub fn contains(hay: &Vec<char>, needle: &Vec<char>) -> (found: bool)
    ensures
        found == is_substring(needle@, hay@),
{
    if needle.len() > hay.len() {
        return false;
    }
    let last: usize = hay.len() - needle.len();
    let mut start: usize = 0;
    while start < last
        invariant
            last == hay.len() - needle.len(),
            start <= last,
            forall|s: int|
                0 <= s < start ==> #[trigger] hay@.subrange(s, s + needle.len()) != needle@,
        decreases last - start,
    {
        if occurs_at(hay, needle, start) {
            return true;
        }
        start += 1;
    }
    occurs_at(hay, needle, last)
}

/// Whether the lower-case form of the song's name contains `wanted`.
pub fn name_contains(song: &Song, wanted: &Vec<char>) -> (found: bool)
    ensures
        found == is_substring(wanted@, spec_lowercase(song.song_name@)),
{
    let name = lowercase(song.song_name.as_str());
    contains(&chars_of(name.as_str()), wanted)
}

/// Whether `song` matches `query`.
pub fn matches_query(song: &Song, query: &str) -> (matches: bool)
    ensures
        matches == song_matches(*song, query@),
{
    let wanted = lowercase(query);
    name_contains(song, &chars_of(wanted.as_str()))
}

/// The songs of `all` that match `query`, in their order.
pub fn matching_songs(all: &Vec<Song>, query: &str) -> (found: Vec<Song>)
    ensures
        found@ == matching(all@, query@),
{
    let lowered = lowercase(query);
    let wanted = chars_of(lowered.as_str());
    let mut found: Vec<Song> = Vec::new();
    let mut i: usize = 0;
    proof {
        reveal(Seq::filter);
        assert(all@.subrange(0, 0) =~= Seq::<Song>::empty());
    }
    while i < all.len()
        invariant
            i <= all.len(),
            wanted@ == spec_lowercase(query@),
            found@ == matching(all@.subrange(0, i as int), query@),
        decreases all.len() - i,
    {
        proof {
            reveal(Seq::filter);
            assert(all@.subrange(0, i + 1).drop_last() =~= all@.subrange(0, i as int));
            assert(all@.subrange(0, i + 1).last() == all@[i as int]);
        }
        if name_contains(&all[i], &wanted) {
            found.push(all[i].clone());
        }
        i += 1;
    }
    assert(all@.subrange(0, all.len() as int) =~= all@);
    found
}

} // verus!
