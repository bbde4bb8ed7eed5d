//! Identifier extraction: the part of a URL that follows its last `=`.

use vstd::prelude::*;

verus! {

/// The character that separates a URL's identifier from what precedes it.
pub const SEPARATOR: char = '=';

/// Index just past the last separator of `s`, or 0 where `s` holds none.
pub open spec fn id_start(s: Seq<char>) -> int
    decreases s.len(),
{
    if s.len() == 0 {
        0
    } else if s.last() == SEPARATOR {
        s.len() as int
    } else {
        id_start(s.drop_last())
    }
}

/// The identifier of a URL: everything after its last separator, and the
/// whole URL where it has no separator.
pub open spec fn identifier(url: Seq<char>) -> Seq<char> {
    url.subrange(id_start(url), url.len() as int)
}

/// `id_start(s)` is a position of `s`; nothing from there on is a
/// separator, and what stands just before it, if anything, is one.
pub proof fn lemma_id_start(s: Seq<char>)
    ensures
        0 <= id_start(s) <= s.len(),
        forall|j: int| id_start(s) <= j < s.len() ==> s[j] != SEPARATOR,
        id_start(s) > 0 ==> s[id_start(s) - 1] == SEPARATOR,
        id_start(s) == 0 <==> !s.contains(SEPARATOR),
    decreases s.len(),
{
    if s.len() == 0 {
    } else if s.last() == SEPARATOR {
        assert(s[s.len() - 1] == SEPARATOR);
    } else {
        let t = s.drop_last();
        lemma_id_start(t);
        assert forall|j: int| id_start(s) <= j < s.len() implies s[j] != SEPARATOR by {
            if j < t.len() {
                assert(t[j] == s[j]);
            }
        }
        if id_start(s) > 0 {
            assert(t[id_start(t) - 1] == s[id_start(s) - 1]);
        }
        if t.contains(SEPARATOR) {
            let k = choose|k: int| 0 <= k < t.len() && t[k] == SEPARATOR;
            assert(s[k] == SEPARATOR);
        }
        if s.contains(SEPARATOR) {
            let k = choose|k: int| 0 <= k < s.len() && s[k] == SEPARATOR;
            assert(t[k] == SEPARATOR);
        }
    }
}

/// Scans `url` once and returns where its identifier starts, with the
/// number of characters of `url`.
fn locate_identifier(url: &str) -> (r: (usize, usize))
    ensures
        r.0 == id_start(url@),
        r.1 == url@.len(),
{
    let n = url.unicode_len();
    let mut start: usize = 0;
    let mut i: usize = 0;
    for c in it: url.chars()
        invariant
            n == url@.len(),
            it.seq() == url@,
            i == it.index(),
            start == id_start(url@.take(i as int)),
    {
        assert(url@.take(i + 1).drop_last() == url@.take(i as int));
        i = i + 1;
        if c == SEPARATOR {
            start = i;
        }
    }
    assert(url@.take(n as int) == url@);
    (start, n)
}

/// The identifier of `url` as an owned string.
fn last_segment(url: &str) -> (id: String)
    ensures
        id@ == identifier(url@),
{
    let (start, end) = locate_identifier(url);
    proof {
        lemma_id_start(url@);
    }
    url.substring_char(start, end).to_owned()
}

/// Whether `id` is what follows the last separator of `url`.
pub open spec fn follows_last_separator(id: Seq<char>, url: Seq<char>) -> bool {
    exists|k: int|
        {
            &&& 0 <= k < url.len()
            &&& #[trigger] url[k] == SEPARATOR
            &&& forall|j: int| k < j < url.len() ==> url[j] != SEPARATOR
            &&& id == url.subrange(k + 1, url.len() as int)
        }
}

/// Where `url` holds a separator its identifier is what follows the last
/// one; where it holds none, its identifier is `url` itself.
pub proof fn lemma_identifier(url: Seq<char>)
    ensures
        url.contains(SEPARATOR) ==> follows_last_separator(identifier(url), url),
        !url.contains(SEPARATOR) ==> identifier(url) == url,
        !identifier(url).contains(SEPARATOR),
{
    lemma_id_start(url);
    let id = identifier(url);
    if url.contains(SEPARATOR) {
        let k = id_start(url) - 1;
        assert(url[k] == SEPARATOR);
    } else {
        assert(id =~= url);
    }
    if id.contains(SEPARATOR) {
        let j = choose|j: int| 0 <= j < id.len() && id[j] == SEPARATOR;
        assert(url[id_start(url) + j] == SEPARATOR);
    }
}

/// Behind a prefix that ends in a separator, text without a separator is
/// the identifier.
pub proof fn lemma_identifier_after_separator(prefix: Seq<char>, id: Seq<char>)
    requires
        prefix.len() > 0,
        prefix.last() == SEPARATOR,
        !id.contains(SEPARATOR),
    ensures
        identifier(prefix + id) == id,
{
    let url = prefix + id;
    lemma_id_start(url);
    let start = id_start(url);
    assert(url[prefix.len() - 1] == SEPARATOR);
    if start > prefix.len() {
        assert(id[start - 1 - prefix.len()] == url[start - 1]);
    }
    assert(start == prefix.len());
    assert(identifier(url) =~= id);
}

/// Extracts the video identifier from a video URL: the text after the last
/// `=`, or the whole URL where it has no `=`. Every string has an
/// identifier, so the call never fails.
pub fn extract_video_id(video_url: &str) -> (r: Result<String, &'static str>)
    ensures
        r is Ok,
        r->Ok_0@ == identifier(video_url@),
        video_url@.contains(SEPARATOR) ==> follows_last_separator(r->Ok_0@, video_url@),
        !video_url@.contains(SEPARATOR) ==> r->Ok_0@ == video_url@,
{
    proof {
        lemma_identifier(video_url@);
    }
    Ok(last_segment(video_url))
}

/// Extracts the playlist identifier from a playlist URL: the text after the
/// last `=`, or the whole URL where it has no `=`. Every string has an
/// identifier, so the call never fails.
pub fn extract_playlist_id(playlist_url: &str) -> (r: Result<String, &'static str>)
    ensures
        r is Ok,
        r->Ok_0@ == identifier(playlist_url@),
        playlist_url@.contains(SEPARATOR) ==> follows_last_separator(r->Ok_0@, playlist_url@),
        !playlist_url@.contains(SEPARATOR) ==> r->Ok_0@ == playlist_url@,
{
    proof {
        lemma_identifier(playlist_url@);
    }
    Ok(last_segment(playlist_url))
}

} // verus!
