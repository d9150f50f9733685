//! Classifying the playback source: what kind of location a URL names, and
//! which of a stream's offered formats is worth decoding.

use vstd::prelude::*;

verus! {

/// `sub` occurs in `s` starting at position `i`.
pub open spec fn matches_at(s: Seq<char>, sub: Seq<char>, i: int) -> bool {
    0 <= i && i + sub.len() <= s.len() && s.subrange(i, i + sub.len()) == sub
}

/// `sub` occurs somewhere in `s`.
pub open spec fn has_substring(s: Seq<char>, sub: Seq<char>) -> bool {
    exists|i: int| matches_at(s, sub, i)
}

/// `s` begins with `prefix`.
pub open spec fn starts_with_spec(s: Seq<char>, prefix: Seq<char>) -> bool {
    matches_at(s, prefix, 0)
}

/// Compares `sub` against the characters of `s` starting at `i`.
fn match_at(s: &str, sub: &str, i: usize, sub_len: usize) -> (r: bool)
    requires
        sub_len == sub@.len(),
        i + sub_len <= s@.len(),
        s@.len() <= usize::MAX,
    ensures
        r == matches_at(s@, sub@, i as int),
{
    let mut j: usize = 0;
    while j < sub_len
        invariant
            sub_len == sub@.len(),
            i + sub_len <= s@.len(),
            s@.len() <= usize::MAX,
            j <= sub_len,
            forall|k: int| 0 <= k < j ==> s@[i + k] == sub@[k],
        decreases sub_len - j,
    {
        if s.get_char(i + j) != sub.get_char(j) {
            proof {
                assert(s@.subrange(i as int, i + sub@.len())[j as int] != sub@[j as int]);
            }
            return false;
        }
        j += 1;
    }
    proof {
        assert(s@.subrange(i as int, i + sub@.len()) =~= sub@);
    }
    true
}

/// Whether `sub` occurs anywhere in `s`.
pub fn contains_substring(s: &str, sub: &str) -> (r: bool)
    ensures
        r == has_substring(s@, sub@),
{
    let n = s.unicode_len();
    let m = sub.unicode_len();
    if m > n {
        proof {
            assert(forall|i: int| !matches_at(s@, sub@, i));
        }
        return false;
    }
    if m == 0 {
        proof {
            assert(s@.subrange(0, 0) =~= sub@);
            assert(matches_at(s@, sub@, 0));
        }
        return true;
    }
    let mut i: usize = 0;
    while i <= n - m
        invariant
            n == s@.len(),
            m == sub@.len(),
            m <= n,
            i <= n - m + 1,
            m >= 1,
            forall|k: int| 0 <= k < i ==> !matches_at(s@, sub@, k),
        decreases n - i,
    {
        if match_at(s, sub, i, m) {
            return true;
        }
        i += 1;
    }
    proof {
        assert(forall|k: int| i <= k ==> !matches_at(s@, sub@, k));
    }
    false
}

/// Whether `s` begins with `prefix`.
pub fn str_starts_with(s: &str, prefix: &str) -> (r: bool)
    ensures
        r == starts_with_spec(s@, prefix@),
{
    let n = s.unicode_len();
    let m = prefix.unicode_len();
    if m > n {
        return false;
    }
    match_at(s, prefix, 0, m)
}

/// The kind of location a playback URL names: a video-platform page whose
/// direct stream must be resolved first, a local file path, or a direct
/// network URL.
#[derive(Debug)]
pub enum VideoUrl {
    YoutubeUrl(String),
    File(String),
    DirectUrl(String),
}

/// A URL that speaks HTTP.
pub open spec fn is_http_url(s: Seq<char>) -> bool {
    starts_with_spec(s, "http"@)
}

/// An HTTP URL on the video platform whose streams need resolving.
pub open spec fn is_youtube_url(s: Seq<char>) -> bool {
    has_substring(s, "youtube.com"@) || has_substring(s, "youtu.be"@)
}

impl VideoUrl {
    /// Classifies a source string: HTTP URLs of the video platform need
    /// resolution, other HTTP URLs are fetched directly, and anything else
    /// is a file path.
    pub fn from_str(s: &str) -> (url: VideoUrl)
        ensures
            url matches VideoUrl::YoutubeUrl(t) ==> t@ == s@,
            url matches VideoUrl::File(t) ==> t@ == s@,
            url matches VideoUrl::DirectUrl(t) ==> t@ == s@,
            url is YoutubeUrl <==> is_http_url(s@) && is_youtube_url(s@),
            url is DirectUrl <==> is_http_url(s@) && !is_youtube_url(s@),
            url is File <==> !is_http_url(s@),
    {
        if str_starts_with(s, "http") {
            if contains_substring(s, "youtube.com") || contains_substring(s, "youtu.be") {
                VideoUrl::YoutubeUrl(String::from_str(s))
            } else {
                VideoUrl::DirectUrl(String::from_str(s))
            }
        } else {
            VideoUrl::File(String::from_str(s))
        }
    }
}

/// One offered stream format: the codec name it advertises and its
/// selection score (picture height plus frame rate, in whole units).
#[derive(Debug)]
pub struct FormatChoice {
    pub vcodec: String,
    pub score: u64,
}

/// A format the player can use: its codec name mentions AVC.
pub open spec fn is_avc(f: FormatChoice) -> bool {
    has_substring(f.vcodec@, "avc"@)
}

/// Picks the format to decode: among the AVC formats, the one with the
/// highest score, the last such when scores tie. Nothing is picked when no
/// format is AVC.
pub fn pick_best_format(formats: &Vec<FormatChoice>) -> (best: Option<usize>)
    ensures
        best is None <==> (forall|i: int| 0 <= i < formats@.len() ==> !is_avc(formats@[i])),
        best matches Some(b) ==> 0 <= b < formats@.len() && is_avc(formats@[b as int]) && (forall|
            i: int|
            0 <= i < formats@.len() && is_avc(#[trigger] formats@[i]) ==> formats@[i].score
                <= formats@[b as int].score) && (forall|i: int|
            b < i < formats@.len() && is_avc(#[trigger] formats@[i]) ==> formats@[i].score
                < formats@[b as int].score),
{
    let mut best: Option<usize> = None;
    let mut i: usize = 0;
    while i < formats.len()
        invariant
            i <= formats@.len(),
            best is None <==> (forall|k: int| 0 <= k < i ==> !is_avc(formats@[k])),
            best matches Some(b) ==> 0 <= b < i && is_avc(formats@[b as int]) && (forall|k: int|
                0 <= k < i && is_avc(#[trigger] formats@[k]) ==> formats@[k].score
                    <= formats@[b as int].score) && (forall|k: int|
                b < k < i && is_avc(#[trigger] formats@[k]) ==> formats@[k].score
                    < formats@[b as int].score),
        decreases formats@.len() - i,
    {
        let candidate: &FormatChoice = &formats[i];
        if contains_substring(candidate.vcodec.as_str(), "avc") {
            match best {
                Option::Some(b) => {
                    if candidate.score >= formats[b].score {
                        best = Some(i);
                    }
                }
                Option::None => {
                    best = Some(i);
                }
            }
        }
        i += 1;
    }
    best
}

} // verus!
