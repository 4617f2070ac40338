//! Exercises of the catalog, and the video identifier of their instruction
//! links.

use vstd::prelude::*;

use crate::clock::{new_id, now_rfc3339};

verus! {

/// The text with leading and trailing whitespace removed.
pub uninterp spec fn trimmed(s: Seq<char>) -> Seq<char>;

/// Relies on `str::trim`: the result is a function of the text alone.
#[verifier::external_body]
fn trim_text(s: &str) -> (r: &str)
    ensures
        r@ == trimmed(s@),
{
    s.trim()
}

/// A video link as stored: a link that is empty or all whitespace is none.
pub open spec fn normalized_link(url: Option<String>) -> Option<String> {
    match url {
        Some(u) => if trimmed(u@).len() == 0 {
            None
        } else {
            Some(u)
        },
        None => None,
    }
}

/// Drops a video link that is empty or all whitespace.
pub fn normalize_video_url(url: Option<String>) -> (r: Option<String>)
    ensures
        r == normalized_link(url),
{
    match url {
        Some(u) => {
            if trim_text(u.as_str()).is_empty() {
                None
            } else {
                Some(u)
            }
        },
        None => None,
    }
}

/// The first index at or after `i` where `pat` occurs in `s`.
pub open spec fn find_from(s: Seq<char>, pat: Seq<char>, i: int) -> Option<int>
    decreases s.len() + 1 - i,
{
    if i < 0 || i + pat.len() > s.len() {
        None
    } else if s.subrange(i, i + pat.len()) == pat {
        Some(i)
    } else {
        find_from(s, pat, i + 1)
    }
}

/// The first index at or after `i` that holds `c`, or the length of `s`.
pub open spec fn char_end(s: Seq<char>, c: char, i: int) -> int
    decreases s.len() - i,
{
    if i < 0 || i >= s.len() {
        s.len() as int
    } else if s[i] == c {
        i
    } else {
        char_end(s, c, i + 1)
    }
}

/// The last index below `n` that holds `c`.
pub open spec fn last_index_below(s: Seq<char>, c: char, n: int) -> Option<int>
    decreases n,
{
    if n <= 0 || n > s.len() {
        None
    } else if s[n - 1] == c {
        Some(n - 1)
    } else {
        last_index_below(s, c, n - 1)
    }
}

/// The YouTube video identifier in a link: the text after the first `v=` up
/// to the next `&`; failing that, in a `youtu.be/` link, the text after the
/// last `/` up to the next `?`. Empty identifiers count as none.
pub open spec fn youtube_id_of(url: Seq<char>) -> Option<Seq<char>> {
    let by_query = match find_from(url, "v="@, 0) {
        Some(p) => url.subrange(p + 2, char_end(url, '&', p + 2)),
        None => Seq::empty(),
    };
    if find_from(url, "v="@, 0) is Some && by_query.len() > 0 {
        Some(by_query)
    } else if find_from(url, "youtu.be/"@, 0) is Some {
        match last_index_below(url, '/', url.len() as int) {
            Some(q) => {
                let short = url.subrange(q + 1, char_end(url, '?', q + 1));
                if short.len() > 0 {
                    Some(short)
                } else {
                    None
                }
            },
            None => None,
        }
    } else {
        None
    }
}

fn chars_of(s: &str) -> (r: Vec<char>)
    ensures
        r@ == s@,
{
    let n = s.unicode_len();
    let mut r: Vec<char> = Vec::new();
    let mut i: usize = 0;
    while i < n
        invariant
            n == s@.len(),
            i <= n,
            r@ == s@.take(i as int),
        decreases n - i,
    {
        r.push(s.get_char(i));
        i = i + 1;
        assert(r@ =~= s@.take(i as int));
    }
    assert(s@.take(i as int) =~= s@);
    r
}

fn occurs_at(s: &Vec<char>, pat: &Vec<char>, i: usize) -> (r: bool)
    requires
        i + pat@.len() <= s@.len(),
    ensures
        r == (s@.subrange(i as int, i + pat@.len()) == pat@),
{
    let n = s.len();
    let mut j: usize = 0;
    while j < pat.len()
        invariant
            n == s@.len(),
            i + pat@.len() <= s@.len(),
            j <= pat@.len(),
            forall|k: int| 0 <= k < j ==> s@[i + k] == pat@[k],
        decreases pat@.len() - j,
    {
        if s[i + j] != pat[j] {
            assert(s@.subrange(i as int, i + pat@.len())[j as int] != pat@[j as int]);
            return false;
        }
        j = j + 1;
    }
    assert(s@.subrange(i as int, i + pat@.len()) =~= pat@);
    true
}

fn find_text(s: &Vec<char>, pat: &Vec<char>) -> (r: Option<usize>)
    ensures
        r matches Some(k) ==> find_from(s@, pat@, 0) == Some(k as int) && k + pat@.len()
            <= s@.len(),
        r is None <==> find_from(s@, pat@, 0) is None,
{
    if pat.len() > s.len() {
        return None;
    }
    if pat.len() == 0 {
        assert(s@.subrange(0, 0) =~= pat@);
        return Some(0);
    }
    let last = s.len() - pat.len();
    let mut i: usize = 0;
    while i <= last
        invariant
            last == s@.len() - pat@.len(),
            last < usize::MAX,
            i <= last + 1,
            find_from(s@, pat@, 0) == find_from(s@, pat@, i as int),
        decreases last + 1 - i,
    {
        if occurs_at(s, pat, i) {
            return Some(i);
        }
        i = i + 1;
    }
    None
}

fn find_char_end(s: &Vec<char>, c: char, from: usize) -> (r: usize)
    requires
        from <= s@.len(),
    ensures
        r as int == char_end(s@, c, from as int),
        from <= r <= s@.len(),
{
    let mut i: usize = from;
    while i < s.len()
        invariant
            from <= i <= s@.len(),
            char_end(s@, c, from as int) == char_end(s@, c, i as int),
        decreases s@.len() - i,
    {
        if s[i] == c {
            return i;
        }
        i = i + 1;
    }
    i
}

fn find_last_char(s: &Vec<char>, c: char) -> (r: Option<usize>)
    ensures
        r matches Some(k) ==> last_index_below(s@, c, s@.len() as int) == Some(k as int) && k
            < s@.len(),
        r is None <==> last_index_below(s@, c, s@.len() as int) is None,
{
    let mut n: usize = s.len();
    while n > 0
        invariant
            n <= s@.len(),
            last_index_below(s@, c, s@.len() as int) == last_index_below(s@, c, n as int),
        decreases n,
    {
        if s[n - 1] == c {
            return Some(n - 1);
        }
        n = n - 1;
    }
    None
}

/// An exercise of the catalog, with an optional instruction video link.
#[derive(Debug)]
pub struct Exercise {
    pub id: String,
    pub name: String,
    pub instructions: String,
    pub video_url: Option<String>,
    pub created_at: String,
}

impl Exercise {
    /// A new exercise under a fresh identifier.
    pub fn new(name: String, instructions: String, video_url: Option<String>) -> (r: Self)
        ensures
            r.name == name,
            r.instructions == instructions,
            r.video_url == video_url,
            r.id@.len() == 36,
    {
        Exercise { id: new_id(), name, instructions, video_url, created_at: now_rfc3339() }
    }

    /// The YouTube video identifier of the instruction link, for embedding:
    /// supports `youtube.com/watch?v=ID` and `youtu.be/ID`.
    pub fn youtube_embed_id(&self) -> (r: Option<String>)
        ensures
            r is None <==> (self.video_url is None || youtube_id_of(self.video_url.unwrap()@) is None),
            r matches Some(id) ==> youtube_id_of(self.video_url.unwrap()@) == Some(id@),
    {
        let url = match &self.video_url {
            Some(u) => u.as_str(),
            None => {
                return None;
            },
        };
        proof {
            reveal_strlit("v=");
        }
        let s = chars_of(url);
        let query_key = chars_of("v=");
        let short_host = chars_of("youtu.be/");
        match find_text(&s, &query_key) {
            Some(p) => {
                let end = find_char_end(&s, '&', p + 2);
                if end > p + 2 {
                    return Some(url.substring_char(p + 2, end).to_owned());
                }
            },
            None => {},
        }
        if find_text(&s, &short_host).is_some() {
            match find_last_char(&s, '/') {
                Some(q) => {
                    let end = find_char_end(&s, '?', q + 1);
                    if end > q + 1 {
                        return Some(url.substring_char(q + 1, end).to_owned());
                    }
                },
                None => {},
            }
        }
        None
    }
}

/// Form: a new exercise.
#[derive(Debug)]
pub struct CreateExerciseForm {
    pub name: String,
    pub instructions: String,
    pub video_url: Option<String>,
}

} // verus!
