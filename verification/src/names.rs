//! Entry names: the directory marker, hidden names, and supported audio
//! file extensions.

use vstd::prelude::*;
use vstd::string::*;

verus! {

/// What a sequence of strings holds, each string as its characters.
pub open spec fn string_views(strings: Seq<String>) -> Seq<Seq<char>> {
    strings.map_values(|s: String| s@)
}

/// The marker that precedes the name of every directory in a listing.
pub open spec fn dir_marker() -> Seq<char> {
    "<DIR> "@
}

/// The name that stands for the parent directory.
pub open spec fn parent_token() -> Seq<char> {
    ".."@
}

/// The display form of a directory name: the marker, then the name.
pub open spec fn decorated(name: Seq<char>) -> Seq<char> {
    dir_marker() + name
}

/// Whether a display string starts with the directory marker.
pub open spec fn has_marker(display: Seq<char>) -> bool {
    display.len() >= dir_marker().len() && display.subrange(0, dir_marker().len() as int)
        == dir_marker()
}

/// A display string without its first characters, as many as the marker has.
pub open spec fn stripped(display: Seq<char>) -> Seq<char> {
    display.subrange(dir_marker().len() as int, display.len() as int)
}

/// A name is hidden when it begins with a dot.
pub open spec fn is_hidden(name: Seq<char>) -> bool {
    name.len() > 0 && name[0] == '.'
}

/// The code point of a character, with the ASCII capitals mapped to their
/// small letters.
pub open spec fn ascii_fold(c: char) -> u32 {
    if 'A' <= c && c <= 'Z' {
        (c as u32 + 32) as u32
    } else {
        c as u32
    }
}

/// Two strings are equal up to the case of their ASCII letters.
pub open spec fn eq_ignore_ascii_case(a: Seq<char>, b: Seq<char>) -> bool {
    a.len() == b.len() && forall|i: int| 0 <= i < a.len() ==> ascii_fold(#[trigger] a[i]) == ascii_fold(b[i])
}

/// The index of the last dot in a name, if it has one.
pub open spec fn last_dot(name: Seq<char>) -> Option<int>
    decreases name.len(),
{
    if name.len() == 0 {
        None
    } else if name.last() == '.' {
        Some(name.len() - 1)
    } else {
        last_dot(name.drop_last())
    }
}

/// The extension of a visible file name: what follows its last dot.
pub open spec fn extension(name: Seq<char>) -> Option<Seq<char>> {
    match last_dot(name) {
        Some(p) => Some(name.subrange(p + 1, name.len() as int)),
        None => None,
    }
}

/// Whether an extension names one of the audio formats that can be played.
pub open spec fn is_supported_extension(ext: Seq<char>) -> bool {
    eq_ignore_ascii_case(ext, "wav"@) || eq_ignore_ascii_case(ext, "ogg"@)
        || eq_ignore_ascii_case(ext, "mp3"@) || eq_ignore_ascii_case(ext, "flac"@)
}

/// A file name is listed when it is not hidden and carries a supported
/// extension.
pub open spec fn is_supported_name(name: Seq<char>) -> bool {
    !is_hidden(name) && match extension(name) {
        Some(ext) => is_supported_extension(ext),
        None => false,
    }
}

/// A decorated name carries the marker, and stripping it gives the name back.
pub proof fn lemma_decorated_has_marker(name: Seq<char>)
    ensures
        has_marker(decorated(name)),
        stripped(decorated(name)) == name,
{
    let display = decorated(name);
    let marker = dir_marker();
    assert(display.subrange(0, marker.len() as int) =~= marker);
    assert(display.subrange(marker.len() as int, display.len() as int) =~= name);
}

/// Decorating what is left of a display string that carries the marker,
/// once the marker is stripped, gives the display string back.
pub proof fn lemma_marked_round_trip(display: Seq<char>)
    requires
        has_marker(display),
    ensures
        decorated(stripped(display)) == display,
{
    let marker = dir_marker();
    assert(display.subrange(0, marker.len() as int) + display.subrange(
        marker.len() as int,
        display.len() as int,
    ) =~= display);
}

/// Puts the directory marker in front of a name.
pub fn decorate(name: &str) -> (display: String)
    ensures
        display@ == decorated(name@),
{
    "<DIR> ".to_owned().concat(name)
}

/// Removes the directory marker from a display string.
pub fn strip_marker(display: &str) -> (name: String)
    requires
        has_marker(display@),
    ensures
        name@ == stripped(display@),
{
    proof {
        reveal_strlit("<DIR> ");
    }
    let n = display.unicode_len();
    display.substring_char(6, n).to_owned()
}

/// Tells whether a display string starts with the directory marker.
pub fn starts_with_marker(display: &str) -> (marked: bool)
    ensures
        marked == has_marker(display@),
{
    proof {
        reveal_strlit("<DIR> ");
    }
    let marker = "<DIR> ";
    let n = display.unicode_len();
    if n < 6 {
        return false;
    }
    let mut i: usize = 0;
    while i < 6
        invariant
            i <= 6,
            6 <= n,
            n == display@.len(),
            marker@ == dir_marker(),
            marker@.len() == 6,
            forall|j: int| 0 <= j < i ==> display@[j] == marker@[j],
        decreases 6 - i,
    {
        if display.get_char(i) != marker.get_char(i) {
            assert(display@.subrange(0, 6)[i as int] != dir_marker()[i as int]);
            return false;
        }
        i += 1;
    }
    assert(display@.subrange(0, 6) =~= dir_marker());
    true
}

/// Tells whether a name begins with a dot.
pub fn starts_with_dot(name: &str) -> (hidden: bool)
    ensures
        hidden == is_hidden(name@),
{
    !name.is_empty() && name.get_char(0) == '.'
}

fn fold_char(c: char) -> (code: u32)
    ensures
        code == ascii_fold(c),
{
    if 'A' <= c && c <= 'Z' {
        c as u32 + 32
    } else {
        c as u32
    }
}

/// A name whose only dot after `p` is none, and which has a dot at `p`, has
/// its last dot at `p`.
pub proof fn lemma_last_dot_found(name: Seq<char>, p: int)
    requires
        0 <= p < name.len(),
        name[p] == '.',
        forall|j: int| p < j < name.len() ==> name[j] != '.',
    ensures
        last_dot(name) == Some(p),
    decreases name.len(),
{
    if p < name.len() - 1 {
        lemma_last_dot_found(name.drop_last(), p);
    }
}

/// A name without any dot has no last dot.
pub proof fn lemma_last_dot_absent(name: Seq<char>)
    requires
        forall|j: int| 0 <= j < name.len() ==> name[j] != '.',
    ensures
        last_dot(name) is None,
    decreases name.len(),
{
    if name.len() > 0 {
        lemma_last_dot_absent(name.drop_last());
    }
}

/// Compares the characters of `name` from `start` on with `pattern`, up to
/// the case of ASCII letters.
fn tail_matches(name: &str, start: usize, len: usize, pattern: &str) -> (same: bool)
    requires
        start <= len,
        len == name@.len(),
    ensures
        same == eq_ignore_ascii_case(name@.subrange(start as int, len as int), pattern@),
{
    let m = pattern.unicode_len();
    if len - start != m {
        return false;
    }
    let ghost tail = name@.subrange(start as int, len as int);
    let mut i: usize = 0;
    while i < m
        invariant
            i <= m,
            m == pattern@.len(),
            len == name@.len(),
            start + m == len,
            tail == name@.subrange(start as int, len as int),
            forall|j: int| 0 <= j < i ==> ascii_fold(#[trigger] tail[j]) == ascii_fold(pattern@[j]),
        decreases m - i,
    {
        let a = name.get_char(start + i);
        let b = pattern.get_char(i);
        if fold_char(a) != fold_char(b) {
            assert(tail[i as int] == a);
            return false;
        }
        assert(tail[i as int] == a);
        i += 1;
    }
    true
}

/// Tells whether a file of this name is listed: not hidden, and with the
/// extension of a supported audio format.
pub fn is_supported_file_name(name: &str) -> (supported: bool)
    ensures
        supported == is_supported_name(name@),
{
    let len = name.unicode_len();
    if len == 0 || name.get_char(0) == '.' {
        proof {
            if len == 0 {
                assert(last_dot(name@) is None);
            }
        }
        return false;
    }
    let mut i: usize = len;
    while i > 0
        invariant
            i <= len,
            len == name@.len(),
            !is_hidden(name@),
            forall|j: int| i <= j < len ==> name@[j] != '.',
        decreases i,
    {
        if name.get_char(i - 1) == '.' {
            proof {
                lemma_last_dot_found(name@, i - 1);
                assert(extension(name@) == Some(name@.subrange(i as int, len as int)));
            }
            let wav = tail_matches(name, i, len, "wav");
            let ogg = tail_matches(name, i, len, "ogg");
            let mp3 = tail_matches(name, i, len, "mp3");
            let flac = tail_matches(name, i, len, "flac");
            return wav || ogg || mp3 || flac;
        }
        i -= 1;
    }
    proof {
        lemma_last_dot_absent(name@);
    }
    false
}

} // verus!
