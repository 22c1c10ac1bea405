//! Deriving the name of the local directory from a repository URL.
//!
//! The name is the last path segment of the URL with every trailing `.git`
//! removed. A URL has no usable segment when nothing follows its last
//! slash, when only `.git` suffixes follow it, or when its last slash is
//! the one that ends the `://` after the scheme, so that what follows is a
//! host and not a path.

use vstd::prelude::*;
use crate::error::{ErrorKind, SyncError, SyncErrorView};
use crate::text::chars_of;

verus! {

/// The suffix that hosting services append to repository names.
pub open spec fn git_suffix() -> Seq<char> {
    seq!['.', 'g', 'i', 't']
}

/// The index of the last `/` in `s`, or -1 where it has none.
pub open spec fn last_slash(s: Seq<char>) -> int
    decreases s.len(),
{
    if s.len() == 0 {
        -1
    } else if s.last() == '/' {
        s.len() - 1
    } else {
        last_slash(s.drop_last())
    }
}

/// Whether the slash at index `k` is the second one of a `://`.
pub open spec fn closes_scheme(s: Seq<char>, k: int) -> bool {
    2 <= k < s.len() && s[k] == '/' && s[k - 1] == '/' && s[k - 2] == ':'
}

/// Whether `s` ends in `.git`.
pub open spec fn ends_with_suffix(s: Seq<char>) -> bool {
    s.len() >= 4 && s.subrange(s.len() - 4, s.len() as int) == git_suffix()
}

/// `s` without any of the `.git` suffixes it ends in.
pub open spec fn trim_suffix(s: Seq<char>) -> Seq<char>
    decreases s.len(),
{
    if ends_with_suffix(s) {
        trim_suffix(s.subrange(0, s.len() - 4))
    } else {
        s
    }
}

/// What follows the last slash of `url`; the whole of it where it has no
/// slash.
pub open spec fn last_segment(url: Seq<char>) -> Seq<char> {
    url.subrange(last_slash(url) + 1, url.len() as int)
}

/// The directory name that `url` yields, if it yields one.
pub open spec fn repo_name(url: Seq<char>) -> Option<Seq<char>> {
    if closes_scheme(url, last_slash(url)) || trim_suffix(last_segment(url)).len() == 0 {
        None
    } else {
        Some(trim_suffix(last_segment(url)))
    }
}

/// `last_slash` points at a slash that no other slash follows.
pub proof fn lemma_last_slash(s: Seq<char>)
    ensures
        -1 <= last_slash(s) < s.len(),
        last_slash(s) >= 0 ==> s[last_slash(s)] == '/',
        forall|j: int| last_slash(s) < j < s.len() ==> s[j] != '/',
    decreases s.len(),
{
    if s.len() > 0 && s.last() != '/' {
        lemma_last_slash(s.drop_last());
        assert forall|j: int| last_slash(s) < j < s.len() implies s[j] != '/' by {
            if j < s.len() - 1 {
                assert(s.drop_last()[j] == s[j]);
            }
        }
    }
}

/// A derived name is never empty, holds no slash, does not end in `.git`,
/// and is a piece of the URL it came from.
pub proof fn lemma_repo_name_is_clean(url: Seq<char>)
    requires
        repo_name(url) is Some,
    ensures
        repo_name(url)->0.len() > 0,
        is_plain(repo_name(url)->0),
        !ends_with_suffix(repo_name(url)->0),
        repo_name(url)->0.len() <= url.len(),
        repo_name(url)->0 == url.subrange(
            last_slash(url) + 1,
            last_slash(url) + 1 + repo_name(url)->0.len(),
        ),
{
    lemma_last_slash(url);
    let seg = last_segment(url);
    lemma_trim_suffix(seg);
    let name = trim_suffix(seg);
    assert(name == url.subrange(last_slash(url) + 1, last_slash(url) + 1 + name.len()));
    assert forall|j: int| 0 <= j < name.len() implies name[j] != '/' by {
        assert(name[j] == seg[j]);
        assert(seg[j] == url[last_slash(url) + 1 + j]);
    }
}

/// Trimming keeps a prefix, takes whole suffixes away, and leaves
/// nothing to trim.
pub proof fn lemma_trim_suffix(s: Seq<char>)
    ensures
        trim_suffix(s).len() <= s.len(),
        trim_suffix(s) == s.subrange(0, trim_suffix(s).len() as int),
        (s.len() - trim_suffix(s).len()) % 4 == 0,
        !ends_with_suffix(trim_suffix(s)),
    decreases s.len(),
{
    if ends_with_suffix(s) {
        let shorter = s.subrange(0, s.len() - 4);
        lemma_trim_suffix(shorter);
        assert(trim_suffix(s) == shorter.subrange(0, trim_suffix(s).len() as int));
        assert(trim_suffix(s) == s.subrange(0, trim_suffix(s).len() as int));
    } else {
        assert(s == s.subrange(0, s.len() as int));
    }
}

/// `count` suffixes `.git`, one after the other.
pub open spec fn suffixes(count: nat) -> Seq<char>
    decreases count,
{
    if count == 0 {
        Seq::<char>::empty()
    } else {
        suffixes((count - 1) as nat) + git_suffix()
    }
}

/// Whether `s` holds no slash.
pub open spec fn is_plain(s: Seq<char>) -> bool {
    forall|j: int| 0 <= j < s.len() ==> s[j] != '/'
}

/// Text without a slash, put behind other text, leaves the last slash
/// where it was.
pub proof fn lemma_last_slash_skips_plain_text(front: Seq<char>, plain: Seq<char>)
    requires
        is_plain(plain),
    ensures
        last_slash(front + plain) == last_slash(front),
    decreases plain.len(),
{
    if plain.len() == 0 {
        assert(front + plain =~= front);
    } else {
        let whole = front + plain;
        assert(whole.last() == plain.last());
        assert(whole.drop_last() =~= front + plain.drop_last());
        lemma_last_slash_skips_plain_text(front, plain.drop_last());
    }
}

/// A run of suffixes holds no slash, and its length is four times their
/// number.
pub proof fn lemma_suffixes_are_plain(count: nat)
    ensures
        is_plain(suffixes(count)),
        suffixes(count).len() == 4 * count,
    decreases count,
{
    if count > 0 {
        lemma_suffixes_are_plain((count - 1) as nat);
    }
}

/// Trimming takes a run of suffixes away from a name that does not end
/// in one itself.
pub proof fn lemma_trim_takes_suffixes_away(name: Seq<char>, count: nat)
    requires
        !ends_with_suffix(name),
    ensures
        trim_suffix(name + suffixes(count)) == name,
    decreases count,
{
    if count == 0 {
        assert(name + suffixes(count) =~= name);
    } else {
        let shorter = name + suffixes((count - 1) as nat);
        let whole = name + suffixes(count);
        assert(whole =~= shorter + git_suffix());
        assert(whole.subrange(whole.len() - 4, whole.len() as int) =~= git_suffix());
        assert(whole.subrange(0, whole.len() - 4) =~= shorter);
        lemma_trim_takes_suffixes_away(name, (count - 1) as nat);
    }
}

/// How a URL yields its name: where the URL is a front that is empty or
/// ends in a slash other than the one that closes `://`, then a name
/// without a slash that does not itself end in `.git`, then any number of
/// `.git`, the name is what it yields.
pub proof fn lemma_name_between_front_and_suffixes(
    front: Seq<char>,
    name: Seq<char>,
    count: nat,
)
    requires
        front.len() == 0 || front.last() == '/',
        !closes_scheme(front, front.len() - 1),
        name.len() > 0,
        is_plain(name),
        !ends_with_suffix(name),
    ensures
        repo_name(front + name + suffixes(count)) == Some(name),
{
    let url = front + name + suffixes(count);
    let rest = name + suffixes(count);
    lemma_suffixes_are_plain(count);
    assert(url =~= front + rest);
    assert(is_plain(rest));
    lemma_last_slash_skips_plain_text(front, rest);
    assert(last_slash(front) == front.len() - 1);
    assert(last_segment(url) =~= rest);
    lemma_trim_takes_suffixes_away(name, count);
    if front.len() >= 3 {
        assert(url[front.len() - 1] == front[front.len() - 1]);
        assert(url[front.len() - 2] == front[front.len() - 2]);
        assert(url[front.len() - 3] == front[front.len() - 3]);
    }
}

/// A URL with nothing but `.git` after its last slash, or with nothing at
/// all there, yields no name.
pub proof fn lemma_no_name_without_segment(front: Seq<char>, count: nat)
    requires
        front.len() == 0 || front.last() == '/',
    ensures
        repo_name(front + suffixes(count)) is None,
{
    let url = front + suffixes(count);
    lemma_suffixes_are_plain(count);
    lemma_last_slash_skips_plain_text(front, suffixes(count));
    assert(last_slash(front) == front.len() - 1);
    assert(last_segment(url) =~= suffixes(count));
    assert(!ends_with_suffix(Seq::<char>::empty()));
    lemma_trim_takes_suffixes_away(Seq::<char>::empty(), count);
    assert(Seq::<char>::empty() + suffixes(count) =~= suffixes(count));
}

/// A URL whose last slash closes `://` yields no name, whatever host
/// follows.
pub proof fn lemma_no_name_after_scheme(front: Seq<char>, host: Seq<char>)
    requires
        closes_scheme(front, front.len() - 1),
        is_plain(host),
    ensures
        repo_name(front + host) is None,
{
    let url = front + host;
    lemma_last_slash_skips_plain_text(front, host);
    assert(front.last() == '/');
    assert(last_slash(front) == front.len() - 1);
    assert(url[front.len() - 1] == front[front.len() - 1]);
    assert(url[front.len() - 2] == front[front.len() - 2]);
    assert(url[front.len() - 3] == front[front.len() - 3]);
}

/// The index of the last `/` among the first `chars.len()` characters, as
/// an index one past it: 0 where there is none.
fn segment_start(chars: &Vec<char>) -> (start: usize)
    ensures
        start as int == last_slash(chars@) + 1,
{
    let mut start: usize = 0;
    let mut i: usize = 0;
    while i < chars.len()
        invariant
            0 <= i <= chars.len(),
            start as int == last_slash(chars@.take(i as int)) + 1,
            start <= i,
        decreases chars.len() - i,
    {
        proof {
            let next = chars@.take(i + 1);
            assert(next.drop_last() == chars@.take(i as int));
            assert(next.last() == chars@[i as int]);
        }
        if chars[i] == '/' {
            start = i + 1;
        }
        i = i + 1;
    }
    proof {
        assert(chars@.take(chars.len() as int) == chars@);
    }
    start
}

/// Whether the four characters before `end` spell `.git`.
fn suffix_before(chars: &Vec<char>, start: usize, end: usize) -> (found: bool)
    requires
        start <= end <= chars.len(),
    ensures
        found == ends_with_suffix(chars@.subrange(start as int, end as int)),
{
    if end - start < 4 {
        return false;
    }
    let found = chars[end - 4] == '.' && chars[end - 3] == 'g' && chars[end - 2] == 'i'
        && chars[end - 1] == 't';
    proof {
        let piece = chars@.subrange(start as int, end as int);
        let tail = piece.subrange(piece.len() - 4, piece.len() as int);
        assert(tail.len() == 4);
        assert(tail[0] == chars@[end - 4]);
        assert(tail[1] == chars@[end - 3]);
        assert(tail[2] == chars@[end - 2]);
        assert(tail[3] == chars@[end - 1]);
        if found {
            assert(tail =~= git_suffix());
        } else {
            assert(tail[0] != git_suffix()[0] || tail[1] != git_suffix()[1] || tail[2]
                != git_suffix()[2] || tail[3] != git_suffix()[3]);
        }
    }
    found
}

/// Where the segment that starts at `start` ends once its `.git` suffixes
/// are left out.
fn trimmed_end(chars: &Vec<char>, start: usize) -> (end: usize)
    requires
        start <= chars.len(),
    ensures
        start <= end <= chars.len(),
        chars@.subrange(start as int, end as int) == trim_suffix(
            chars@.subrange(start as int, chars.len() as int),
        ),
{
    let mut end: usize = chars.len();
    while suffix_before(chars, start, end)
        invariant
            start <= end <= chars.len(),
            trim_suffix(chars@.subrange(start as int, end as int)) == trim_suffix(
                chars@.subrange(start as int, chars.len() as int),
            ),
        decreases end - start,
    {
        proof {
            let piece = chars@.subrange(start as int, end as int);
            assert(piece.subrange(0, piece.len() - 4) == chars@.subrange(
                start as int,
                end - 4,
            ));
        }
        end = end - 4;
    }
    end
}

/// Derives the name of the local directory from a repository URL.
///
/// Returns the name where the URL yields one, and `InvalidUrl` with no
/// cause text where it does not.
pub fn derive_repo_name(url: &str) -> (r: Result<String, SyncError>)
    ensures
        match r {
            Ok(name) => repo_name(url@) == Some(name@),
            Err(e) => repo_name(url@) is None && e@ == (SyncErrorView {
                kind: ErrorKind::InvalidUrl,
                detail: Seq::<char>::empty(),
            }),
        },
{
    let chars = chars_of(url);
    let start = segment_start(&chars);
    proof {
        lemma_last_slash(chars@);
    }
    if start >= 3 && chars[start - 2] == '/' && chars[start - 3] == ':' {
        return Err(SyncError::bare(ErrorKind::InvalidUrl));
    }
    let end = trimmed_end(&chars, start);
    if end == start {
        return Err(SyncError::bare(ErrorKind::InvalidUrl));
    }
    let name = url.substring_char(start, end);
    Ok(name.to_owned())
}

} // verus!
