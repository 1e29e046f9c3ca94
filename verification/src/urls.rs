//! What a URL yields once parsed: its path and its query pairs.

use vstd::prelude::*;
use crate::text::{
    copy_chars,
    copy_range,
    find_last,
    last_index_of,
    lemma_last_index_of_bounds,
    to_chars,
};

verus! {

/// The decoded name-value pairs of the query of `url`, in the order in which
/// they appear; `None` where `url` does not parse as a URL.
pub uninterp spec fn url_query_pairs(url: Seq<char>) -> Option<Seq<(Seq<char>, Seq<char>)>>;

/// The path of `url` as the parser normalises it; `None` where `url` does not
/// parse as a URL.
pub uninterp spec fn url_path(url: Seq<char>) -> Option<Seq<char>>;

/// The character sequences of a list of string pairs.
pub open spec fn pair_texts(pairs: Seq<(String, String)>) -> Seq<(Seq<char>, Seq<char>)> {
    Seq::new(pairs.len(), |i: int| (pairs[i].0@, pairs[i].1@))
}

/// `url::Url::parse` followed by `Url::query_pairs`: the pairs are those of
/// the parsed URL, percent-decoded, in order. A URL that does not parse
/// gives `None`; one without a query gives no pairs.
#[verifier::external_body]
pub(crate) fn query_pairs(url: &str) -> (pairs: Option<Vec<(String, String)>>)
    ensures
        match pairs {
            Some(list) => url_query_pairs(url@) == Some(pair_texts(list@)),
            None => url_query_pairs(url@) is None,
        },
{
    let parsed = url::Url::parse(url).ok()?;
    Some(parsed.query_pairs().into_owned().collect())
}

/// `url::Url::parse` followed by `Url::path`: the path of the parsed URL,
/// `None` where the URL does not parse.
#[verifier::external_body]
pub(crate) fn parsed_path(url: &str) -> (path: Option<String>)
    ensures
        match path {
            Some(text) => url_path(url@) == Some(text@),
            None => url_path(url@) is None,
        },
{
    let parsed = url::Url::parse(url).ok()?;
    Some(parsed.path().to_string())
}

/// The path of a URL, if the URL parses.
pub fn get_url_path(url_str: &str) -> (path: Option<String>)
    ensures
        match path {
            Some(text) => url_path(url_str@) == Some(text@),
            None => url_path(url_str@) is None,
        },
{
    parsed_path(url_str)
}

/// Whether a path ends in something that names nothing: a slash, or a
/// segment that is a single dot.
pub open spec fn ends_idly(path: Seq<char>) -> bool {
    path.len() > 0 && (path.last() == '/' || (path.last() == '.' && (path.len() == 1
        || path[path.len() - 2] == '/')))
}

/// A path without the slashes and single-dot segments that end it.
pub open spec fn without_idle_end(path: Seq<char>) -> Seq<char>
    decreases path.len(),
{
    if ends_idly(path) {
        without_idle_end(path.drop_last())
    } else {
        path
    }
}

/// The extension of the file that a path names, read as
/// `std::path::Path::extension` reads a path with `/` as its separator.
/// Slashes and single-dot segments at the end are passed over; the file name
/// is the last segment of what is left, and the extension is what follows
/// its last dot. A name without a dot has none, nor has one whose only dot
/// opens it, nor the name `..`.
pub open spec fn path_extension(path: Seq<char>) -> Option<Seq<char>> {
    let named = without_idle_end(path);
    let name = named.skip(last_index_of(named, '/') + 1);
    let dot = last_index_of(name, '.');
    if dot <= 0 || name == ".."@ {
        None
    } else {
        Some(name.skip(dot + 1))
    }
}

fn idle_end(chars: &[char]) -> (end: usize)
    ensures
        end <= chars@.len(),
        chars@.take(end as int) == without_idle_end(chars@),
{
    let mut end: usize = chars.len();
    assert(chars@.take(end as int) =~= chars@);
    while end > 0 && (chars[end - 1] == '/' || (chars[end - 1] == '.' && (end == 1 || chars[end
        - 2] == '/')))
        invariant
            end <= chars@.len(),
            without_idle_end(chars@.take(end as int)) == without_idle_end(chars@),
        decreases end,
    {
        assert(chars@.take(end as int).drop_last() =~= chars@.take(end - 1));
        end -= 1;
    }
    end
}

/// The file extension in a path.
pub fn extension_of_path(path: &str) -> (ext: Option<String>)
    ensures
        match ext {
            Some(text) => path_extension(path@) == Some(text@),
            None => path_extension(path@) is None,
        },
{
    let chars = to_chars(path);
    let all = chars.as_slice();
    let end = idle_end(all);
    let ghost named = all@.take(end as int);
    let start: usize = match find_last(all, end, '/') {
        Some(slash) => slash + 1,
        None => 0,
    };
    let segment = copy_chars(all, start, end);
    let name = segment.as_slice();
    assert(name@ =~= named.skip(last_index_of(named, '/') + 1));
    assert(name@.take(name@.len() as int) =~= name@);
    proof {
        reveal_strlit("..");
        lemma_last_index_of_bounds(name@, '.');
    }
    match find_last(name, name.len(), '.') {
        Some(dot) => {
            if dot == 0 {
                None
            } else if name.len() == 2 && name[0] == '.' {
                assert(name@ =~= ".."@);
                None
            } else {
                assert(name@ != ".."@) by {
                    if name@.len() == 2 {
                        assert(".."@[0] == '.');
                    }
                }
                let ext = copy_range(name, dot + 1, name.len());
                assert(name@.subrange(dot + 1, name@.len() as int) =~= name@.skip(dot + 1));
                Some(ext)
            }
        },
        None => None,
    }
}

/// The file extension in the path of a URL; none where the URL does not
/// parse.
pub fn get_file_extension(url_str: &str) -> (ext: Option<String>)
    ensures
        match url_path(url_str@) {
            Some(path) => match ext {
                Some(text) => path_extension(path) == Some(text@),
                None => path_extension(path) is None,
            },
            None => ext is None,
        },
{
    match parsed_path(url_str) {
        Some(path) => extension_of_path(path.as_str()),
        None => None,
    }
}

} // verus!
