//! File names derived from source URLs.

use vstd::prelude::*;

use crate::error::ArchiveError;

verus! {

/// The part of `path` behind its last `/`, or all of it where it holds none.
pub open spec fn final_segment(path: Seq<char>) -> Seq<char>
    decreases path.len(),
{
    if path.len() == 0 || path.last() == '/' {
        Seq::empty()
    } else {
        final_segment(path.drop_last()).push(path.last())
    }
}

/// Whether `name` can name a file in a flat directory: it is not empty, holds
/// no `/`, and is neither `.` nor `..`.
pub open spec fn is_filename(name: Seq<char>) -> bool {
    &&& name.len() > 0
    &&& !name.contains('/')
    &&& name != seq!['.']
    &&& name != seq!['.', '.']
}

/// The file name that a URL path yields.
pub open spec fn filename_of_path(path: Seq<char>) -> Result<Seq<char>, ArchiveError> {
    let segment = final_segment(path);
    if segment.len() == 0 || segment == seq!['.'] || segment == seq!['.', '.'] {
        Err(ArchiveError::NoFilename)
    } else {
        Ok(segment)
    }
}

/// The final segment is the one suffix of the path that holds no `/` and is
/// either the whole path or preceded by a `/`.
pub proof fn lemma_final_segment(path: Seq<char>)
    ensures
        final_segment(path).len() <= path.len(),
        final_segment(path) == path.subrange(
            path.len() - final_segment(path).len(),
            path.len() as int,
        ),
        !final_segment(path).contains('/'),
        final_segment(path).len() < path.len() ==> path[path.len() - final_segment(path).len()
            - 1] == '/',
    decreases path.len(),
{
    if path.len() > 0 && path.last() != '/' {
        lemma_final_segment(path.drop_last());
    }
}

/// Derives the file name from the path of a URL: its final segment.
///
/// A path that ends in `/`, an empty path, and a final segment `.` or `..`
/// yield no file name.
pub fn filename_from_path(path: &str) -> (r: Result<String, ArchiveError>)
    ensures
        match r {
            Ok(name) => filename_of_path(path@) == Ok::<Seq<char>, ArchiveError>(name@),
            Err(e) => filename_of_path(path@) == Err::<Seq<char>, ArchiveError>(e),
        },
        r matches Ok(name) ==> is_filename(name@),
        r matches Err(e) ==> e == ArchiveError::NoFilename,
{
    proof {
        lemma_filename_of_path_is_filename(path@);
    }
    let len: usize = path.unicode_len();
    let mut start: usize = 0;
    let mut count: usize = 0;
    for c in it: path.chars()
        invariant
            it.seq() == path@,
            count == it.index(),
            start <= count <= len == path@.len(),
            final_segment(path@.take(count as int)) == path@.subrange(start as int, count as int),
    {
        assert(path@.take(count + 1).drop_last() =~= path@.take(count as int));
        count = count + 1;
        if c == '/' {
            start = count;
        }
    }
    assert(path@.take(count as int) =~= path@);
    let name = path.substring_char(start, count);
    let size: usize = count - start;
    let dots = if size == 1 {
        name.get_char(0) == '.'
    } else if size == 2 {
        name.get_char(0) == '.' && name.get_char(1) == '.'
    } else {
        false
    };
    assert(dots <==> (name@ =~= seq!['.'] || name@ =~= seq!['.', '.']));
    if size == 0 || dots {
        Err(ArchiveError::NoFilename)
    } else {
        Ok(String::from_str(name))
    }
}

/// The path component of `url` as `url::Url` reports it after parsing, or
/// `None` where `url` does not parse as an absolute URL.
pub uninterp spec fn url_path(url: Seq<char>) -> Option<Seq<char>>;

/// The error of `url::Url::parse`, carried only as far as the caller that
/// turns it into `ArchiveError::InvalidUrl`.
#[verifier::external_type_specification]
#[verifier::external_body]
pub struct ExParseError(url::ParseError);

/// Parses `url` with `url::Url::parse` and reads the path of the parsed URL
/// with `Url::path`.
///
/// The contract claims only that the outcome is a function of the text of
/// `url`: the same text parses to the same path, or fails, every time.
#[verifier::external_body]
fn parse_url_path(url: &str) -> (r: Result<String, url::ParseError>)
    ensures
        match r {
            Ok(path) => url_path(url@) == Some(path@),
            Err(_) => url_path(url@).is_none(),
        },
{
    match url::Url::parse(url) {
        Ok(parsed) => Ok(parsed.path().to_string()),
        Err(e) => Err(e),
    }
}

/// The file name under which the media at `url` is stored.
pub open spec fn filename_of_url(url: Seq<char>) -> Result<Seq<char>, ArchiveError> {
    match url_path(url) {
        None => Err(ArchiveError::InvalidUrl),
        Some(path) => filename_of_path(path),
    }
}

/// Derives the local file name of a media variant from its source URL.
///
/// Fails with `InvalidUrl` where the URL does not parse, and with
/// `NoFilename` where its path has no usable final segment.
pub fn filename_from_url(url: &str) -> (r: Result<String, ArchiveError>)
    ensures
        match r {
            Ok(name) => filename_of_url(url@) == Ok::<Seq<char>, ArchiveError>(name@),
            Err(e) => filename_of_url(url@) == Err::<Seq<char>, ArchiveError>(e),
        },
        r matches Ok(name) ==> is_filename(name@),
        r matches Err(e) ==> e == ArchiveError::InvalidUrl || e == ArchiveError::NoFilename,
{
    match parse_url_path(url) {
        Ok(path) => filename_from_path(path.as_str()),
        Err(_) => Err(ArchiveError::InvalidUrl),
    }
}

/// Every derived name is fit for a flat directory, and it is the final
/// segment of the path it came from.
pub proof fn lemma_filename_of_path_is_filename(path: Seq<char>)
    ensures
        filename_of_path(path) matches Ok(name) ==> is_filename(name) && name == final_segment(
            path,
        ),
        filename_of_path(path) matches Err(e) ==> e == ArchiveError::NoFilename,
{
    lemma_final_segment(path);
}

/// Two URLs that both yield a file name yield the same one exactly when
/// their paths end in the same segment: the name depends on nothing else.
pub proof fn lemma_filename_of_url_collision(a: Seq<char>, b: Seq<char>)
    requires
        filename_of_url(a) is Ok,
        filename_of_url(b) is Ok,
    ensures
        url_path(a) is Some,
        url_path(b) is Some,
        filename_of_url(a) == filename_of_url(b) <==> final_segment(url_path(a).unwrap())
            == final_segment(url_path(b).unwrap()),
{
}

/// The parts, each but the first preceded by `sep`, one after another.
pub open spec fn join(parts: Seq<Seq<char>>, sep: Seq<char>) -> Seq<char>
    decreases parts.len(),
{
    if parts.len() == 0 {
        Seq::empty()
    } else if parts.len() == 1 {
        parts[0]
    } else {
        join(parts.drop_last(), sep) + sep + parts.last()
    }
}

/// The name of the metadata file that goes with the files `names`: the names
/// joined by `__`, then `.txt`.
pub open spec fn metadata_filename_of(names: Seq<Seq<char>>) -> Seq<char> {
    join(names, "__"@) + ".txt"@
}

/// Joins `parts` with `sep` between neighbours.
pub fn join_names(parts: &Vec<String>, sep: &str) -> (joined: String)
    ensures
        joined@ == join(parts.deep_view(), sep@),
{
    let ghost views = parts.deep_view();
    let mut joined = String::new();
    for i in 0..parts.len()
        invariant
            views == parts.deep_view(),
            joined@ == join(views.take(i as int), sep@),
    {
        assert(views.take(i + 1).drop_last() =~= views.take(i as int));
        if i > 0 {
            joined.append(sep);
        }
        joined.append(parts[i].as_str());
    }
    assert(views.take(parts.len() as int) =~= views);
    joined
}

/// Derives the name of the metadata file of a post from the names of its
/// media files.
///
/// The order of `names` is part of the result: in another order the same
/// names are joined to another name.
pub fn metadata_filename(names: &Vec<String>) -> (filename: String)
    ensures
        filename@ == metadata_filename_of(names.deep_view()),
{
    let mut filename = join_names(names, "__");
    filename.append(".txt");
    filename
}

} // verus!
