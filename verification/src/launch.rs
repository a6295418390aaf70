//! Routing of the file URLs that the operating system hands over at launch,
//! or while the editor runs, to a single request to open a path.

use vstd::prelude::*;

verus! {

/// The event that tells the frontend to open a path; the path is its payload.
pub const OPEN_FILE_EVENT: &'static str = "open-file";

/// The local filesystem path that the text of a URL stands for on the
/// platform the library is built for: what `url::Url::to_file_path` gives
/// for the URL that `url::Url::parse` reads from the text, with bytes that
/// are not UTF-8 replaced as `to_string_lossy` does. `None` where the text is
/// no URL, or the URL names no local file.
pub uninterp spec fn local_path_of(url: Seq<char>) -> Option<Seq<char>>;

/// `Url::parse` followed by `Url::to_file_path`, from text to text.
///
/// The contract only gives the result its name: which URLs are URLs of local
/// files, and which path each stands for, stays with the `url` crate.
#[verifier::external_body]
fn file_path_from_url(url: &str) -> (path: Option<String>)
    ensures
        path.deep_view() == local_path_of(url@),
{
    match url::Url::parse(url) {
        Ok(url) => url.to_file_path().ok().map(|path| path.to_string_lossy().to_string()),
        Err(_) => None,
    }
}

/// The local path of each URL, in the order of the URLs.
pub fn local_paths(urls: &Vec<String>) -> (paths: Vec<Option<String>>)
    ensures
        paths.len() == urls.len(),
        forall|i: int|
            #![trigger paths[i]]
            #![trigger urls[i]]
            0 <= i < urls.len() ==> paths[i].deep_view() == local_path_of(urls[i]@),
{
    let mut paths: Vec<Option<String>> = Vec::new();
    let mut i: usize = 0;
    while i < urls.len()
        invariant
            i <= urls.len(),
            paths.len() == i,
            forall|k: int|
                0 <= k < i ==> (#[trigger] paths[k]).deep_view() == local_path_of(urls[k]@),
        decreases urls.len() - i,
    {
        paths.push(file_path_from_url(urls[i].as_str()));
        i = i + 1;
    }
    paths
}

/// The first candidate that is present, if any is.
pub fn first_present(candidates: Vec<Option<String>>) -> (first: Option<String>)
    ensures
        match first {
            Some(path) => exists|i: int|
                0 <= i < candidates.len() && (#[trigger] candidates[i]).deep_view() == Some(path@)
                    && forall|j: int| 0 <= j < i ==> (#[trigger] candidates[j]) is None,
            None => forall|i: int| 0 <= i < candidates.len() ==> (#[trigger] candidates[i]) is None,
        },
{
    let mut rest = candidates;
    let mut first: Option<String> = None;
    let ghost mut at: int = candidates.len() as int;
    while rest.len() > 0
        invariant
            rest@ == candidates@.take(rest.len() as int),
            rest.len() <= at <= candidates.len(),
            first is Some <==> at < candidates.len(),
            first is Some ==> candidates[at] == first,
            forall|j: int| rest.len() <= j < at ==> (#[trigger] candidates[j]) is None,
        decreases rest.len(),
    {
        let ghost before = rest@;
        let last = rest.pop();
        proof {
            assert(rest@ =~= candidates@.take(rest.len() as int));
            assert(last == Some(before[rest.len() as int]));
            assert(before[rest.len() as int] == candidates[rest.len() as int]);
        }
        match last {
            Some(Some(path)) => {
                first = Some(path);
                proof {
                    at = rest.len() as int;
                }
            },
            _ => {},
        }
    }
    first
}

/// The path to open for one launch or one open-URL event: that of the first
/// URL that stands for a local file. URLs that stand for none are passed
/// over, and so is every URL after the first that does.
pub fn launch_path(urls: &Vec<String>) -> (path: Option<String>)
    ensures
        match path {
            Some(path) => exists|i: int|
                0 <= i < urls.len() && local_path_of(#[trigger] urls[i]@) == Some(path@)
                    && forall|j: int| 0 <= j < i ==> local_path_of(#[trigger] urls[j]@) is None,
            None => forall|i: int|
                0 <= i < urls.len() ==> local_path_of(#[trigger] urls[i]@) is None,
        },
{
    first_present(local_paths(urls))
}

} // verus!
