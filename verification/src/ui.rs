//! Installing a happ's UI: where its archive comes from and whether and where
//! it is unpacked.
use vstd::prelude::*;
use crate::text::{chars_of, str_eq};

verus! {

broadcast use vstd::string::group_string_axioms;

/// Where a happ's UI archive comes from.
pub enum UiSource {
    /// An archive on disk.
    Path(String),
    /// An archive to fetch from this url.
    Download(String),
    /// The happ has no UI: nothing to install.
    Skip,
}

/// The UI archive of a happ: its `ui_path` when it has one, else its
/// `ui_url` to download, else none.
pub fn ui_source(ui_path: Option<String>, ui_url: Option<String>) -> (r: UiSource)
    ensures
        match ui_path {
            Some(p) => r == UiSource::Path(p),
            None => match ui_url {
                Some(u) => r == UiSource::Download(u),
                None => r is Skip,
            },
        },
{
    match ui_path {
        Some(p) => UiSource::Path(p),
        None => match ui_url {
            Some(u) => UiSource::Download(u),
            None => UiSource::Skip,
        },
    }
}

/// How a file is obtained from its url.
#[derive(Clone, Copy, Debug, PartialEq, Eq, Structural)]
pub enum DownloadPlan {
    /// A `file:` url names a file on disk, at the url's path.
    UseLocalPath,
    /// Any other url is fetched over https.
    FetchOverHttps,
}

/// How to obtain a file whose url has the given scheme.
pub fn download_plan(scheme: &str) -> (r: DownloadPlan)
    ensures
        r == (if scheme@ == "file"@ { DownloadPlan::UseLocalPath } else { DownloadPlan::FetchOverHttps }),
{
    if str_eq(scheme, "file") {
        DownloadPlan::UseLocalPath
    } else {
        DownloadPlan::FetchOverHttps
    }
}

/// A fetch succeeded when its status is a 2xx status.
pub fn download_succeeded(status: u16) -> (r: bool)
    ensures
        r == (200 <= status <= 299),
{
    200 <= status && status <= 299
}

/// A segment closes: a segment that is neither empty nor `.` becomes the last
/// one seen.
pub open spec fn close_segment(cur: Seq<char>, last: Option<Seq<char>>) -> Option<Seq<char>> {
    if cur.len() > 0 && cur != seq!['.'] {
        Some(cur)
    } else {
        last
    }
}

/// The last segment of `path` that is neither empty nor `.`, reading from
/// position `i` with the segment `cur` open and `last` the last one closed.
pub open spec fn last_segment_from(path: Seq<char>, i: int, cur: Seq<char>, last: Option<Seq<char>>) -> Option<Seq<char>>
    decreases path.len() - i,
{
    if i < 0 || i >= path.len() {
        close_segment(cur, last)
    } else if path[i] == '/' {
        last_segment_from(path, i + 1, Seq::empty(), close_segment(cur, last))
    } else {
        last_segment_from(path, i + 1, cur.push(path[i]), last)
    }
}

/// The file name of a path, as `Path::file_name` gives it: its last component
/// (`/`-separated, with empty and `.` components skipped), unless that is `..`
/// or there is none.
pub open spec fn basename_of(path: Seq<char>) -> Option<Seq<char>> {
    match last_segment_from(path, 0, Seq::empty(), None) {
        Some(s) => if s == seq!['.', '.'] {
            None
        } else {
            Some(s)
        },
        None => None,
    }
}

/// The name under which a downloaded UI archive is saved: the file name of
/// the URL's path; `None` when the path has none.
pub fn download_basename(url_path: &str) -> (r: Option<String>)
    ensures
        match basename_of(url_path@) {
            Some(b) => r matches Some(s) && s@ == b,
            None => r is None,
        },
{
    let t = chars_of(url_path);
    let mut cur: Vec<char> = Vec::new();
    let mut last: Option<Vec<char>> = None;
    let mut i: usize = 0;
    while i < t.len()
        invariant
            t@ == url_path@,
            i <= t@.len(),
            last_segment_from(t@, 0, Seq::empty(), None) == last_segment_from(t@, i as int, cur@, match last {
                Some(v) => Some(v@),
                None => None,
            }),
        decreases t.len() - i,
    {
        if t[i] == '/' {
            if cur.len() > 0 && !(cur.len() == 1 && cur[0] == '.') {
                proof {
                    assert(cur@ != seq!['.']);
                }
                last = Some(cur);
            } else {
                proof {
                    if cur@.len() > 0 {
                        assert(cur@ =~= seq!['.']);
                    }
                }
            }
            cur = Vec::new();
        } else {
            cur.push(t[i]);
        }
        i = i + 1;
    }
    if cur.len() > 0 && !(cur.len() == 1 && cur[0] == '.') {
        proof {
            assert(cur@ != seq!['.']);
        }
        last = Some(cur);
    } else {
        proof {
            if cur@.len() > 0 {
                assert(cur@ =~= seq!['.']);
            }
        }
    }
    match last {
        Some(v) => {
            if v.len() == 2 && v[0] == '.' && v[1] == '.' {
                proof {
                    assert(v@ =~= seq!['.', '.']);
                }
                None
            } else {
                proof {
                    assert(v@ != seq!['.', '.']);
                }
                Some(string_of(&v))
            }
        },
        None => None,
    }
}

/// The string of a vector of characters.
fn string_of(v: &Vec<char>) -> (r: String)
    ensures
        r@ == v@,
{
    let mut s = String::new();
    let mut k: usize = 0;
    while k < v.len()
        invariant
            k <= v@.len(),
            s@ == v@.take(k as int),
        decreases v.len() - k,
    {
        s.push(v[k]);
        assert(v@.take(k + 1) =~= v@.take(k as int).push(v@[k as int]));
        k = k + 1;
    }
    assert(v@.take(v.len() as int) =~= v@);
    s
}

} // verus!
