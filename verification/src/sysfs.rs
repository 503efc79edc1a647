//! The seam through which every provider reads and writes sysfs/procfs
//! files, so the logic above it can be exercised against in-memory
//! fixtures. Paths are `/`-separated text.

use vstd::prelude::*;
use crate::text::{append_str, chars_of, copy_range, string_of};

verus! {

/// A failed filesystem or subprocess call, classified by the distinctions
/// the providers act on.
#[derive(Debug, Clone, PartialEq)]
pub enum IoError {
    /// The file, directory or program does not exist.
    NotFound,
    /// The caller lacks permission.
    PermissionDenied,
    /// Any other failure, with its human-readable description.
    Other(String),
}

/// Reads sysfs/procfs-style files, lists directories, and writes attribute
/// files. `read_dir` returns the full path of each entry.
///
/// Each call is accounted for by a relation on the reader:
/// `read_result(path, r)` holds of a read of `path` that answered `r`,
/// `listing_result(path, r)` of a listing, and `write_result(path, content,
/// r)` of a write of `content` to `path`. An implementation may define them
/// to describe its files; by default they hold of any answer. Code written
/// for every reader can establish them only by making the call, so a
/// contract stated over them says which path was read or written, and with
/// what.
pub trait SysfsReader: Send + Sync {
    open spec fn read_result(&self, path: Seq<char>, r: Result<String, IoError>) -> bool {
        true
    }

    open spec fn listing_result(&self, path: Seq<char>, r: Result<Vec<String>, IoError>) -> bool {
        true
    }

    open spec fn write_result(
        &self,
        path: Seq<char>,
        content: Seq<char>,
        r: Result<(), IoError>,
    ) -> bool {
        true
    }

    fn read_to_string(&self, path: &str) -> (r: Result<String, IoError>)
        ensures
            self.read_result(path@, r),
    ;

    fn read_dir(&self, path: &str) -> (r: Result<Vec<String>, IoError>)
        ensures
            self.listing_result(path@, r),
    ;

    fn write_to_string(&self, path: &str, content: &str) -> (r: Result<(), IoError>)
        ensures
            self.write_result(path@, content@, r),
    ;
}

/// `base` joined with the relative component `name`, with exactly one `/`
/// between them unless `base` is empty.
pub open spec fn path_join(base: Seq<char>, name: Seq<char>) -> Seq<char> {
    if base.len() == 0 || base.last() == '/' {
        base + name
    } else {
        base + seq!['/'] + name
    }
}

/// The last component of a path: the text after its last `/`, absent when
/// that text is empty.
pub open spec fn file_name(path: Seq<char>) -> Option<Seq<char>>
    decreases path.len(),
{
    file_name_from(path, path.len() as int)
}

pub open spec fn file_name_from(path: Seq<char>, end: int) -> Option<Seq<char>>
    recommends
        0 <= end <= path.len(),
    decreases end,
{
    last_slash_search(path, end, end)
}

/// Scans `path[..k]` backwards for a `/`; the component is `path[slash+1..end]`.
pub open spec fn last_slash_search(path: Seq<char>, k: int, end: int) -> Option<Seq<char>>
    decreases k,
{
    if k <= 0 {
        if end > 0 {
            Some(path.subrange(0, end))
        } else {
            None
        }
    } else if path[k - 1] == '/' {
        if k < end {
            Some(path.subrange(k, end))
        } else {
            None
        }
    } else {
        last_slash_search(path, k - 1, end)
    }
}

pub fn join_path(base: &str, name: &str) -> (r: String)
    ensures
        r@ == path_join(base@, name@),
{
    let mut v = chars_of(base);
    if v.len() > 0 && v[v.len() - 1] != '/' {
        v.push('/');
    }
    append_str(&mut v, name);
    assert(v@ =~= path_join(base@, name@));
    string_of(v.as_slice())
}

pub fn file_name_of(path: &str) -> (r: Option<Vec<char>>)
    ensures
        match r {
            Some(n) => file_name(path@) == Some(n@),
            None => file_name(path@) is None,
        },
{
    let v = chars_of(path);
    let end = v.len();
    let mut k = end;
    while k > 0 && v[k - 1] != '/'
        invariant
            k <= end == v.len(),
            v@ == path@,
            last_slash_search(v@, end as int, end as int) == last_slash_search(
                v@,
                k as int,
                end as int,
            ),
        decreases k,
    {
        k = k - 1;
    }
    if k < end {
        Some(copy_range(v.as_slice(), k, end))
    } else {
        None
    }
}

} // verus!
