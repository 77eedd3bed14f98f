//! Validates a user-supplied path against a root directory and keeps the
//! triple of root, absolute path and root-relative path.
//!
//! Paths are held as plain strings; joining appends one separator, and
//! stripping demands a strict prefix followed by a separator, so a path
//! equal to the root is rejected.  Only the three stat-like questions
//! (is it a directory, does it exist, what is it relative to the current
//! directory) go to the platform.

use crate::errors::AnytestError;
use crate::strutil::is_abs_path;
use crate::strutil::join_path;
use crate::strutil::join_path_str;
use crate::strutil::lemma_join_then_strip;
use crate::strutil::lemma_strip_then_join;
use crate::strutil::str_is_absolute;
use crate::strutil::strip_path;
use crate::strutil::strip_path_prefix;
use vstd::prelude::*;

verus! {

/// Relies on std::path::Path::is_dir: a stat call answering whether the
/// path names an existing directory.  The answer depends on the filesystem,
/// so nothing more is promised of it.
#[verifier::external_body]
fn path_is_dir(p: &str) -> bool {
    std::path::Path::new(p).is_dir()
}

/// Relies on std::path::Path::exists: a stat call answering whether the
/// path points at anything on the filesystem.  The answer depends on the
/// filesystem, so nothing more is promised of it.
#[verifier::external_body]
pub(crate) fn path_exists(p: &str) -> bool {
    std::path::Path::new(p).exists()
}

/// Relies on std::path::absolute: joins a relative path onto the process's
/// current directory, lexically.  Its documentation promises an absolute
/// result; `None` stands for its error cases (an empty path, an unreadable
/// current directory) and for a result that is not Unicode.
#[verifier::external_body]
fn absolutize(p: &str) -> (r: Option<String>)
    ensures
        r matches Some(a) ==> is_abs_path(a@),
{
    match std::path::absolute(p) {
        Ok(pb) => match pb.to_str() {
            Some(s) => Some(s.to_string()),
            None => None,
        },
        Err(_) => None,
    }
}

/// A validated path: the root it was resolved against, its absolute form,
/// and its root-relative remainder.
#[derive(Debug)]
pub struct RelPath {
    /// The absolute root directory.
    pub root: String,
    /// The absolute path, nested strictly under `root`.
    pub path: String,
    /// The remainder of `path` after `root` and one separator.
    pub rel: String,
}

/// The absolute path that resolution derives under an absolute root: the
/// path itself when absolute, the path joined onto the root otherwise.
pub open spec fn resolved_under(rt: Seq<char>, path: Seq<char>) -> Seq<char> {
    if is_abs_path(path) {
        path
    } else {
        join_path(rt, path)
    }
}

impl RelPath {
    /// The root is absolute and the relative part is exactly what stands
    /// under it.
    pub open spec fn wf(self) -> bool {
        &&& is_abs_path(self.root@)
        &&& strip_path(self.path@, self.root@) == Some(self.rel@)
    }

    /// Resolves `path` against `root`.  An absent root means the current
    /// directory; a relative root is resolved against the current
    /// directory first.  A relative path is joined onto the root, after
    /// dropping a leading copy of the relative root if the caller passed
    /// one.  Fails when the root is not an existing directory, when the
    /// path does not exist, or when the path is not strictly under the
    /// root.
    pub fn new(root: Option<&str>, path: &str) -> (r: Result<Self, AnytestError>)
        ensures
            r matches Ok(rp) ==> rp.wf(),
            r matches Ok(rp) ==> rp.path@ == join_path(rp.root@, rp.rel@),
            r matches Ok(rp) ==> (root matches Some(rt) ==> (is_abs_path(rt@) ==> rp.root@
                == rt@)),
            r matches Ok(rp) ==> (is_abs_path(path@) ==> rp.path@ == path@),
            r matches Ok(rp) ==> (root matches Some(rt) ==> (is_abs_path(rt@) && !is_abs_path(
                path@,
            ) ==> rp.path@ == join_path(rt@, path@) && rp.rel@ == path@)),
            r matches Ok(rp) ==> (root matches Some(rt) ==> (!is_abs_path(rt@) && !is_abs_path(
                path@,
            ) ==> rp.rel@ == match strip_path(path@, rt@) {
                Some(s) => s,
                None => path@,
            })),
            r matches Err(e) ==> (e == AnytestError::InvalidRoot || e == AnytestError::PathNotFound
                || e == AnytestError::PathEscapesRoot),
            r matches Err(e) ==> (root matches Some(rt) ==> (is_abs_path(rt@) ==> (e
                == AnytestError::PathEscapesRoot ==> strip_path(
                resolved_under(rt@, path@),
                rt@,
            ) is None))),
    {
        let ghost mut stripped_view: Option<Seq<char>> = None;
        let mut rel_root: Option<String> = None;
        let mut root_s: String = match root {
            Some(r) => String::from_str(r),
            None => match absolutize(".") {
                Some(c) => c,
                None => {
                    return Err(AnytestError::InvalidRoot);
                },
            },
        };

        if !str_is_absolute(root_s.as_str()) {
            rel_root = Some(root_s.clone());
            root_s = match absolutize(root_s.as_str()) {
                Some(a) => a,
                None => {
                    return Err(AnytestError::InvalidRoot);
                },
            };
        }

        if !path_is_dir(root_s.as_str()) {
            return Err(AnytestError::InvalidRoot);
        }

        let mut path_s: String = String::from_str(path);

        if !str_is_absolute(path_s.as_str()) {
            let stripped: Option<String> = match &rel_root {
                Some(rr) => strip_path_prefix(path_s.as_str(), rr.as_str()),
                None => None,
            };
            proof {
                stripped_view = match &stripped {
                    Some(st) => Some(st@),
                    None => None,
                };
            }
            if let Some(st) = stripped {
                path_s = st;
            }
            path_s = join_path_str(root_s.as_str(), path_s.as_str());
        }

        if !path_exists(path_s.as_str()) {
            return Err(AnytestError::PathNotFound);
        }

        let rel = match strip_path_prefix(path_s.as_str(), root_s.as_str()) {
            Some(rest) => rest,
            None => {
                return Err(AnytestError::PathEscapesRoot);
            },
        };

        proof {
            lemma_strip_then_join(path_s@, root_s@);
            match root {
                Some(rt) => {
                    if is_abs_path(rt@) && !is_abs_path(path@) && path@.len() > 0 {
                        lemma_join_then_strip(rt@, path@);
                    }
                    if !is_abs_path(rt@) && !is_abs_path(path@) {
                        match stripped_view {
                            Some(sv) => {
                                assert(sv.len() > 0);
                                lemma_join_then_strip(root_s@, sv);
                            },
                            None => {
                                if path@.len() > 0 {
                                    lemma_join_then_strip(root_s@, path@);
                                }
                            },
                        }
                    }
                },
                None => {},
            }
        }

        Ok(Self { root: root_s, path: path_s, rel })
    }

    pub fn root(&self) -> (r: &String)
        ensures
            r == self.root,
    {
        &self.root
    }

    pub fn path(&self) -> (r: &String)
        ensures
            r == self.path,
    {
        &self.path
    }

    pub fn rel(&self) -> (r: &String)
        ensures
            r == self.rel,
    {
        &self.rel
    }

    pub fn rel_str(&self) -> (r: &str)
        ensures
            r@ == self.rel@,
    {
        self.rel.as_str()
    }

    /// Resolves another path against this one's root.
    pub fn file(&self, path: &str) -> (r: Result<Self, AnytestError>)
        requires
            self.wf(),
        ensures
            r matches Ok(rp) ==> rp.wf() && rp.root@ == self.root@,
            r matches Ok(rp) ==> rp.path@ == join_path(rp.root@, rp.rel@),
            r matches Ok(rp) ==> (is_abs_path(path@) ==> rp.path@ == path@),
            r matches Ok(rp) ==> (!is_abs_path(path@) ==> rp.path@ == join_path(self.root@, path@)
                && rp.rel@ == path@),
            r matches Err(e) ==> (e == AnytestError::PathEscapesRoot ==> strip_path(
                resolved_under(self.root@, path@),
                self.root@,
            ) is None),
    {
        Self::new(Some(self.root.as_str()), path)
    }
}

} // verus!
