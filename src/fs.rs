//! Filesystem paths, which are IRI references, and the filesystem
//! settings that do not depend on a particular filesystem.
use vstd::prelude::*;
use vstd::string::StrSliceExecFns;
use crate::conf::{conf_bool, Configuration};
use crate::error::IpcError;
use crate::keys::{
    FS_CLIENT_RESOLVE_REMOTE_SYMLINKS_DEFAULT, FS_CLIENT_RESOLVE_REMOTE_SYMLINKS_KEY,
    FS_DEFAULT_NAME_DEFAULT, FS_DEFAULT_NAME_KEY,
};
use crate::conf::{lookup, trim_of};

verus! {

/// Whether `s` is an IRI reference.
pub uninterp spec fn is_iri_reference(s: Seq<char>) -> bool;

/// Whether the IRI reference `s` is an IRI: it has a scheme.
pub uninterp spec fn is_absolute_iri(s: Seq<char>) -> bool;

/// The path component of the IRI reference `s`.
pub uninterp spec fn iri_path_of(s: Seq<char>) -> Seq<char>;

/// The IRI reference `reference` resolved against the IRI `base`.
pub uninterp spec fn iri_resolved_of(reference: Seq<char>, base: Seq<char>) -> Seq<char>;

/// Relies on `iref::IriRef::new`: whether the string parses as an IRI
/// reference.
#[verifier::external_body]
fn parse_iri_ref(s: &str) -> (r: bool)
    ensures
        r == is_iri_reference(s@),
{
    iref::IriRef::new(s).is_ok()
}

/// Relies on `iref::IriRef::as_iri`: whether the IRI reference is an IRI.
#[verifier::external_body]
fn iri_ref_is_iri(s: &str) -> (r: bool)
    requires
        is_iri_reference(s@),
    ensures
        r == is_absolute_iri(s@),
{
    match iref::IriRef::new(s) {
        Ok(i) => i.as_iri().is_some(),
        Err(_) => false,
    }
}

/// Relies on `iref::IriRef::path`: the path component of the IRI
/// reference.
#[verifier::external_body]
fn iri_ref_path(s: &str) -> (r: String)
    requires
        is_iri_reference(s@),
    ensures
        r@ == iri_path_of(s@),
{
    match iref::IriRef::new(s) {
        Ok(i) => i.path().as_str().to_owned(),
        Err(_) => String::new(),
    }
}

/// Relies on `iref::IriRef::resolved`: the reference resolved against the
/// base IRI, which is an IRI.
#[verifier::external_body]
fn iri_ref_resolved(reference: &str, base: &str) -> (r: String)
    requires
        is_iri_reference(reference@),
        is_iri_reference(base@),
        is_absolute_iri(base@),
    ensures
        r@ == iri_resolved_of(reference@, base@),
        is_iri_reference(r@),
        is_absolute_iri(r@),
{
    match (iref::IriRef::new(reference), iref::Iri::new(base)) {
        (Ok(r), Ok(b)) => r.resolved(b).as_str().to_owned(),
        _ => String::new(),
    }
}

/// The directory separator, a slash.
pub const SEPARATOR: char = '/';

/// A path of a filesystem: an IRI reference.
#[derive(Debug)]
pub struct Path {
    uri: String,
}

impl View for Path {
    type V = Seq<char>;

    closed spec fn view(&self) -> Seq<char> {
        self.uri@
    }
}

impl Path {
    #[verifier::type_invariant]
    spec fn well_formed(&self) -> bool {
        is_iri_reference(self.uri@)
    }

    /// The path that `s` writes, where `s` is an IRI reference.
    pub fn new(s: &str) -> (r: Result<Path, IpcError>)
        ensures
            is_iri_reference(s@) ==> (r matches Ok(p) && p@ == s@),
            !is_iri_reference(s@) ==> r == Err::<Path, IpcError>(IpcError::InvalidUri),
    {
        if parse_iri_ref(s) {
            Ok(Path { uri: s.to_owned() })
        } else {
            Err(IpcError::InvalidUri)
        }
    }

    /// A copy of this path.
    pub fn copy(&self) -> (r: Path)
        ensures
            r@ == self@,
    {
        proof {
            use_type_invariant(self);
        }
        Path { uri: self.uri.clone() }
    }

    /// Create a new Path based on the child path resolved against the
    /// parent path, which must be an IRI.
    pub fn from_parent(parent: &Path, child: &Path) -> (r: Result<Path, IpcError>)
        ensures
            is_absolute_iri(parent@) ==> (r matches Ok(p) && p@ == iri_resolved_of(child@, parent@)),
            !is_absolute_iri(parent@) ==> r == Err::<Path, IpcError>(IpcError::InvalidUri),
    {
        proof {
            use_type_invariant(parent);
            use_type_invariant(child);
        }
        if !iri_ref_is_iri(parent.uri.as_str()) {
            return Err(IpcError::InvalidUri);
        }
        let uri = iri_ref_resolved(child.uri.as_str(), parent.uri.as_str());
        Ok(Path { uri })
    }

    pub fn to_uri(&self) -> (r: &str)
        ensures
            r@ == self@,
    {
        self.uri.as_str()
    }

    /// The path component of this path's IRI reference.
    pub fn uri_path(&self) -> (r: String)
        ensures
            r@ == iri_path_of(self@),
    {
        proof {
            use_type_invariant(self);
        }
        iri_ref_path(self.uri.as_str())
    }

    /// Returns true if the path component (i.e. directory) of this URI is
    /// absolute: it starts with a slash.
    pub fn is_uri_path_absolute(&self) -> (r: bool)
        ensures
            r == (iri_path_of(self@).len() > 0 && iri_path_of(self@)[0] == SEPARATOR),
    {
        let path = self.uri_path();
        starts_with_separator(path.as_str())
    }
}

/// Whether a path component starts with the separator.
pub fn starts_with_separator(path: &str) -> (r: bool)
    ensures
        r == (path@.len() > 0 && path@[0] == SEPARATOR),
{
    path.unicode_len() > 0 && path.get_char(0) == SEPARATOR
}

/// Settings of an object that keeps a configuration.
pub trait Configurable {
    fn set_conf(&mut self, conf: &Configuration);

    fn get_conf(&self) -> &Configuration;
}

/// What a path makes absolute against the working directory: the path
/// itself where its path component is absolute, else the path resolved
/// against the working directory.
pub open spec fn fixed_path(working_dir: Seq<char>, p: Seq<char>) -> Result<Seq<char>, IpcError> {
    if iri_path_of(p).len() > 0 && iri_path_of(p)[0] == SEPARATOR {
        Ok(p)
    } else if is_absolute_iri(working_dir) {
        Ok(iri_resolved_of(p, working_dir))
    } else {
        Err(IpcError::InvalidUri)
    }
}

/// Makes `p` absolute against the working directory `working_dir`.
pub fn fix_relative_part(working_dir: &Path, p: &Path) -> (r: Result<Path, IpcError>)
    ensures
        match fixed_path(working_dir@, p@) {
            Ok(q) => r matches Ok(x) && x@ == q,
            Err(e) => r == Err::<Path, IpcError>(e),
        },
{
    if p.is_uri_path_absolute() {
        Ok(p.copy())
    } else {
        Path::from_parent(working_dir, p)
    }
}

/// Whether symbolic links are resolved, by the settings of `conf`.
pub fn get_resolve_symlinks(conf: &Configuration) -> (r: bool)
    ensures
        r == conf_bool(
            conf@,
            FS_CLIENT_RESOLVE_REMOTE_SYMLINKS_KEY@,
            FS_CLIENT_RESOLVE_REMOTE_SYMLINKS_DEFAULT,
        ),
{
    conf.get_bool(FS_CLIENT_RESOLVE_REMOTE_SYMLINKS_KEY, FS_CLIENT_RESOLVE_REMOTE_SYMLINKS_DEFAULT)
}

/// The default filesystem URI of `conf`.
pub fn get_default_uri(conf: &Configuration) -> (r: String)
    ensures
        r@ == match lookup(conf@, FS_DEFAULT_NAME_KEY@) {
            Some(v) => trim_of(v),
            None => FS_DEFAULT_NAME_DEFAULT@,
        },
{
    conf.get_trimmed_with_default(FS_DEFAULT_NAME_KEY, FS_DEFAULT_NAME_DEFAULT)
}

} // verus!
