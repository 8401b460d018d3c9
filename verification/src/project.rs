//! A project on disk: its root directory and what is derived from it.
//!
//! Paths are held as text. What the standard library and the `url` crate
//! make of a path is named, not spelled out: it follows the path syntax of
//! the platform that the library is built for.

use vstd::prelude::*;
use vstd::string::*;
use vstd::std_specs::cmp::PartialEqSpecImpl;

verus! {

/// The path that `std::path::Path::join` gives for `base` and `rel` under the
/// platform's path syntax.
pub uninterp spec fn joined_path(base: Seq<char>, rel: Seq<char>) -> Seq<char>;

/// What `std::path::Path::strip_prefix` leaves of `path` once `base` is taken
/// from its front, or `None` where `base` is no prefix of `path`, component
/// by component.
pub uninterp spec fn stripped_path(path: Seq<char>, base: Seq<char>) -> Option<Seq<char>>;

/// The last component of `path` as `std::path::Path::file_name` gives it.
pub uninterp spec fn final_component(path: Seq<char>) -> Option<Seq<char>>;

/// The text of the `file://` URL that `url::Url::from_file_path` builds for
/// `path`, or `None` where it refuses the path.
pub uninterp spec fn file_url_text(path: Seq<char>) -> Option<Seq<char>>;

/// The text that the `Debug` impl of `std::path::Path` writes for `path`.
pub uninterp spec fn debug_text(path: Seq<char>) -> Seq<char>;

/// The text that `str::to_lowercase` gives for `text`.
pub uninterp spec fn lowercase_text(text: Seq<char>) -> Seq<char>;

/// `text` with every `from` replaced by `to`.
pub open spec fn with_separator(text: Seq<char>, from: char, to: char) -> Seq<char> {
    Seq::new(text.len(), |i: int| if text[i] == from { to } else { text[i] })
}

/// The view of an optional string.
pub open spec fn opt_view(o: Option<String>) -> Option<Seq<char>> {
    match o {
        Some(s) => Some(s@),
        None => None,
    }
}

/// The views of a sequence of strings.
pub open spec fn texts(strings: Seq<String>) -> Seq<Seq<char>> {
    Seq::new(strings.len(), |i: int| strings[i]@)
}

/// Calls `std::path::Path::join`. Trusted: the result is the joined path,
/// which is a function of the two texts alone.
#[verifier::external_body]
fn join_path(base: &str, rel: &str) -> (r: String)
    ensures
        r@ == joined_path(base@, rel@),
{
    std::path::Path::new(base).join(rel).to_string_lossy().into_owned()
}

/// Calls `std::path::Path::strip_prefix`. Trusted: the result is the rest of
/// the path, or `None` where the call returns its error.
#[verifier::external_body]
fn strip_path_prefix(path: &str, base: &str) -> (r: Option<String>)
    ensures
        opt_view(r) == stripped_path(path@, base@),
{
    match std::path::Path::new(path).strip_prefix(base) {
        Ok(rest) => Some(rest.to_string_lossy().into_owned()),
        Err(_) => None,
    }
}

/// Calls `std::path::Path::file_name`. Trusted: the result is the last
/// component, or `None` where the path has none.
#[verifier::external_body]
fn path_file_name(path: &str) -> (r: Option<String>)
    ensures
        opt_view(r) == final_component(path@),
{
    match std::path::Path::new(path).file_name() {
        Some(name) => Some(name.to_string_lossy().into_owned()),
        None => None,
    }
}

/// Calls `url::Url::from_file_path`. Trusted: the result is the URL's text,
/// or `None` where the call refuses the path (one that is not absolute).
#[verifier::external_body]
fn file_path_url(path: &str) -> (r: Option<String>)
    ensures
        opt_view(r) == file_url_text(path@),
{
    match url::Url::from_file_path(path) {
        Ok(url) => Some(String::from(url)),
        Err(_) => None,
    }
}

/// Formats a path with the `Debug` impl of `std::path::Path`. Trusted: the
/// result is that text.
#[verifier::external_body]
fn debug_quoted(path: &str) -> (r: String)
    ensures
        r@ == debug_text(path@),
{
    format!("{:?}", std::path::Path::new(path))
}

/// Calls `str::to_lowercase`. Trusted: the result is the lowercase form of
/// the text, which is a function of the text alone.
#[verifier::external_body]
fn lowercase(text: &str) -> (r: String)
    ensures
        r@ == lowercase_text(text@),
{
    text.to_lowercase()
}

/// Calls `str::replace` with a character to find and a character to put in
/// its place. Trusted: every occurrence is replaced and nothing else changes.
#[verifier::external_body]
pub(crate) fn replace_separator(text: &str, from: char, to: char) -> (r: String)
    ensures
        r@ == with_separator(text@, from, to),
{
    let mut buffer = [0u8; 4];
    text.replace(from, to.encode_utf8(&mut buffer))
}

/// Calls `str::starts_with`. Trusted: the result says whether the text
/// begins with the prefix.
#[verifier::external_body]
fn text_starts_with(text: &str, prefix: &str) -> (r: bool)
    ensures
        r == prefix@.is_prefix_of(text@),
{
    text.starts_with(prefix)
}

/// How the tool-calling client reaches the bridge.
#[derive(Clone, Debug)]
pub enum TransportType {
    Stdio,
    Sse { host: String, port: u16 },
}

impl PartialEq for TransportType {
    fn eq(&self, other: &Self) -> (r: bool) {
        match (self, other) {
            (TransportType::Stdio, TransportType::Stdio) => true,
            (
                TransportType::Sse { host: h1, port: p1 },
                TransportType::Sse { host: h2, port: p2 },
            ) => *h1 == *h2 && *p1 == *p2,
            _ => false,
        }
    }
}

impl PartialEqSpecImpl for TransportType {
    open spec fn obeys_eq_spec() -> bool {
        true
    }

    open spec fn eq_spec(&self, other: &Self) -> bool {
        match (*self, *other) {
            (TransportType::Stdio, TransportType::Stdio) => true,
            (
                TransportType::Sse { host: h1, port: p1 },
                TransportType::Sse { host: h2, port: p2 },
            ) => h1@ == h2@ && p1 == p2,
            _ => false,
        }
    }
}

impl Eq for TransportType {

}

/// The family of the file system that the program runs on, as far as paths
/// are treated differently.
#[derive(Clone, Copy, PartialEq, Eq, Structural, Debug)]
pub enum Platform {
    /// Paths are told apart by case, and `/` alone separates.
    Unix,
    /// Paths are told apart neither by case nor by separator.
    Windows,
}

/// What was found on disk for a candidate project root.
pub struct RootProbe {
    /// Whether the path exists.
    pub exists: bool,
    /// The canonical form of the path, or why none could be had.
    pub canonical: Result<String, String>,
}

/// Why a project, or an address inside it, could not be had.
#[derive(Debug)]
pub enum ProjectError {
    /// The root does not exist.
    RootMissing { root: String },
    /// The root exists but has no canonical form.
    NotCanonical { cause: String },
    /// The root cannot be written as a `file://` URL.
    NoRootUri,
    /// A file under the root cannot be written as a `file://` URL.
    NoFileUri,
}

impl ProjectError {
    /// The text shown for this error.
    pub open spec fn message_text(self) -> Seq<char> {
        match self {
            ProjectError::RootMissing { root } => "Project root path does not exist: "@
                + debug_text(root@),
            ProjectError::NotCanonical { cause } => "Failed to canonicalize project root: "@
                + cause@,
            ProjectError::NoRootUri => "Failed to create project root URI"@,
            ProjectError::NoFileUri => "Failed to create file URI"@,
        }
    }

    /// The text shown for this error.
    pub fn message(&self) -> (r: String)
        ensures
            r@ == self.message_text(),
    {
        match self {
            ProjectError::RootMissing { root } => {
                let quoted = debug_quoted(root.as_str());
                String::from_str("Project root path does not exist: ").concat(quoted.as_str())
            },
            ProjectError::NotCanonical { cause } => String::from_str(
                "Failed to canonicalize project root: ",
            ).concat(cause.as_str()),
            ProjectError::NoRootUri => String::from_str("Failed to create project root URI"),
            ProjectError::NoFileUri => String::from_str("Failed to create file URI"),
        }
    }
}

/// A project: its canonical root directory and the crates to leave out.
#[derive(Debug, Clone)]
pub struct Project {
    pub root: String,
    pub ignore_crates: Vec<String>,
}

/// The result of `relative_path` for a path, given what stripping the root
/// from it left and what its last component is.
pub open spec fn relative_outcome(
    stripped: Option<Seq<char>>,
    name: Option<Seq<char>>,
    path: Seq<char>,
    root: Seq<char>,
) -> Result<Seq<char>, Seq<char>> {
    match stripped {
        Some(rest) => Ok(rest),
        None => match name {
            Some(n) => Err(n),
            None => Err(
                "Path "@ + debug_text(path) + " is not inside project root "@ + debug_text(root),
            ),
        },
    }
}

/// The view of a result of two strings.
pub open spec fn result_view(r: Result<String, String>) -> Result<Seq<char>, Seq<char>> {
    match r {
        Ok(s) => Ok(s@),
        Err(e) => Err(e@),
    }
}

/// Settles `relative_path` once the two path questions are answered: the
/// stripped rest where there is one; else the bare file name, as the error;
/// else a sentence that names both paths.
pub fn resolve_relative(
    stripped: Option<String>,
    name: Option<String>,
    path: &str,
    root: &str,
) -> (r: Result<String, String>)
    ensures
        result_view(r) == relative_outcome(opt_view(stripped), opt_view(name), path@, root@),
{
    match stripped {
        Some(rest) => Ok(rest),
        None => match name {
            Some(n) => Err(n),
            None => {
                let p = debug_quoted(path);
                let q = debug_quoted(root);
                let text = String::from_str("Path ").concat(p.as_str()).concat(
                    " is not inside project root ",
                ).concat(q.as_str());
                Err(text)
            },
        },
    }
}

/// What is left of `path` behind `root`, less one leading separator, where
/// `path` begins with `root`. The two are compared as text, not component
/// by component: a path in a directory whose name only begins like the
/// root's counts as behind the root.
pub open spec fn rest_after(root: Seq<char>, path: Seq<char>) -> Option<Seq<char>> {
    if root.is_prefix_of(path) {
        let rest = path.skip(root.len() as int);
        if rest.len() > 0 && (rest[0] == '\\' || rest[0] == '/') {
            Some(rest.skip(1))
        } else {
            Some(rest)
        }
    } else {
        None
    }
}

/// The first of two answers that is there.
pub open spec fn or_else(first: Option<Seq<char>>, second: Option<Seq<char>>) -> Option<
    Seq<char>,
> {
    if first.is_some() {
        first
    } else {
        second
    }
}

/// The relative path found by comparing root and path without regard to
/// case, in six forms tried in turn: both with forward slashes, both with
/// backslashes, both as given, both in canonical form where they have one,
/// and the two mixed forms.
pub open spec fn folded_rest(
    root: Seq<char>,
    path: Seq<char>,
    canonical_root: Option<Seq<char>>,
    canonical_path: Option<Seq<char>>,
) -> Option<Seq<char>> {
    let root_low = lowercase_text(root);
    let path_low = lowercase_text(path);
    let root_fwd = lowercase_text(with_separator(root, '\\', '/'));
    let path_fwd = lowercase_text(with_separator(path, '\\', '/'));
    let root_back = lowercase_text(with_separator(root, '/', '\\'));
    let path_back = lowercase_text(with_separator(path, '/', '\\'));
    let root_canon = match canonical_root {
        Some(c) => lowercase_text(c),
        None => root_low,
    };
    let path_canon = match canonical_path {
        Some(c) => lowercase_text(c),
        None => path_low,
    };
    or_else(
        rest_after(root_fwd, path_fwd),
        or_else(
            rest_after(root_back, path_back),
            or_else(
                rest_after(root_low, path_low),
                or_else(
                    rest_after(root_canon, path_canon),
                    or_else(rest_after(root_low, path_fwd), rest_after(root_fwd, path_low)),
                ),
            ),
        ),
    )
}

/// The result of `relative_path_folded`: the folded relative path where a
/// form matches; else `Cargo.toml` for a manifest outside the root; else
/// what `relative_path` gives.
pub open spec fn folded_outcome(
    root: Seq<char>,
    path: Seq<char>,
    canonical_root: Option<Seq<char>>,
    canonical_path: Option<Seq<char>>,
) -> Result<Seq<char>, Seq<char>> {
    match folded_rest(root, path, canonical_root, canonical_path) {
        Some(rest) => Ok(rest),
        None => if final_component(path) == Some("Cargo.toml"@) {
            Ok("Cargo.toml"@)
        } else {
            relative_outcome(stripped_path(path, root), final_component(path), path, root)
        },
    }
}

/// The result of `relative_path_on`: the folded outcome on `Windows`, the
/// plain one on `Unix`.
pub open spec fn platform_outcome(
    platform: Platform,
    root: Seq<char>,
    path: Seq<char>,
    canonical_root: Option<Seq<char>>,
    canonical_path: Option<Seq<char>>,
) -> Result<Seq<char>, Seq<char>> {
    if platform == Platform::Windows {
        folded_outcome(root, path, canonical_root, canonical_path)
    } else {
        relative_outcome(stripped_path(path, root), final_component(path), path, root)
    }
}

/// What is left of `path` behind `root`, less one leading separator, where
/// `path` begins with `root`.
pub fn rest_behind(root: &str, path: &str) -> (r: Option<String>)
    ensures
        opt_view(r) == rest_after(root@, path@),
{
    if !text_starts_with(path, root) {
        return None;
    }
    let from = root.unicode_len();
    let to = path.unicode_len();
    let rest = path.substring_char(from, to);
    assert(rest@ =~= path@.skip(root@.len() as int));
    let len = rest.unicode_len();
    if len > 0 {
        let head = rest.get_char(0);
        if head == '\\' || head == '/' {
            let tail = rest.substring_char(1, len);
            assert(tail@ =~= rest@.skip(1));
            return Some(String::from_str(tail));
        }
    }
    Some(String::from_str(rest))
}

/// Turns the answer of the URL builder into a result with the given error.
pub fn uri_or(found: Option<String>, error: ProjectError) -> (r: Result<String, ProjectError>)
    ensures
        match found {
            Some(u) => r == Ok::<String, ProjectError>(u),
            None => r == Err::<String, ProjectError>(error),
        },
{
    match found {
        Some(u) => Ok(u),
        None => Err(error),
    }
}

impl Project {
    /// A project at `root`, given what was found on disk for it. The root
    /// must exist. Its canonical form becomes the project's root; where it
    /// has none, the root is taken as given on `Windows` and refused on
    /// `Unix`. No crate is ignored at first.
    pub fn new(root: &str, probe: RootProbe, platform: Platform) -> (r: Result<
        Project,
        ProjectError,
    >)
        ensures
            !probe.exists ==> (r matches Err(ProjectError::RootMissing { root: m }) && m@
                == root@),
            probe.exists ==> match probe.canonical {
                Ok(c) => r matches Ok(p) && p.root == c && p.ignore_crates@.len() == 0,
                Err(e) => if platform == Platform::Windows {
                    r matches Ok(p) && p.root@ == root@ && p.ignore_crates@.len() == 0
                } else {
                    r == Err::<Project, ProjectError>(ProjectError::NotCanonical { cause: e })
                },
            },
    {
        if !probe.exists {
            return Err(ProjectError::RootMissing { root: String::from_str(root) });
        }
        match probe.canonical {
            Ok(canonical) => Ok(Project { root: canonical, ignore_crates: Vec::new() }),
            Err(cause) => {
                if platform == Platform::Windows {
                    Ok(Project { root: String::from_str(root), ignore_crates: Vec::new() })
                } else {
                    Err(ProjectError::NotCanonical { cause })
                }
            },
        }
    }

    pub fn ignore_crates(&self) -> (r: &[String])
        ensures
            r@ == self.ignore_crates@,
    {
        self.ignore_crates.as_slice()
    }

    pub fn root(&self) -> (r: &String)
        ensures
            *r == self.root,
    {
        &self.root
    }

    /// The root as a `file://` URL.
    pub fn uri(&self) -> (r: Result<String, ProjectError>)
        ensures
            match file_url_text(self.root@) {
                Some(u) => r matches Ok(s) && s@ == u,
                None => r == Err::<String, ProjectError>(ProjectError::NoRootUri),
            },
    {
        uri_or(file_path_url(self.root.as_str()), ProjectError::NoRootUri)
    }

    /// Where rendered documentation is kept: `doc` under the cache directory.
    pub fn docs_dir(&self) -> (r: String)
        ensures
            r@ == joined_path(joined_path(self.root@, ".docs-cache"@), "doc"@),
    {
        let cache = self.cache_dir();
        join_path(cache.as_str(), "doc")
    }

    /// The name of the cache directory.
    pub fn cache_folder(&self) -> (r: &'static str)
        ensures
            r@ == ".docs-cache"@,
    {
        ".docs-cache"
    }

    /// The cache directory: the cache folder under the root.
    pub fn cache_dir(&self) -> (r: String)
        ensures
            r@ == joined_path(self.root@, ".docs-cache"@),
    {
        join_path(self.root.as_str(), self.cache_folder())
    }

    /// The `file://` URL of a file given by its path relative to the root.
    pub fn file_uri(&self, relative_path: &str) -> (r: Result<String, ProjectError>)
        ensures
            match file_url_text(joined_path(self.root@, relative_path@)) {
                Some(u) => r matches Ok(s) && s@ == u,
                None => r == Err::<String, ProjectError>(ProjectError::NoFileUri),
            },
    {
        let path = join_path(self.root.as_str(), relative_path);
        uri_or(file_path_url(path.as_str()), ProjectError::NoFileUri)
    }

    /// The path of `absolute_path` relative to the root. Where the path is
    /// not under the root, the error is its bare file name if it has one,
    /// else a sentence that names both paths.
    pub fn relative_path(&self, absolute_path: &str) -> (r: Result<String, String>)
        ensures
            result_view(r) == relative_outcome(
                stripped_path(absolute_path@, self.root@),
                final_component(absolute_path@),
                absolute_path@,
                self.root@,
            ),
    {
        let stripped = strip_path_prefix(absolute_path, self.root.as_str());
        let name = path_file_name(absolute_path);
        resolve_relative(stripped, name, absolute_path, self.root.as_str())
    }
    /// The path of `absolute_path` relative to the root, for file systems
    /// that tell neither case nor the two separators apart. The canonical
    /// forms of the root and of the path are given where they exist. The
    /// relative path comes out in lower case.
    pub fn relative_path_folded(
        &self,
        absolute_path: &str,
        canonical_root: Option<String>,
        canonical_path: Option<String>,
    ) -> (r: Result<String, String>)
        ensures
            result_view(r) == folded_outcome(
                self.root@,
                absolute_path@,
                opt_view(canonical_root),
                opt_view(canonical_path),
            ),
    {
        let root = self.root.as_str();
        let root_low = lowercase(root);
        let path_low = lowercase(absolute_path);
        let root_fwd = lowercase(replace_separator(root, '\\', '/').as_str());
        let path_fwd = lowercase(replace_separator(absolute_path, '\\', '/').as_str());
        let root_back = lowercase(replace_separator(root, '/', '\\').as_str());
        let path_back = lowercase(replace_separator(absolute_path, '/', '\\').as_str());
        let root_canon = match &canonical_root {
            Some(c) => lowercase(c.as_str()),
            None => root_low.clone(),
        };
        let path_canon = match &canonical_path {
            Some(c) => lowercase(c.as_str()),
            None => path_low.clone(),
        };
        match rest_behind(root_fwd.as_str(), path_fwd.as_str()) {
            Some(rest) => {
                return Ok(rest);
            },
            None => {},
        }
        match rest_behind(root_back.as_str(), path_back.as_str()) {
            Some(rest) => {
                return Ok(rest);
            },
            None => {},
        }
        match rest_behind(root_low.as_str(), path_low.as_str()) {
            Some(rest) => {
                return Ok(rest);
            },
            None => {},
        }
        match rest_behind(root_canon.as_str(), path_canon.as_str()) {
            Some(rest) => {
                return Ok(rest);
            },
            None => {},
        }
        match rest_behind(root_low.as_str(), path_fwd.as_str()) {
            Some(rest) => {
                return Ok(rest);
            },
            None => {},
        }
        match rest_behind(root_fwd.as_str(), path_low.as_str()) {
            Some(rest) => {
                return Ok(rest);
            },
            None => {},
        }
        let manifest = String::from_str("Cargo.toml");
        match path_file_name(absolute_path) {
            Some(name) => {
                if name == manifest {
                    return Ok(manifest);
                }
            },
            None => {},
        }
        self.relative_path(absolute_path)
    }

    /// The path of `absolute_path` relative to the root, as the platform
    /// compares paths: folded on `Windows`, component by component on
    /// `Unix`, where the canonical forms play no part.
    pub fn relative_path_on(
        &self,
        platform: Platform,
        absolute_path: &str,
        canonical_root: Option<String>,
        canonical_path: Option<String>,
    ) -> (r: Result<String, String>)
        ensures
            result_view(r) == platform_outcome(
                platform,
                self.root@,
                absolute_path@,
                opt_view(canonical_root),
                opt_view(canonical_path),
            ),
    {
        if platform == Platform::Windows {
            self.relative_path_folded(absolute_path, canonical_root, canonical_path)
        } else {
            self.relative_path(absolute_path)
        }
    }
}

} // verus!
