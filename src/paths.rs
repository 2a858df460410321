//! Confinement of user-supplied file names to the recording directory. The
//! filesystem resolves links and `..`; what it resolved to is judged here,
//! on whole path components, never on the raw joined text.
use vstd::prelude::*;
use crate::text::{is_blank, trimmed, trim_text, white_space, trim_start, trim_end};

verus! {

/// A path as the filesystem resolved it, one text per component (the root
/// and any drive prefix included), from the root down.
#[derive(Clone, Debug, PartialEq, Eq)]
pub struct CanonicalPath {
    pub parts: Vec<String>,
}

impl View for CanonicalPath {
    type V = Seq<Seq<char>>;

    open spec fn view(&self) -> Seq<Seq<char>> {
        self.parts@.map_values(|p: String| p@)
    }
}

/// Why a path was refused.
#[derive(Clone, Debug, PartialEq, Eq)]
pub enum PathError {
    /// No recording directory is configured.
    NotConfigured,
    /// The configured directory could not be resolved; the text says why.
    InvalidPath(String),
    /// The file name is blank or is not a single component.
    InvalidFilename,
    /// The file does not exist.
    NotFound,
    /// The file resolves outside the recording directory.
    AccessDenied,
    /// The destination name is taken.
    AlreadyExists,
    /// Resolving the file failed otherwise; the text says why.
    Io(String),
}

/// Why the filesystem could not resolve a path.
#[derive(Clone, Debug, PartialEq, Eq)]
pub enum FsFailure {
    NotFound(String),
    Other(String),
}

/// Whether `path` is `base` or lies below it.
pub open spec fn within(base: Seq<Seq<char>>, path: Seq<Seq<char>>) -> bool {
    base.len() <= path.len() && path.subrange(0, base.len() as int) == base
}

/// Whether `path` is `base` or lies below it, component by component.
pub fn is_within(base: &CanonicalPath, path: &CanonicalPath) -> (r: bool)
    ensures
        r == within(base@, path@),
{
    let n = base.parts.len();
    if n > path.parts.len() {
        return false;
    }
    let mut i: usize = 0;
    while i < n
        invariant
            n == base.parts@.len(),
            n <= path.parts@.len(),
            i <= n,
            forall|k: int| 0 <= k < i ==> base@[k] == path@[k],
        decreases n - i,
    {
        if base.parts[i] != path.parts[i] {
            proof {
                assert(path@.subrange(0, n as int)[i as int] != base@[i as int]);
            }
            return false;
        }
        i = i + 1;
    }
    proof {
        assert(path@.subrange(0, n as int) =~= base@);
    }
    true
}

/// The recording directory from its configured text and what resolving the
/// trimmed text gave: `NotConfigured` when the text is blank, `InvalidPath`
/// when it could not be resolved.
pub fn resolve_base(configured: &str, resolved: Result<CanonicalPath, FsFailure>) -> (r: Result<
    CanonicalPath,
    PathError,
>)
    ensures
        is_blank(configured@) ==> r == Err::<CanonicalPath, PathError>(PathError::NotConfigured),
        !is_blank(configured@) ==> r == (match resolved {
            Ok(p) => Ok(p),
            Err(FsFailure::NotFound(why)) => Err(PathError::InvalidPath(why)),
            Err(FsFailure::Other(why)) => Err(PathError::InvalidPath(why)),
        }),
{
    if trim_text(configured).unicode_len() == 0 {
        return Err(PathError::NotConfigured);
    }
    match resolved {
        Ok(p) => Ok(p),
        Err(FsFailure::NotFound(why)) => Err(PathError::InvalidPath(why)),
        Err(FsFailure::Other(why)) => Err(PathError::InvalidPath(why)),
    }
}

/// The verdict on the file `relative` under `base`, given what resolving
/// `base` joined with `relative` gave.
pub open spec fn confined(base: Seq<Seq<char>>, relative: Seq<char>, resolved: Result<CanonicalPath, FsFailure>) -> Result<
    CanonicalPath,
    PathError,
> {
    if is_blank(relative) {
        Err(PathError::InvalidFilename)
    } else {
        match resolved {
            Ok(p) => if within(base, p@) {
                Ok(p)
            } else {
                Err(PathError::AccessDenied)
            },
            Err(FsFailure::NotFound(_)) => Err(PathError::NotFound),
            Err(FsFailure::Other(why)) => Err(PathError::Io(why)),
        }
    }
}

/// The file `relative` under `base`, given what resolving `base` joined
/// with `relative` gave. Refused with `InvalidFilename` when the name is
/// blank, `NotFound` when nothing is there, and `AccessDenied` when the
/// resolved path is not `base` or below it.
pub fn resolve_within(base: &CanonicalPath, relative: &str, resolved: Result<CanonicalPath, FsFailure>) -> (r:
    Result<CanonicalPath, PathError>)
    ensures
        r == confined(base@, relative@, resolved),
{
    if trim_text(relative).unicode_len() == 0 {
        return Err(PathError::InvalidFilename);
    }
    match resolved {
        Ok(p) => {
            if is_within(base, &p) {
                Ok(p)
            } else {
                Err(PathError::AccessDenied)
            }
        },
        Err(FsFailure::NotFound(_)) => Err(PathError::NotFound),
        Err(FsFailure::Other(why)) => Err(PathError::Io(why)),
    }
}

/// Relies on `std::path::Path::components`: how many components the
/// platform's path syntax reads in `name`. Nothing is promised of the count,
/// which differs between platforms.
#[verifier::external_body]
fn component_count(name: &str) -> (r: usize) {
    std::path::Path::new(name).components().count()
}

/// The verdict on a proposed new file name, given how many path components
/// the platform reads in its trimmed text: the trimmed name when it is not
/// blank and is a single component.
pub fn check_new_name(name: &str, components: usize) -> (r: Result<String, PathError>)
    ensures
        is_blank(name@) || components != 1 ==> r == Err::<String, PathError>(
            PathError::InvalidFilename,
        ),
        !is_blank(name@) && components == 1 ==> (r matches Ok(n) && n@ == trimmed(name@)),
{
    let n = trim_text(name);
    if n.unicode_len() == 0 || components != 1 {
        return Err(PathError::InvalidFilename);
    }
    Ok(n.to_owned())
}

/// A proposed new file name, trimmed. Refused with `InvalidFilename` when it
/// is blank or the platform reads it as more than one path component.
pub fn new_name_component(name: &str) -> (r: Result<String, PathError>)
    ensures
        is_blank(name@) ==> r == Err::<String, PathError>(PathError::InvalidFilename),
        r matches Ok(n) ==> n@ == trimmed(name@) && !is_blank(name@),
        r matches Err(e) ==> e == PathError::InvalidFilename,
{
    let count = component_count(trim_text(name));
    check_new_name(name, count)
}

/// Where a file renamed to `name` goes in `base`, given whether something
/// already exists there: refused with `AlreadyExists` when it does.
pub fn rename_destination(base: &CanonicalPath, name: String, exists: bool) -> (r: Result<
    CanonicalPath,
    PathError,
>)
    ensures
        exists ==> r == Err::<CanonicalPath, PathError>(PathError::AlreadyExists),
        !exists ==> (r matches Ok(p) && p@ == base@.push(name@)),
{
    if exists {
        return Err(PathError::AlreadyExists);
    }
    let mut parts: Vec<String> = Vec::new();
    let n = base.parts.len();
    let mut i: usize = 0;
    while i < n
        invariant
            n == base.parts@.len(),
            i <= n,
            parts@.len() == i,
            forall|k: int| 0 <= k < i ==> #[trigger] parts@[k]@ == base@[k],
        decreases n - i,
    {
        parts.push(base.parts[i].clone());
        i = i + 1;
    }
    let ghost name_view = name@;
    parts.push(name);
    let r = CanonicalPath { parts };
    proof {
        assert(r@ =~= base@.push(name_view));
    }
    Ok(r)
}

/// The component `..`.
pub open spec fn parent_part() -> Seq<char> {
    seq!['.', '.']
}

/// The component `.`.
pub open spec fn current_part() -> Seq<char> {
    seq!['.']
}

/// Where following the relative components `rel` from `dir` leads when no
/// link is involved: `..` climbs (never above the root, the first
/// component), `.` stays, anything else descends.
pub open spec fn lexical_walk(dir: Seq<Seq<char>>, rel: Seq<Seq<char>>) -> Seq<Seq<char>>
    decreases rel.len(),
{
    if rel.len() == 0 {
        dir
    } else {
        let next = if rel[0] == parent_part() {
            if dir.len() > 1 {
                dir.drop_last()
            } else {
                dir
            }
        } else if rel[0] == current_part() {
            dir
        } else {
            dir.push(rel[0])
        };
        lexical_walk(next, rel.drop_first())
    }
}

/// Climbing out: a name that climbs two levels and descends two is refused
/// with `AccessDenied` whenever the filesystem resolves it without links,
/// for every base at least two directories below the root other than one
/// that itself ends in those two descending components.
pub proof fn lemma_climb_out_denied(
    base: Seq<Seq<char>>,
    first: Seq<char>,
    second: Seq<char>,
    relative: Seq<char>,
    resolved: CanonicalPath,
)
    requires
        base.len() >= 3,
        first != parent_part() && first != current_part(),
        second != parent_part() && second != current_part(),
        base.subrange(base.len() - 2, base.len() as int) != seq![first, second],
        relative.len() > 0,
        !white_space(relative[0]),
        resolved@ == lexical_walk(base, seq![parent_part(), parent_part(), first, second]),
    ensures
        resolved@ == base.subrange(0, base.len() - 2).push(first).push(second),
        confined(base, relative, Ok::<CanonicalPath, FsFailure>(resolved)) == Err::<
            CanonicalPath,
            PathError,
        >(PathError::AccessDenied),
{
    lemma_not_blank(relative);
    let rel = seq![parent_part(), parent_part(), first, second];
    let n = base.len();
    let up1 = base.drop_last();
    let up2 = up1.drop_last();
    assert(rel[0] == parent_part());
    assert(rel.drop_first() =~= seq![parent_part(), first, second]);
    assert(seq![parent_part(), first, second].drop_first() =~= seq![first, second]);
    assert(seq![first, second].drop_first() =~= seq![second]);
    assert(seq![second].drop_first() =~= Seq::<Seq<char>>::empty());
    assert(current_part().len() == 1 && parent_part().len() == 2);
    assert(current_part() != parent_part());
    let r1 = seq![parent_part(), first, second];
    let r2 = seq![first, second];
    let r3 = seq![second];
    assert(lexical_walk(up2.push(first).push(second), r3.drop_first()) == up2.push(first).push(second));
    assert(lexical_walk(up2.push(first), r3) == up2.push(first).push(second));
    assert(lexical_walk(up2, r2) == up2.push(first).push(second));
    assert(lexical_walk(up1, r1) == up2.push(first).push(second));
    assert(lexical_walk(base, rel) == up2.push(first).push(second));
    assert(up2 =~= base.subrange(0, n - 2));
    let got = up2.push(first).push(second);
    if within(base, got) {
        assert(got.subrange(0, n as int) =~= got);
        assert(base.subrange(n - 2, n as int) =~= seq![first, second]);
    }
}

proof fn lemma_trim_end_keeps_first(s: Seq<char>)
    requires
        s.len() > 0,
        !white_space(s[0]),
    ensures
        trim_end(s).len() > 0,
    decreases s.len(),
{
    if white_space(s.last()) {
        assert(s.len() > 1);
        assert(s.drop_last()[0] == s[0]);
        lemma_trim_end_keeps_first(s.drop_last());
    }
}

/// A name that starts with a character other than white space is not
/// blank.
pub proof fn lemma_not_blank(name: Seq<char>)
    requires
        name.len() > 0,
        !white_space(name[0]),
    ensures
        !is_blank(name),
{
    assert(trim_start(name) == name);
    lemma_trim_end_keeps_first(name);
}

/// A file that the filesystem resolves to a path inside `base` (such as
/// `base/a.mp4` for the name `a.mp4`) is handed back as resolved.
pub proof fn lemma_file_inside_resolves(
    base: Seq<Seq<char>>,
    relative: Seq<char>,
    resolved: CanonicalPath,
    rest: Seq<Seq<char>>,
)
    requires
        relative.len() > 0,
        !white_space(relative[0]),
        resolved@ == base + rest,
    ensures
        confined(base, relative, Ok::<CanonicalPath, FsFailure>(resolved)) == Ok::<CanonicalPath, PathError>(
            resolved,
        ),
{
    lemma_not_blank(relative);
    assert(resolved@.subrange(0, base.len() as int) =~= base);
}

} // verus!
