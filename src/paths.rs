use vstd::prelude::*;

verus! {

/// The scheme that marks a filename as relative to a named package.
pub open spec fn package_prefix() -> Seq<char> {
    seq!['p', 'a', 'c', 'k', 'a', 'g', 'e', ':', '/', '/']
}

pub open spec fn is_package_scheme(f: Seq<char>) -> bool {
    f.len() >= package_prefix().len() && f.subrange(0, package_prefix().len() as int)
        == package_prefix()
}

/// What the pattern `^package://(\w+)/` captures in `f`, as the regex crate
/// matches it.
pub uninterp spec fn package_capture(f: Seq<char>) -> Option<Seq<char>>;

/// `f` is `package://`, then `p`, then a slash, then the rest.
pub open spec fn splits_at_package(f: Seq<char>, p: Seq<char>) -> bool {
    &&& is_package_scheme(f)
    &&& p.len() > 0
    &&& f.len() > 10 + p.len()
    &&& f.subrange(10, 10 + p.len() as int) == p
    &&& f[10 + p.len() as int] == '/'
}

/// The part of a package-scheme filename after `package://<p>/`.
pub open spec fn package_rest(f: Seq<char>, p: Seq<char>) -> Seq<char> {
    f.subrange(11 + p.len() as int, f.len() as int)
}

/// A directory with a separator added where it does not already end in one.
pub open spec fn with_trailing_sep(d: Seq<char>) -> Seq<char> {
    if d.len() > 0 && d.last() == '/' {
        d
    } else {
        d.push('/')
    }
}

/// Joining a name onto a base directory on a Unix path: an absolute name
/// replaces the base, and a separator is put between the two where the base
/// is not empty and does not already end in one.
pub open spec fn join_path(base: Seq<char>, name: Seq<char>) -> Seq<char> {
    if name.len() > 0 && name[0] == '/' {
        name
    } else if base.len() == 0 || base.last() == '/' {
        base + name
    } else {
        base.push('/') + name
    }
}

/// What resolving filename `f` against base directory `b` gives, where
/// `located` is what the package locator answered for the package that `f`
/// names (if it names one). `Err(p)` is a package `p` that was not found.
pub open spec fn expanded_path(f: Seq<char>, b: Seq<char>, located: Option<Seq<char>>) -> Result<
    Seq<char>,
    Seq<char>,
> {
    if !is_package_scheme(f) {
        Ok(join_path(b, f))
    } else {
        match package_capture(f) {
            None => Ok(f),
            Some(p) => match located {
                None => Err(p),
                Some(d) => Ok(with_trailing_sep(d) + package_rest(f, p)),
            },
        }
    }
}

/// The characters of the locator's answer, if it gave one.
pub open spec fn located_view(d: Option<&str>) -> Option<Seq<char>> {
    match d {
        Some(d) => Some(d@),
        None => None,
    }
}

#[derive(Debug, PartialEq, Eq)]
pub enum ResolveError {
    /// The package locator knows no package of this name.
    PackageNotFound(String),
}

/// Resolving a package path gives the located directory joined with the
/// rest of the path, whatever the base directory, where the located directory
/// is not empty and the rest is not itself absolute.
pub proof fn lemma_package_path_joins_located_dir(
    f: Seq<char>,
    b: Seq<char>,
    p: Seq<char>,
    d: Seq<char>,
)
    requires
        is_package_scheme(f),
        package_capture(f) == Some(p),
        d.len() > 0,
        !(package_rest(f, p).len() > 0 && package_rest(f, p)[0] == '/'),
    ensures
        expanded_path(f, b, Some(d)) == Ok::<Seq<char>, Seq<char>>(join_path(d, package_rest(f, p))),
{
}

/// Relies on regex::Regex::captures with the pattern `^package://(\w+)/`:
/// the first group is a non-empty run of word characters that starts right
/// after the scheme and is followed by a slash.
#[verifier::external_body]
fn capture_package(filename: &str) -> (r: Option<String>)
    ensures
        match r {
            Some(p) => package_capture(filename@) == Some(p@),
            None => package_capture(filename@) is None,
        },
        r matches Some(p) ==> splits_at_package(filename@, p@),
        !is_package_scheme(filename@) ==> r is None,
{
    let re = regex::Regex::new("^package://(\\w+)/").unwrap();
    re.captures(filename).map(|c| c[1].to_string())
}

/// Whether `s` starts with `package://`.
fn starts_with_package(s: &str) -> (r: bool)
    ensures
        r == is_package_scheme(s@),
{
    let pre: &str = "package://";
    proof {
        reveal_strlit("package://");
    }
    assert(pre@ == package_prefix());
    let n = s.unicode_len();
    if n < 10 {
        return false;
    }
    let mut i: usize = 0;
    while i < 10
        invariant
            n == s@.len(),
            n >= 10,
            pre@ == package_prefix(),
            i <= 10,
            forall|j: int| 0 <= j < i ==> s@[j] == package_prefix()[j],
        decreases 10 - i,
    {
        if s.get_char(i) != pre.get_char(i) {
            return false;
        }
        i = i + 1;
    }
    assert(s@.subrange(0, 10) =~= package_prefix());
    true
}

/// The package that a filename asks the locator for: `Some` exactly when it
/// uses the package scheme and names a package.
pub fn package_to_locate(filename: &str) -> (r: Option<String>)
    ensures
        match r {
            Some(p) => is_package_scheme(filename@) && package_capture(filename@) == Some(p@),
            None => !is_package_scheme(filename@) || package_capture(filename@) is None,
        },
{
    if starts_with_package(filename) {
        capture_package(filename)
    } else {
        None
    }
}

/// Joins `name` onto `base` as a Unix path.
pub fn join_path_exec(base: &str, name: &str) -> (r: String)
    ensures
        r@ == join_path(base@, name@),
{
    let nb = base.unicode_len();
    let nn = name.unicode_len();
    if nn > 0 && name.get_char(0) == '/' {
        return String::from_str(name);
    }
    let mut r = String::from_str(base);
    if !(nb == 0 || base.get_char(nb - 1) == '/') {
        r.append("/");
        proof {
            reveal_strlit("/");
        }
        assert(r@ =~= base@.push('/'));
    }
    r.append(name);
    r
}

/// Resolves a geometry filename against the directory of the robot
/// description. A package-scheme filename has `package://<pkg>/` replaced by
/// the directory that the locator gave for `<pkg>` (`package_dir`) and one
/// separator; any other filename is joined onto `base_dir`.
pub fn expand_package_path(filename: &str, base_dir: &str, package_dir: Option<&str>) -> (r:
    Result<String, ResolveError>)
    ensures
        match r {
            Ok(s) => expanded_path(filename@, base_dir@, located_view(package_dir)) == Ok::<
                Seq<char>,
                Seq<char>,
            >(s@),
            Err(ResolveError::PackageNotFound(p)) => expanded_path(
                filename@,
                base_dir@,
                located_view(package_dir),
            ) == Err::<Seq<char>, Seq<char>>(p@),
        },
        !is_package_scheme(filename@) ==> (r matches Ok(s) && s@ == join_path(
            base_dir@,
            filename@,
        )),
        is_package_scheme(filename@) ==> (package_capture(filename@) matches Some(p) ==> match package_dir {
            Some(d) => r matches Ok(s) && s@ == with_trailing_sep(d@) + package_rest(
                filename@,
                p,
            ),
            None => r matches Err(ResolveError::PackageNotFound(q)) && q@ == p,
        }),
{
    if !starts_with_package(filename) {
        return Ok(join_path_exec(base_dir, filename));
    }
    match capture_package(filename) {
        None => Ok(String::from_str(filename)),
        Some(p) => match package_dir {
            None => Err(ResolveError::PackageNotFound(p)),
            Some(d) => {
                let nd = d.unicode_len();
                let mut r = String::from_str(d);
                if !(nd > 0 && d.get_char(nd - 1) == '/') {
                    r.append("/");
                    proof {
                        reveal_strlit("/");
                    }
                    assert(r@ =~= d@.push('/'));
                }
                let nf = filename.unicode_len();
                let start = 11 + p.as_str().unicode_len();
                let rest = filename.substring_char(start, nf);
                r.append(rest);
                Ok(r)
            },
        },
    }
}

} // verus!
