use vstd::prelude::*;

verus! {

/// The directory under which converted descriptions are written by default.
pub open spec fn default_cache_dir() -> Seq<char> {
    seq!['/', 't', 'm', 'p', '/', 'u', 'r', 'd', 'f', '_', 'v', 'i', 'z', '/']
}

pub open spec fn xacro_ext() -> Seq<char> {
    seq!['x', 'a', 'c', 'r', 'o']
}

pub open spec fn urdf_ext() -> Seq<char> {
    seq!['u', 'r', 'd', 'f']
}

/// The extension of path `p`, as `std::path::Path::extension` finds it.
pub uninterp spec fn extension_of(p: Seq<char>) -> Option<Seq<char>>;

/// Path `p` with its extension set to `e`, as `std::path::Path::with_extension`
/// builds it.
pub uninterp spec fn with_extension_of(p: Seq<char>, e: Seq<char>) -> Seq<char>;

/// Where a macro-form description at `input` is expanded to: the input path
/// with the plain extension, put under the cache directory.
pub open spec fn cache_target(cache_dir: Seq<char>, input: Seq<char>) -> Seq<char> {
    cache_dir + with_extension_of(input, urdf_ext())
}

/// Where the robot description is to be read from.
#[derive(Debug, PartialEq, Eq)]
pub enum DescriptionSource {
    /// A plain description, read as it is.
    Plain(String),
    /// A macro-form description at `source`, to be expanded into `target`.
    Expand { source: String, target: String },
}

/// Relies on std::path::Path::extension: the extension of the last component.
#[verifier::external_body]
fn path_extension(p: &str) -> (r: Option<String>)
    ensures
        match r {
            Some(e) => extension_of(p@) == Some(e@),
            None => extension_of(p@) is None,
        },
{
    std::path::Path::new(p).extension().map(|e| e.to_string_lossy().into_owned())
}

/// Relies on std::path::Path::with_extension: the path with its extension
/// replaced (or added). An extension holding a separator is left out, as
/// std may panic on one.
#[verifier::external_body]
fn path_with_extension(p: &str, e: &str) -> (r: String)
    requires
        forall|i: int| 0 <= i < e@.len() ==> e@[i] != '/',
    ensures
        r@ == with_extension_of(p@, e@),
{
    std::path::Path::new(p).with_extension(e).to_string_lossy().into_owned()
}

/// The cache directory that converted descriptions go to unless another is
/// given.
pub fn get_cache_dir() -> (r: &'static str)
    ensures
        r@ == default_cache_dir(),
{
    proof {
        reveal_strlit("/tmp/urdf_viz/");
    }
    "/tmp/urdf_viz/"
}

/// Whether `e` is the macro-form extension.
fn is_xacro_ext(e: &str) -> (r: bool)
    ensures
        r == (e@ == xacro_ext()),
{
    let x: &str = "xacro";
    proof {
        reveal_strlit("xacro");
    }
    assert(x@ == xacro_ext());
    if e.unicode_len() != 5 {
        return false;
    }
    let mut i: usize = 0;
    while i < 5
        invariant
            e@.len() == 5,
            x@ == xacro_ext(),
            i <= 5,
            forall|j: int| 0 <= j < i ==> e@[j] == xacro_ext()[j],
        decreases 5 - i,
    {
        if e.get_char(i) != x.get_char(i) {
            return false;
        }
        i = i + 1;
    }
    assert(e@ =~= xacro_ext());
    true
}

/// The arguments for the expansion tool (run through `rosrun`) that turn
/// the macro-form description at `source` into a plain one at `target`.
pub fn xacro_command_args(source: &str, target: &str) -> (r: Vec<String>)
    ensures
        r@.len() == 6,
        r@[0]@ == xacro_ext(),
        r@[1]@ == xacro_ext(),
        r@[2]@ == seq!['-', '-', 'i', 'n', 'o', 'r', 'd', 'e', 'r'],
        r@[3]@ == source@,
        r@[4]@ == seq!['-', 'o'],
        r@[5]@ == target@,
{
    proof {
        reveal_strlit("xacro");
        reveal_strlit("--inorder");
        reveal_strlit("-o");
    }
    let mut r: Vec<String> = Vec::new();
    r.push(String::from_str("xacro"));
    r.push(String::from_str("xacro"));
    r.push(String::from_str("--inorder"));
    r.push(String::from_str(source));
    r.push(String::from_str("-o"));
    r.push(String::from_str(target));
    assert(r@[2]@ =~= seq!['-', '-', 'i', 'n', 'o', 'r', 'd', 'e', 'r']);
    assert(r@[4]@ =~= seq!['-', 'o']);
    assert(r@[0]@ =~= xacro_ext());
    r
}

/// Decides where the description at `input_path` is read from. A path with
/// the macro-form extension is to be expanded into the cache directory, at
/// the same path with the plain extension; any other path, with another
/// extension or none, is read as it is.
pub fn convert_xacro_if_needed_and_get_path(input_path: &str, cache_dir: &str) -> (r:
    DescriptionSource)
    ensures
        if extension_of(input_path@) == Some(xacro_ext()) {
            r matches DescriptionSource::Expand { source, target } && source@ == input_path@
                && target@ == cache_target(cache_dir@, input_path@)
        } else {
            r matches DescriptionSource::Plain(p) && p@ == input_path@
        },
{
    let is_xacro = match path_extension(input_path) {
        None => false,
        Some(e) => is_xacro_ext(e.as_str()),
    };
    if is_xacro {
        let u: &str = "urdf";
        proof {
            reveal_strlit("urdf");
        }
        assert(u@ =~= urdf_ext());
        let plain = path_with_extension(input_path, u);
        let target = String::from_str(cache_dir).concat(plain.as_str());
        DescriptionSource::Expand { source: String::from_str(input_path), target }
    } else {
        DescriptionSource::Plain(String::from_str(input_path))
    }
}

} // verus!
