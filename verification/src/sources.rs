//! Where the bundled Ada source trees lie, below the source crate's own
//! directory.

use vstd::prelude::*;

verus! {

/// An ASCII letter or digit.
pub open spec fn is_ascii_alphanumeric(c: char) -> bool {
    ('a' <= c <= 'z') || ('A' <= c <= 'Z') || ('0' <= c <= '9')
}

/// A path separator: `/`, or `\` where that is the separator.
pub open spec fn is_separator(c: char) -> bool {
    c == '/' || c == '\\'
}

/// A single path component made of ASCII letters and digits only: relative,
/// and free of separators, prefixes, `.` and `..`.
pub open spec fn is_plain_component(name: Seq<char>) -> bool {
    &&& name.len() > 0
    &&& forall|i: int| 0 <= i < name.len() ==> is_ascii_alphanumeric(#[trigger] name[i])
}

/// A path that begins like a Windows verbatim prefix (`\\?\...`), on which
/// joining also normalizes the path.
pub open spec fn starts_verbatim(path: Seq<char>) -> bool {
    path.len() >= 3 && path[0] == '\\' && path[1] == '\\' && path[2] == '?'
}

/// `joined` is `base` with the plain component `name` appended: after one
/// separator when the base ends in a letter or digit, and otherwise directly
/// or after one separator (whether the base's ending already counts as a
/// separator depends on the platform).
#[verifier::opaque]
pub open spec fn joins(base: Seq<char>, name: Seq<char>, joined: Seq<char>) -> bool {
    if base.len() > 0 && is_ascii_alphanumeric(base.last()) {
        ||| joined == base + seq!['/'] + name
        ||| joined == base + seq!['\\'] + name
    } else {
        ||| joined == base + name
        ||| joined == base + seq!['/'] + name
        ||| joined == base + seq!['\\'] + name
    }
}

/// The text of `std::path::Path::join` of `base` and `name` on the platform
/// this crate is built for.
pub uninterp spec fn path_join(base: Seq<char>, name: Seq<char>) -> Seq<char>;

/// The directory that holds the bundled trees, below the crate directory.
pub open spec fn vendor_name() -> Seq<char> {
    seq!['v', 'e', 'n', 'd', 'o', 'r']
}

/// The directory name of the bundled `libhwbase` tree.
pub open spec fn libhwbase_name() -> Seq<char> {
    seq!['l', 'i', 'b', 'h', 'w', 'b', 'a', 's', 'e']
}

/// The directory name of the bundled `libgfxinit` tree.
pub open spec fn libgfxinit_name() -> Seq<char> {
    seq!['l', 'i', 'b', 'g', 'f', 'x', 'i', 'n', 'i', 't']
}

/// The paths of the two bundled trees below `manifest_dir`: the directory
/// joined with `vendor`, then joined with each tree's name.
pub open spec fn vendored_paths(manifest_dir: Seq<char>) -> (Seq<char>, Seq<char>) {
    let root = path_join(manifest_dir, vendor_name());
    (path_join(root, libhwbase_name()), path_join(root, libgfxinit_name()))
}

/// `libhwbase` and `libgfxinit` lie side by side in the `vendor` directory
/// below `manifest_dir`: `manifest_dir` joined with `vendor` gives the root,
/// and the root joined with each tree's name gives that tree's path.
pub open spec fn laid_out_below(manifest_dir: Seq<char>, libhwbase: Seq<char>, libgfxinit: Seq<char>) -> bool {
    let root = path_join(manifest_dir, vendor_name());
    &&& joins(manifest_dir, vendor_name(), root)
    &&& joins(root, libhwbase_name(), libhwbase)
    &&& joins(root, libgfxinit_name(), libgfxinit)
}

/// Trusted: `std::path::Path::join`, with the base and the result taken as
/// text.  The result is named `path_join` of the base and the component: the
/// same text for the same arguments on the platform the crate is built for.
/// Its documentation (through `PathBuf::push`) says that a relative path
/// extends the base; for one plain relative component the contract claims
/// `joins`: the result is the base, at most one separator (`/` or `\\`),
/// then the component, with the separator always there after a base that
/// ends in a letter or digit.  Which separator, and whether one follows any
/// other ending, is left open.  On a base that begins like a Windows
/// verbatim prefix the documentation says the path is normalized as well;
/// there only the name is claimed.
#[verifier::external_body]
fn join_path(base: &str, name: &str) -> (joined: String)
    requires
        is_plain_component(name@),
    ensures
        joined@ == path_join(base@, name@),
        !starts_verbatim(base@) ==> joins(base@, name@, joined@),
{
    std::path::Path::new(base).join(name).to_string_lossy().into_owned()
}

/// Paths to the vendored Ada source trees.
#[derive(Debug, Clone)]
pub struct Sources {
    libhwbase: String,
    libgfxinit: String,
}

impl Sources {
    /// The path of the vendored `libhwbase` tree, as text.
    pub closed spec fn libhwbase_path(self) -> Seq<char> {
        self.libhwbase@
    }

    /// The path of the vendored `libgfxinit` tree, as text.
    pub closed spec fn libgfxinit_path(self) -> Seq<char> {
        self.libgfxinit@
    }

    /// Return paths rooted at the `vendor/` directory below `manifest_dir`,
    /// the source crate's own directory.  The paths are std's joins of the
    /// directory, `vendor` and the tree's name; below a directory that begins
    /// like a Windows verbatim prefix (`\\?`) std also normalizes them, and
    /// the contract says no more than that they are those joins.
    pub fn new(manifest_dir: &str) -> (sources: Self)
        ensures
            (sources.libhwbase_path(), sources.libgfxinit_path()) == vendored_paths(manifest_dir@),
            sources.libhwbase_path() == path_join(
                path_join(manifest_dir@, vendor_name()),
                libhwbase_name(),
            ),
            sources.libgfxinit_path() == path_join(
                path_join(manifest_dir@, vendor_name()),
                libgfxinit_name(),
            ),
            !starts_verbatim(manifest_dir@) ==> laid_out_below(
                manifest_dir@,
                sources.libhwbase_path(),
                sources.libgfxinit_path(),
            ),
    {
        proof {
            reveal_strlit("vendor");
            reveal_strlit("libhwbase");
            reveal_strlit("libgfxinit");
            assert("vendor"@ == vendor_name());
            assert("libhwbase"@ == libhwbase_name());
            assert("libgfxinit"@ == libgfxinit_name());
        }
        let root = join_path(manifest_dir, "vendor");
        proof {
            if !starts_verbatim(manifest_dir@) {
                lemma_join_keeps_non_verbatim(manifest_dir@, vendor_name(), root@);
            }
        }
        let libhwbase = join_path(root.as_str(), "libhwbase");
        let libgfxinit = join_path(root.as_str(), "libgfxinit");
        let sources = Sources { libhwbase, libgfxinit };
        sources
    }

    /// Path to the vendored `libhwbase` checkout.
    pub fn libhwbase(&self) -> (path: &str)
        ensures
            path@ == self.libhwbase_path(),
    {
        self.libhwbase.as_str()
    }

    /// Path to the vendored `libgfxinit` checkout.
    pub fn libgfxinit(&self) -> (path: &str)
        ensures
            path@ == self.libgfxinit_path(),
    {
        self.libgfxinit.as_str()
    }
}

/// Each tree's path is std's join of the `vendor` root, itself std's join of
/// the crate directory and `vendor`, with the tree's name.
pub proof fn lemma_vendored_paths_are_joins(manifest_dir: Seq<char>)
    ensures
        vendored_paths(manifest_dir).0 == path_join(
            path_join(manifest_dir, seq!['v', 'e', 'n', 'd', 'o', 'r']),
            seq!['l', 'i', 'b', 'h', 'w', 'b', 'a', 's', 'e'],
        ),
        vendored_paths(manifest_dir).1 == path_join(
            path_join(manifest_dir, seq!['v', 'e', 'n', 'd', 'o', 'r']),
            seq!['l', 'i', 'b', 'g', 'f', 'x', 'i', 'n', 'i', 't'],
        ),
{
}

/// The paths depend on the crate directory alone: two `Sources` built for
/// the same directory name the same trees.
pub proof fn lemma_sources_depend_on_dir_only(a: Sources, b: Sources, manifest_dir: Seq<char>)
    requires
        (a.libhwbase_path(), a.libgfxinit_path()) == vendored_paths(manifest_dir),
        (b.libhwbase_path(), b.libgfxinit_path()) == vendored_paths(manifest_dir),
    ensures
        a.libhwbase_path() == b.libhwbase_path(),
        a.libgfxinit_path() == b.libgfxinit_path(),
{
}

/// Both trees lie in the `vendor` directory below the crate directory: each
/// path is that directory, one separator, and the tree's own name.  So each
/// begins with the crate directory, ends with its name, and the two differ.
pub proof fn lemma_sources_share_root(manifest_dir: Seq<char>, libhwbase: Seq<char>, libgfxinit: Seq<char>)
    requires
        laid_out_below(manifest_dir, libhwbase, libgfxinit),
    ensures
        exists|hw_sep: char, gfx_sep: char|
            #![trigger is_separator(hw_sep), is_separator(gfx_sep)]
            {
                let root = path_join(manifest_dir, vendor_name());
                &&& is_separator(hw_sep) && libhwbase == root + seq![hw_sep] + libhwbase_name()
                &&& is_separator(gfx_sep) && libgfxinit == root + seq![gfx_sep] + libgfxinit_name()
            },
        manifest_dir.is_prefix_of(libhwbase),
        manifest_dir.is_prefix_of(libgfxinit),
        libhwbase_name().is_suffix_of(libhwbase),
        libgfxinit_name().is_suffix_of(libgfxinit),
        libhwbase != libgfxinit,
{
    let root = path_join(manifest_dir, vendor_name());
    lemma_joins_ends(manifest_dir, vendor_name(), root);
    lemma_joins_ends(root, libhwbase_name(), libhwbase);
    lemma_joins_ends(root, libgfxinit_name(), libgfxinit);
    // The root ends with `vendor`, in a letter, so each tree name follows a separator.
    assert(root.len() > 0 && root.last() == vendor_name()[5]);
    let hw_sep = lemma_separator_after_word(root, libhwbase_name(), libhwbase);
    let gfx_sep = lemma_separator_after_word(root, libgfxinit_name(), libgfxinit);
    assert(is_separator(hw_sep) && is_separator(gfx_sep));
    lemma_prefix_through(manifest_dir, root, libhwbase);
    lemma_prefix_through(manifest_dir, root, libgfxinit);
    if libhwbase == libgfxinit {
        // `libhwbase` and `libgfxinit` differ in their last characters.
        assert(libhwbase[libhwbase.len() - 1] == libhwbase_name()[8]);
        assert(libgfxinit[libgfxinit.len() - 1] == libgfxinit_name()[9]);
    }
}

/// A prefix of a prefix is a prefix.
proof fn lemma_prefix_through(a: Seq<char>, b: Seq<char>, c: Seq<char>)
    requires
        a.is_prefix_of(b),
        b.is_prefix_of(c),
    ensures
        a.is_prefix_of(c),
{
    assert(a =~= c.subrange(0, a.len() as int)) by {
        assert forall|i: int| 0 <= i < a.len() implies a[i] == c[i] by {
            assert(b[i] == a[i]);
            assert(c[i] == b[i]);
        }
    }
}

/// After a base that ends in a letter or digit, the joined path is the base,
/// one separator, then the component; the separator is returned.
proof fn lemma_separator_after_word(base: Seq<char>, name: Seq<char>, joined: Seq<char>) -> (sep: char)
    requires
        joins(base, name, joined),
        base.len() > 0,
        is_ascii_alphanumeric(base.last()),
    ensures
        is_separator(sep),
        joined == base + seq![sep] + name,
{
    reveal(joins);
    if joined == base + seq!['/'] + name {
        '/'
    } else {
        '\\'
    }
}

/// `joined` is `base`, perhaps one separator, then `name`.
proof fn lemma_joins_shape(base: Seq<char>, name: Seq<char>, joined: Seq<char>)
    requires
        joins(base, name, joined),
    ensures
        joined == base + name || joined == base + seq!['/'] + name || joined == base + seq!['\\']
            + name,
{
    reveal(joins);
}

/// A joined path begins with the base and ends with the component.
proof fn lemma_joins_ends(base: Seq<char>, name: Seq<char>, joined: Seq<char>)
    requires
        joins(base, name, joined),
    ensures
        base.is_prefix_of(joined),
        name.is_suffix_of(joined),
        joined.len() <= base.len() + name.len() + 1,
        forall|i: int| 0 <= i < base.len() ==> joined[i] == base[i],
        forall|i: int|
            0 <= i < name.len() ==> joined[joined.len() - name.len() + i] == #[trigger] name[i],
{
    lemma_joins_shape(base, name, joined);
    assert(base =~= joined.subrange(0, base.len() as int));
    assert(name =~= joined.subrange(joined.len() - name.len(), joined.len() as int));
}

/// Appending a plain component to a base that does not begin like a verbatim
/// prefix gives a path that does not either.
proof fn lemma_join_keeps_non_verbatim(base: Seq<char>, name: Seq<char>, joined: Seq<char>)
    requires
        joins(base, name, joined),
        is_plain_component(name),
        !starts_verbatim(base),
    ensures
        !starts_verbatim(joined),
{
    lemma_joins_shape(base, name, joined);
    lemma_joins_ends(base, name, joined);
    if joined.len() >= 3 && base.len() < 3 {
        let k: int = 2 - joined.len() + name.len();
        if 0 <= k < name.len() {
            assert(is_ascii_alphanumeric(name[k]));
            assert(joined[2] == name[k]);
        } else {
            assert(joined[2] == '/' || joined[2] == '\\');
        }
    }
}

} // verus!
