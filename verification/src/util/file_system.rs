//! Where a repository lives on disk.

use regex::Regex;
use vstd::prelude::*;

verus! {

/// The pattern of a character that may not stand in a repository's directory
/// name: anything but an ASCII letter, a digit, `-`, `_` or `.`.
pub const UNSAFE_NAME_CHARS: &'static str = "[^A-Za-z0-9-_.]";

/// What replaces each such character.
pub const NAME_FILLER: &'static str = "-";

/// Whether `c` may stand in a canonical name.
pub open spec fn is_name_char(c: char) -> bool {
    ||| 'A' <= c <= 'Z'
    ||| 'a' <= c <= 'z'
    ||| '0' <= c <= '9'
    ||| c == '-'
    ||| c == '_'
    ||| c == '.'
}

/// The canonical name of `raw`: every character that may not stand in a
/// directory name is replaced by `-`, the others stay where they are.
///
/// Different names can have one canonical name, and then share a location:
/// nothing here tells them apart.
pub open spec fn canonical_name(raw: Seq<char>) -> Seq<char> {
    raw.map_values(|c: char| if is_name_char(c) { c } else { '-' })
}

/// The directory of the repository called `raw_name` under `base`.
pub open spec fn location(base: Seq<char>, raw_name: Seq<char>) -> Seq<char> {
    base + seq!['/'] + canonical_name(raw_name)
}

/// Canonical names are fixed points: a canonical name holds only characters
/// that may stand in one, has the length of the name it came from, and is its
/// own canonical name.
pub proof fn canonical_name_is_idempotent(raw: Seq<char>)
    ensures
        canonical_name(canonical_name(raw)) == canonical_name(raw),
        canonical_name(raw).len() == raw.len(),
        forall|i: int| 0 <= i < raw.len() ==> is_name_char(#[trigger] canonical_name(raw)[i]),
{
    assert(canonical_name(canonical_name(raw)) =~= canonical_name(raw));
}

/// Two names with one canonical form share one location.
pub proof fn equal_canonical_names_collide(base: Seq<char>, a: Seq<char>, b: Seq<char>)
    requires
        canonical_name(a) == canonical_name(b),
    ensures
        location(base, a) == location(base, b),
{
}

/// `regex::Regex::new(pattern)` followed by `Regex::replace_all(haystack,
/// replacement)`. Claimed of the one pattern and replacement this crate uses:
/// the pattern is a negated class of single characters, so it compiles, each
/// match is one character outside the class, and the replacement holds no `$`,
/// so every such character becomes `-` and nothing else changes.
#[verifier::external_body]
fn replace_all(pattern: &str, haystack: &str, replacement: &str) -> (replaced: String)
    requires
        pattern@ == UNSAFE_NAME_CHARS@,
        replacement@ == NAME_FILLER@,
    ensures
        replaced@ == canonical_name(haystack@),
{
    Regex::new(pattern).unwrap().replace_all(haystack, replacement).into_owned()
}

/// Maps a name as a caller gave it to one that is safe as a path segment.
pub fn sanitize(raw: &str) -> (name: String)
    ensures
        name@ == canonical_name(raw@),
{
    replace_all(UNSAFE_NAME_CHARS, raw, NAME_FILLER)
}

/// The root directory under which every managed repository lives.
#[derive(Debug, Clone, PartialEq, Eq)]
pub struct FileSystem {
    pub base_location: String,
}

impl FileSystem {
    /// The repositories under `base_location`.
    pub fn new(base_location: &str) -> (fs: Self)
        ensures
            fs.base_location@ == base_location@,
    {
        FileSystem { base_location: String::from_str(base_location) }
    }

    /// The directory of the repository called `name`.
    pub fn git_path(&self, name: &str) -> (path: String)
        ensures
            path@ == location(self.base_location@, name@),
    {
        let sanitized_name = sanitize(name);
        let mut path = self.base_location.clone();
        path.append("/");
        path.append(sanitized_name.as_str());
        proof {
            reveal_strlit("/");
            assert("/"@ =~= seq!['/']);
        }
        path
    }
}

} // verus!
