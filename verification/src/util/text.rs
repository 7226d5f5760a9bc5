//! Small operations on text that the rest of the crate is built from.

use vstd::prelude::*;

verus! {

/// `needle` stands in `haystack` starting at position `at`.
pub open spec fn occurs_at(needle: Seq<char>, haystack: Seq<char>, at: int) -> bool {
    &&& 0 <= at
    &&& at + needle.len() <= haystack.len()
    &&& haystack.subrange(at, at + needle.len()) == needle
}

/// `line` stands in `text` at position `at` as a whole line: it begins
/// where the text or a line begins, and it ends at a line feed or, if it is
/// not empty, with the text.
pub open spec fn line_at(line: Seq<char>, text: Seq<char>, at: int) -> bool {
    &&& occurs_at(line, text, at)
    &&& (at == 0 || text[at - 1] == '\n')
    &&& if at + line.len() == text.len() {
        line.len() > 0
    } else {
        text[at + line.len()] == '\n'
    }
}

/// `line` is one of the lines of `text`. Lines are divided by line feeds; a
/// line feed at the end of the text begins no further line.
pub open spec fn is_line_of(line: Seq<char>, text: Seq<char>) -> bool {
    &&& forall|k: int| 0 <= k < line.len() ==> line[k] != '\n'
    &&& exists|at: int| line_at(line, text, at)
}

/// A text that is one name and a line feed has that name as its only line:
/// a longer name, a shorter one, or one that merely holds the name is no
/// line of it.
pub proof fn one_line_listing_has_one_line(name: Seq<char>, line: Seq<char>)
    requires
        forall|k: int| 0 <= k < name.len() ==> name[k] != '\n',
    ensures
        is_line_of(line, name + seq!['\n']) <==> line == name,
{
    let text = name + seq!['\n'];
    if line == name {
        assert(text.subrange(0, name.len() as int) =~= name);
        assert(line_at(line, text, 0));
    }
    if is_line_of(line, text) {
        let at = choose|at: int| line_at(line, text, at);
        let end = at + line.len();
        assert(text.subrange(at, end) == line);
        if end == text.len() {
            assert(text.subrange(at, end)[line.len() - 1] == '\n');
        } else {
            assert(text[end] == '\n');
            if at > 0 {
                assert(text[at - 1] == '\n');
            }
            assert(line =~= name);
        }
    }
}

/// The characters of `text`, in order.
pub fn characters(text: &str) -> (chars: Vec<char>)
    ensures
        chars@ == text@,
{
    let mut chars: Vec<char> = Vec::new();
    for c in it: text.chars()
        invariant
            chars@ == it.seq().take(it.index() as int),
    {
        chars.push(c);
    }
    chars
}

/// Whether `needle` stands in `haystack` at position `at`.
fn matches_at(haystack: &Vec<char>, needle: &Vec<char>, at: usize) -> (found: bool)
    requires
        at + needle.len() <= haystack.len(),
    ensures
        found == occurs_at(needle@, haystack@, at as int),
{
    let mut k: usize = 0;
    while k < needle.len()
        invariant
            k <= needle.len(),
            at + needle.len() <= haystack.len(),
            forall|j: int| 0 <= j < k ==> haystack@[at + j] == needle@[j],
        decreases needle.len() - k,
    {
        if haystack[at + k] != needle[k] {
            assert(haystack@.subrange(at as int, at + needle.len())[k as int] != needle@[k as int]);
            return false;
        }
        k += 1;
    }
    assert(haystack@.subrange(at as int, at + needle.len()) =~= needle@);
    true
}

/// Whether `text` holds no line feed.
fn is_one_line(text: &Vec<char>) -> (single: bool)
    ensures
        single == forall|k: int| 0 <= k < text@.len() ==> text@[k] != '\n',
{
    let mut k: usize = 0;
    while k < text.len()
        invariant
            k <= text.len(),
            forall|j: int| 0 <= j < k ==> text@[j] != '\n',
        decreases text.len() - k,
    {
        if text[k] == '\n' {
            return false;
        }
        k += 1;
    }
    true
}

/// Whether `line` is one of the lines of `text`.
pub fn has_line(text: &str, line: &str) -> (found: bool)
    ensures
        found == is_line_of(line@, text@),
{
    let hay = characters(text);
    let pin = characters(line);
    if !is_one_line(&pin) || pin.len() > hay.len() {
        return false;
    }
    let last: usize = hay.len() - pin.len();
    let mut at: usize = 0;
    loop
        invariant
            at <= last,
            last == hay.len() - pin.len(),
            pin.len() <= hay.len(),
            hay@ == text@,
            pin@ == line@,
            forall|k: int| 0 <= k < line@.len() ==> line@[k] != '\n',
            forall|j: int| 0 <= j < at ==> !line_at(line@, text@, j),
        decreases last - at,
    {
        let begins = at == 0 || hay[at - 1] == '\n';
        let ends = if at == last {
            pin.len() > 0
        } else {
            hay[at + pin.len()] == '\n'
        };
        if begins && ends && matches_at(&hay, &pin, at) {
            assert(line_at(line@, text@, at as int));
            return true;
        }
        if at == last {
            return false;
        }
        at += 1;
    }
}

/// Whether two texts hold the same characters.
pub fn same_text(a: &str, b: &str) -> (same: bool)
    ensures
        same == (a@ == b@),
{
    String::from_str(a) == String::from_str(b)
}

/// `a` followed by `b`.
pub fn join(a: &str, b: &str) -> (joined: String)
    ensures
        joined@ == a@ + b@,
{
    let mut joined = String::from_str(a);
    joined.append(b);
    joined
}

/// `a`, then `b`, then `c`.
pub fn join3(a: &str, b: &str, c: &str) -> (joined: String)
    ensures
        joined@ == a@ + b@ + c@,
{
    let mut joined = String::from_str(a);
    joined.append(b);
    joined.append(c);
    joined
}

/// `String::push`: the character is appended and nothing else changes.
#[verifier::external_body]
pub(crate) fn push_char(text: &mut String, c: char)
    ensures
        final(text)@ == old(text)@.push(c),
{
    text.push(c)
}

} // verus!
