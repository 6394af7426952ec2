//! Parsing of the package manager's generation listing.
//!
//! During rollback the agent lists a profile's generations, takes the last
//! line of that listing and extracts its first whitespace-delimited token:
//! the identifier of the generation to delete.

use vstd::prelude::*;
use vstd::utf8::decode_utf8;
use vstd::utf8::valid_utf8;

verus! {

/// Whitespace as the token extraction recognizes it.
pub open spec fn is_space(c: char) -> bool {
    c == ' ' || c == '\t' || c == '\n' || c == '\x0b' || c == '\x0c' || c == '\r'
}

fn char_is_space(c: char) -> (r: bool)
    ensures
        r == is_space(c),
{
    c == ' ' || c == '\t' || c == '\n' || c == '\x0b' || c == '\x0c' || c == '\r'
}

/// Start index of the last line of `s`: 0, or one past the last `\n`.
pub open spec fn line_start(s: Seq<char>) -> int
    decreases s.len(),
{
    if s.len() == 0 {
        0
    } else if s.last() == '\n' {
        s.len() as int
    } else {
        line_start(s.drop_last())
    }
}

proof fn lemma_line_start_bounds(s: Seq<char>)
    ensures
        0 <= line_start(s) <= s.len(),
        line_start(s) > 0 ==> s[line_start(s) - 1] == '\n',
        forall|k: int| line_start(s) <= k < s.len() ==> s[k] != '\n',
    decreases s.len(),
{
    if s.len() == 0 {
    } else if s.last() == '\n' {
    } else {
        lemma_line_start_bounds(s.drop_last());
        assert forall|k: int| line_start(s) <= k < s.len() implies s[k] != '\n' by {
            if k < s.len() - 1 {
                assert(s.drop_last()[k] != '\n');
            }
        }
    }
}

proof fn lemma_line_start_unique(s: Seq<char>, i: int)
    requires
        0 <= i <= s.len(),
        i > 0 ==> s[i - 1] == '\n',
        forall|k: int| i <= k < s.len() ==> s[k] != '\n',
    ensures
        i == line_start(s),
{
    lemma_line_start_bounds(s);
    if i < line_start(s) {
        assert(s[line_start(s) - 1] == '\n');
    } else if line_start(s) < i {
        assert(s[i - 1] != '\n');
    }
}

/// The input with one trailing newline removed, as the line splitter does.
pub open spec fn trim_newline(s: Seq<char>) -> Seq<char> {
    if s.len() > 0 && s.last() == '\n' {
        s.drop_last()
    } else {
        s
    }
}

/// The last line of `s`: the suffix after the last `\n` once a single
/// trailing newline is discounted. Empty exactly when `s` has no line.
pub open spec fn last_line(s: Seq<char>) -> Seq<char> {
    trim_newline(s).subrange(line_start(trim_newline(s)), trim_newline(s).len() as int)
}

/// First index at or after `i` that holds a non-space, or the length.
pub open spec fn skip_spaces(s: Seq<char>, i: int) -> int
    decreases s.len() - i when 0 <= i <= s.len()
{
    if i >= s.len() {
        s.len() as int
    } else if is_space(s[i]) {
        skip_spaces(s, i + 1)
    } else {
        i
    }
}

/// First index at or after `i` that holds a space, or the length.
pub open spec fn skip_token(s: Seq<char>, i: int) -> int
    decreases s.len() - i when 0 <= i <= s.len()
{
    if i >= s.len() {
        s.len() as int
    } else if !is_space(s[i]) {
        skip_token(s, i + 1)
    } else {
        i
    }
}

proof fn lemma_skip_spaces_unique(s: Seq<char>, i: int, r: int)
    requires
        0 <= i <= r <= s.len(),
        forall|m: int| i <= m < r ==> is_space(s[m]),
        r < s.len() ==> !is_space(s[r]),
    ensures
        skip_spaces(s, i) == r,
    decreases r - i,
{
    if i < r {
        lemma_skip_spaces_unique(s, i + 1, r);
    }
}

proof fn lemma_skip_token_unique(s: Seq<char>, i: int, r: int)
    requires
        0 <= i <= r <= s.len(),
        forall|m: int| i <= m < r ==> !is_space(s[m]),
        r < s.len() ==> is_space(s[r]),
    ensures
        skip_token(s, i) == r,
    decreases r - i,
{
    if i < r {
        lemma_skip_token_unique(s, i + 1, r);
    }
}

/// The first whitespace-delimited token of `s`, if `s` holds one.
pub open spec fn first_token(s: Seq<char>) -> Option<Seq<char>> {
    let a = skip_spaces(s, 0);
    if a == s.len() {
        Option::None
    } else {
        Option::Some(s.subrange(a, skip_token(s, a)))
    }
}

/// The generation identifier in a listing: the first token of its last
/// line. `None` when the listing has no line with a token on it.
pub open spec fn spec_last_generation_id(s: Seq<char>) -> Option<Seq<char>> {
    first_token(last_line(s))
}

/// Extracts the identifier of the most recent generation from the decoded
/// listing: the first whitespace-delimited token of the last line.
pub fn last_generation_id(text: &str) -> (r: Option<String>)
    ensures
        r is Some <==> spec_last_generation_id(text@) is Some,
        r is Some ==> r->0@ == spec_last_generation_id(text@)->0,
{
    let n = text.unicode_len();
    let te: usize = if n > 0 && text.get_char(n - 1) == '\n' {
        n - 1
    } else {
        n
    };
    let ghost t = trim_newline(text@);
    proof {
        assert(t =~= text@.subrange(0, te as int));
    }
    let mut ls: usize = te;
    while ls > 0 && text.get_char(ls - 1) != '\n'
        invariant
            0 <= ls <= te <= n,
            n == text@.len(),
            forall|k: int| ls <= k < te ==> text@[k] != '\n',
        decreases ls,
    {
        ls = ls - 1;
    }
    proof {
        lemma_line_start_unique(t, ls as int);
    }
    let ghost line = last_line(text@);
    proof {
        assert(line =~= text@.subrange(ls as int, te as int));
    }
    let mut a: usize = ls;
    while a < te && char_is_space(text.get_char(a))
        invariant
            ls <= a <= te <= n,
            n == text@.len(),
            forall|m: int| ls <= m < a ==> is_space(text@[m]),
        decreases te - a,
    {
        a = a + 1;
    }
    proof {
        lemma_skip_spaces_unique(line, 0, a - ls);
    }
    if a == te {
        return None;
    }
    let mut b: usize = a;
    while b < te && !char_is_space(text.get_char(b))
        invariant
            a <= b <= te <= n,
            n == text@.len(),
            forall|m: int| a <= m < b ==> !is_space(text@[m]),
        decreases te - b,
    {
        b = b + 1;
    }
    proof {
        lemma_skip_token_unique(line, a - ls, b - ls);
        assert(line.subrange(a - ls, b - ls) =~= text@.subrange(a as int, b as int));
    }
    Some(text.substring_char(a, b).to_owned())
}

/// Relies on `String::from_utf8`: it succeeds exactly on valid UTF-8 input
/// and returns the string of the decoded characters.
#[verifier::external_body]
pub(crate) fn bytes_to_string(bytes: Vec<u8>) -> (r: Option<String>)
    ensures
        r is Some <==> valid_utf8(bytes@),
        r is Some ==> r->0@ == decode_utf8(bytes@),
{
    String::from_utf8(bytes).ok()
}

} // verus!
