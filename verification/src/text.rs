//! Character-level helpers for the text the engine handles.

use vstd::prelude::*;
use vstd::string::*;

verus! {

broadcast use vstd::string::group_string_axioms;

/// Whether `c` carries the Unicode `White_Space` property.
pub open spec fn whitespace(c: char) -> bool {
    let u = c as u32;
    ||| 0x09 <= u <= 0x0D
    ||| u == 0x20
    ||| u == 0x85
    ||| u == 0xA0
    ||| u == 0x1680
    ||| 0x2000 <= u <= 0x200A
    ||| u == 0x2028
    ||| u == 0x2029
    ||| u == 0x202F
    ||| u == 0x205F
    ||| u == 0x3000
}

/// Whether `c` ends a line: a line feed or a carriage return.
pub open spec fn line_terminator(c: char) -> bool {
    c == '\n' || c == '\r'
}

/// Whether every character of `s` is white space; true of the empty sequence.
pub open spec fn blank(s: Seq<char>) -> bool {
    forall|i: int| 0 <= i < s.len() ==> whitespace(#[trigger] s[i])
}

/// `s` without the line terminators at its end.
pub open spec fn trim_line_end(s: Seq<char>) -> Seq<char>
    decreases s.len(),
{
    if s.len() > 0 && line_terminator(s.last()) {
        trim_line_end(s.drop_last())
    } else {
        s
    }
}

/// A prefix of `s` that drops only line terminators and does not end in one
/// is the trimmed sequence.
pub proof fn lemma_trim_line_end_is(s: Seq<char>, kept: int)
    requires
        0 <= kept <= s.len(),
        kept > 0 ==> !line_terminator(s[kept - 1]),
        forall|i: int| kept <= i < s.len() ==> line_terminator(#[trigger] s[i]),
    ensures
        trim_line_end(s) == s.take(kept),
    decreases s.len(),
{
    if s.len() > 0 && line_terminator(s.last()) {
        let shorter = s.drop_last();
        assert(kept < s.len());
        assert forall|i: int| kept <= i < shorter.len() implies line_terminator(
            #[trigger] shorter[i],
        ) by {
            assert(shorter[i] == s[i]);
        }
        lemma_trim_line_end_is(shorter, kept);
        assert(shorter.take(kept) =~= s.take(kept));
    } else {
        assert(kept == s.len());
        assert(s.take(kept) =~= s);
    }
}

/// The position of the first `needle` in `s`; the length of `s` if it holds
/// none.
pub open spec fn first_position<T>(s: Seq<T>, needle: T) -> int
    decreases s.len(),
{
    if s.len() == 0 || s[0] == needle {
        0
    } else {
        1 + first_position(s.drop_first(), needle)
    }
}

/// A position with no `needle` before it, which holds one or is the end of
/// `s`, is the first position of `needle` in `s`.
pub proof fn lemma_first_position<T>(s: Seq<T>, needle: T, at: int)
    requires
        0 <= at <= s.len(),
        forall|j: int| 0 <= j < at ==> s[j] != needle,
        at < s.len() ==> s[at] == needle,
    ensures
        first_position(s, needle) == at,
    decreases s.len(),
{
    if at > 0 {
        let rest = s.drop_first();
        assert forall|j: int| 0 <= j < at - 1 implies rest[j] != needle by {
            assert(rest[j] == s[j + 1]);
        }
        lemma_first_position(rest, needle, at - 1);
    }
}

/// The views of a sequence of strings, in the same order.
pub open spec fn string_views(strings: Seq<String>) -> Seq<Seq<char>> {
    strings.map_values(|string: String| string@)
}

/// An outbound text as it is mirrored to the operator: the text behind the
/// marker `> `.
pub open spec fn echoed(text: Seq<char>) -> Seq<char> {
    seq!['>', ' '] + text
}

/// The line that mirrors the outbound `text` on standard output.
pub fn echo_line(text: &str) -> (line: String)
    ensures
        line@ == echoed(text@),
{
    let mut line = String::from_str("> ");
    proof {
        reveal_strlit("> ");
        assert("> "@ =~= seq!['>', ' ']);
    }
    line.append(text);
    line
}

/// Tests one character for white space.
pub fn is_whitespace(c: char) -> (white: bool)
    ensures
        white == whitespace(c),
{
    let u: u32 = c as u32;
    (0x09 <= u && u <= 0x0D) || u == 0x20 || u == 0x85 || u == 0xA0 || u == 0x1680 || (0x2000 <= u
        && u <= 0x200A) || u == 0x2028 || u == 0x2029 || u == 0x202F || u == 0x205F || u == 0x3000
}

/// The characters of a string slice, in order.
pub fn chars_of(s: &str) -> (chars: Vec<char>)
    ensures
        chars@ == s@,
{
    let mut chars: Vec<char> = Vec::new();
    for c in it: s.chars()
        invariant
            it.seq() == s@,
            chars@ == s@.take(it.index()),
    {
        chars.push(c);
        assert(s@.take(it.index() + 1) =~= s@.take(it.index()).push(c));
    }
    assert(s@.take(s@.len() as int) =~= s@);
    chars
}

/// Tests whether a line holds nothing but white space.
pub fn is_blank(chars: &Vec<char>) -> (all_white: bool)
    ensures
        all_white == blank(chars@),
{
    let mut i: usize = 0;
    while i < chars.len()
        invariant
            i <= chars.len(),
            forall|j: int| 0 <= j < i ==> whitespace(#[trigger] chars@[j]),
        decreases chars.len() - i,
    {
        if !is_whitespace(chars[i]) {
            return false;
        }
        i += 1;
    }
    true
}

/// The number of characters that remain once the trailing line terminators
/// are dropped.
pub fn trimmed_len(chars: &Vec<char>) -> (kept: usize)
    ensures
        kept <= chars.len(),
        trim_line_end(chars@) == chars@.take(kept as int),
{
    let mut kept: usize = chars.len();
    while kept > 0 && (chars[kept - 1] == '\n' || chars[kept - 1] == '\r')
        invariant
            kept <= chars.len(),
            forall|j: int| kept <= j < chars.len() ==> line_terminator(#[trigger] chars@[j]),
        decreases kept,
    {
        kept -= 1;
    }
    proof {
        lemma_trim_line_end_is(chars@, kept as int);
    }
    kept
}

} // verus!
