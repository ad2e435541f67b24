//! Text preparation for positioned HTML output.

use vstd::prelude::*;
use vstd::string::{StrSliceExecFns, StringExecFns};

verus! {

/// What one character of a line becomes: itself, unless it is a space. A
/// space stays a space only between two characters that are not spaces; any
/// other space becomes a non-breaking space entity.
pub open spec fn nbsp_at(s: Seq<char>, i: int) -> Seq<char> {
    if s[i] != ' ' {
        seq![s[i]]
    } else if i > 0 && s[i - 1] != ' ' && i + 1 < s.len() && s[i + 1] != ' ' {
        seq![' ']
    } else {
        "&nbsp;"@
    }
}

/// What the first `n` characters of a line become.
pub open spec fn nbsp_prefix(s: Seq<char>, n: int) -> Seq<char>
    decreases n,
{
    if n <= 0 {
        Seq::empty()
    } else {
        nbsp_prefix(s, n - 1) + nbsp_at(s, n - 1)
    }
}

/// What a line becomes.
pub open spec fn spec_insert_nbsp(s: Seq<char>) -> Seq<char> {
    nbsp_prefix(s, s.len() as int)
}

/// `String::push`: the string with one more character at its end.
#[verifier::external_body]
fn push_char(s: &mut String, c: char)
    ensures
        final(s)@ == old(s)@.push(c),
{
    s.push(c);
}

/// Replace the spaces of a line that a browser would collapse by
/// non-breaking space entities: every space but a single one between two
/// words.
pub fn insert_nbsp(input: &str) -> (r: String)
    ensures
        r@ == spec_insert_nbsp(input@),
{
    let mut result = String::new();
    let n: usize = input.unicode_len();
    let mut word_end: bool = false;
    let mut i: usize = 0;
    while i < n
        invariant
            n == input@.len(),
            0 <= i <= n,
            word_end == (i > 0 && input@[i - 1] != ' '),
            result@ == nbsp_prefix(input@, i as int),
        decreases n - i,
    {
        let c = input.get_char(i);
        if c == ' ' {
            let lone: bool = word_end && i + 1 < n && input.get_char(i + 1) != ' ';
            if lone {
                push_char(&mut result, ' ');
                assert(result@ =~= nbsp_prefix(input@, i as int) + seq![' ']);
            } else {
                result.append("&nbsp;");
            }
            word_end = false;
        } else {
            push_char(&mut result, c);
            assert(result@ =~= nbsp_prefix(input@, i as int) + seq![c]);
            word_end = true;
        }
        i += 1;
    }
    result
}

} // verus!
