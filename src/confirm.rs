use vstd::prelude::*;

use crate::text::chars_of;

verus! {

/// The code points of Unicode's White_Space property, the characters that `str::trim` removes.
pub open spec fn is_white_space(c: char) -> bool {
    let u = c as u32;
    ||| 0x09 <= u <= 0x0d
    ||| u == 0x20
    ||| u == 0x85
    ||| u == 0xa0
    ||| u == 0x1680
    ||| 0x2000 <= u <= 0x200a
    ||| u == 0x2028
    ||| u == 0x2029
    ||| u == 0x202f
    ||| u == 0x205f
    ||| u == 0x3000
}

/// `s` without its leading white space.
pub open spec fn trim_start(s: Seq<char>) -> Seq<char>
    decreases s.len(),
{
    if s.len() > 0 && is_white_space(s[0]) {
        trim_start(s.drop_first())
    } else {
        s
    }
}

/// `s` without its trailing white space.
pub open spec fn trim_end(s: Seq<char>) -> Seq<char>
    decreases s.len(),
{
    if s.len() > 0 && is_white_space(s.last()) {
        trim_end(s.drop_last())
    } else {
        s
    }
}

/// `s` without white space at either end.
pub open spec fn trim_spec(s: Seq<char>) -> Seq<char> {
    trim_end(trim_start(s))
}

/// The code of `c` with ASCII upper-case letters taken to lower case.
pub open spec fn lower_code(c: char) -> u32 {
    let u = c as u32;
    if 0x41 <= u <= 0x5a {
        (u + 0x20) as u32
    } else {
        u
    }
}

/// `t` is the lower-case ASCII word `word`, whatever the case of its letters. No character
/// outside ASCII turns into one of the letters y, e, s, n, o when lower-cased.
pub open spec fn is_word(t: Seq<char>, word: Seq<char>) -> bool {
    &&& t.len() == word.len()
    &&& forall|i: int| 0 <= i < t.len() ==> lower_code(#[trigger] t[i]) == word[i] as u32
}

/// The answer accepts.
pub open spec fn is_yes(t: Seq<char>) -> bool {
    is_word(t, seq!['y']) || is_word(t, seq!['y', 'e', 's'])
}

/// The answer declines.
pub open spec fn is_no(t: Seq<char>) -> bool {
    is_word(t, seq!['n']) || is_word(t, seq!['n', 'o'])
}

/// What an answer to a yes/no question means: yes or no, whatever the case and the white space
/// around it, and otherwise the default.
pub open spec fn confirmation_spec(answer: Seq<char>, default: bool) -> bool {
    let t = trim_spec(answer);
    if is_yes(t) {
        true
    } else if is_no(t) {
        false
    } else {
        default
    }
}

fn is_white(c: char) -> (r: bool)
    ensures
        r == is_white_space(c),
{
    let u = c as u32;
    (0x09 <= u && u <= 0x0d) || u == 0x20 || u == 0x85 || u == 0xa0 || u == 0x1680 || (0x2000
        <= u && u <= 0x200a) || u == 0x2028 || u == 0x2029 || u == 0x202f || u == 0x205f || u
        == 0x3000
}

fn lower(c: char) -> (r: u32)
    ensures
        r == lower_code(c),
{
    let u = c as u32;
    if 0x41 <= u && u <= 0x5a {
        u + 0x20
    } else {
        u
    }
}

/// The bounds of `chars` without white space at either end.
fn trim_bounds(chars: &Vec<char>) -> (r: (usize, usize))
    ensures
        r.0 <= r.1 <= chars@.len(),
        chars@.subrange(r.0 as int, r.1 as int) == trim_spec(chars@),
{
    let n = chars.len();
    let mut lo: usize = 0;
    proof {
        assert(chars@.subrange(0, n as int) == chars@);
    }
    while lo < n && is_white(chars[lo])
        invariant
            lo <= n == chars@.len(),
            trim_start(chars@) == trim_start(chars@.subrange(lo as int, n as int)),
        decreases n - lo,
    {
        proof {
            assert(chars@.subrange(lo as int, n as int).drop_first() == chars@.subrange(
                lo as int + 1,
                n as int,
            ));
        }
        lo = lo + 1;
    }
    let mut hi: usize = n;
    while hi > lo && is_white(chars[hi - 1])
        invariant
            lo <= hi <= n == chars@.len(),
            trim_start(chars@) == chars@.subrange(lo as int, n as int),
            trim_spec(chars@) == trim_end(chars@.subrange(lo as int, hi as int)),
        decreases hi - lo,
    {
        proof {
            assert(chars@.subrange(lo as int, hi as int).drop_last() == chars@.subrange(
                lo as int,
                hi as int - 1,
            ));
        }
        hi = hi - 1;
    }
    (lo, hi)
}

/// Whether `chars[lo..hi]` is the lower-case ASCII word `word`, whatever the case of its letters.
fn matches_word(chars: &Vec<char>, lo: usize, hi: usize, word: &Vec<char>) -> (r: bool)
    requires
        lo <= hi <= chars@.len(),
    ensures
        r == is_word(chars@.subrange(lo as int, hi as int), word@),
{
    if hi - lo != word.len() {
        return false;
    }
    let mut i: usize = 0;
    while i < word.len()
        invariant
            lo <= hi <= chars@.len(),
            hi - lo == word@.len(),
            0 <= i <= word@.len(),
            forall|j: int| 0 <= j < i ==> lower_code(chars@[lo + j]) == word@[j] as u32,
        decreases word@.len() - i,
    {
        if lower(chars[lo + i]) != word[i] as u32 {
            proof {
                assert(chars@.subrange(lo as int, hi as int)[i as int] == chars@[lo + i]);
            }
            return false;
        }
        i = i + 1;
    }
    proof {
        assert forall|j: int| 0 <= j < hi - lo implies lower_code(
            #[trigger] chars@.subrange(lo as int, hi as int)[j],
        ) == word@[j] as u32 by {
            assert(chars@.subrange(lo as int, hi as int)[j] == chars@[lo + j]);
        }
    }
    true
}

/// Reads an answer to a yes/no question: "y" or "yes" accept and "n" or "no" decline, in any
/// case and with any white space around them; anything else, the empty answer included, gives
/// `default`.
pub fn parse_confirmation(answer: &str, default: bool) -> (r: bool)
    ensures
        r == confirmation_spec(answer@, default),
{
    let chars = chars_of(answer);
    let (lo, hi) = trim_bounds(&chars);
    if matches_word(&chars, lo, hi, &vec!['y']) || matches_word(&chars, lo, hi, &vec!['y', 'e', 's']) {
        true
    } else if matches_word(&chars, lo, hi, &vec!['n']) || matches_word(&chars, lo, hi, &vec!['n', 'o']) {
        false
    } else {
        default
    }
}

/// The hint shown after the question: the default answer in upper case.
pub fn confirmation_hint(default: bool) -> (r: &'static str)
    ensures
        default ==> r@ == seq!['(', 'Y', '/', 'n', ')'],
        !default ==> r@ == seq!['y', '/', 'N'],
{
    proof {
        reveal_strlit("(Y/n)");
        reveal_strlit("y/N");
    }
    if default {
        "(Y/n)"
    } else {
        "y/N"
    }
}

} // verus!
