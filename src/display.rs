use vstd::prelude::*;

use crate::text::{chars_of, string_of};

verus! {

/// `line` is the first line of `text`: the text up to its first line break, or all of it.
pub open spec fn is_first_line(text: Seq<char>, line: Seq<char>) -> bool {
    &&& line.len() <= text.len()
    &&& line == text.take(line.len() as int)
    &&& !line.contains('\n')
    &&& (line.len() == text.len() || text[line.len() as int] == '\n')
}

/// The prefix that marks an extended-length path on Windows: `\\?\`.
pub open spec fn verbatim_prefix() -> Seq<char> {
    seq!['\\', '\\', '?', '\\']
}

/// The path as shown to a user: without the verbatim prefix, when it has one.
pub open spec fn display_path_spec(path: Seq<char>) -> Seq<char> {
    if path.len() >= 4 && path.take(4) == verbatim_prefix() {
        path.skip(4)
    } else {
        path
    }
}

/// The first line of a description, the whole of it when it has no line break.
pub fn first_line(text: &str) -> (r: String)
    ensures
        is_first_line(text@, r@),
{
    let chars = chars_of(text);
    let mut i: usize = 0;
    while i < chars.len() && chars[i] != '\n'
        invariant
            0 <= i <= chars@.len(),
            chars@ == text@,
            forall|j: int| 0 <= j < i ==> chars@[j] != '\n',
        decreases chars@.len() - i,
    {
        i = i + 1;
    }
    let line = string_of(&chars, 0, i);
    proof {
        assert(line@ == text@.take(i as int));
        if line@.contains('\n') {
            let j = choose|j: int| 0 <= j < line@.len() && line@[j] == '\n';
            assert(chars@[j] == '\n');
        }
    }
    line
}

/// A path made fit to show: an extended-length prefix `\\?\` is taken off.
pub fn display_path(path: &str) -> (r: String)
    ensures
        r@ == display_path_spec(path@),
{
    let chars = chars_of(path);
    let n = chars.len();
    if n >= 4 && chars[0] == '\\' && chars[1] == '\\' && chars[2] == '?' && chars[3] == '\\' {
        proof {
            assert(path@.take(4) == verbatim_prefix());
        }
        let r = string_of(&chars, 4, n);
        proof {
            assert(chars@.subrange(4, n as int) == path@.skip(4));
        }
        r
    } else {
        proof {
            if n >= 4 && path@.take(4) == verbatim_prefix() {
                assert(path@.take(4)[0] == chars@[0]);
                assert(path@.take(4)[1] == chars@[1]);
                assert(path@.take(4)[2] == chars@[2]);
                assert(path@.take(4)[3] == chars@[3]);
            }
        }
        let r = string_of(&chars, 0, n);
        proof {
            assert(chars@.subrange(0, n as int) == path@);
        }
        r
    }
}

} // verus!
