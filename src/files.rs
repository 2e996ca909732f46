use vstd::prelude::*;

use crate::codec::{decode_bytes, decode_spec};
use crate::text::{chars_of, string_of};

verus! {

/// The character appended to the name of a file whose bytes are shifted.
pub const MARKER: char = 'b';

/// The metadata file that the distribution mechanism leaves at the root of a download.
pub const METADATA_FILE: &'static str = "WorkshopItemInfo.xml";

/// The name has an extension: a dot somewhere after its first character.
pub open spec fn has_extension(name: Seq<char>) -> bool {
    exists|i: int| 0 < i < name.len() && name[i] == '.'
}

/// The name marks an encoded file: it has an extension, and that extension ends in the marker.
pub open spec fn is_encoded_name_spec(name: Seq<char>) -> bool {
    &&& name.len() > 0
    &&& name.last() == MARKER
    &&& has_extension(name)
}

/// What is done with one file of the copied tree.
pub struct DecodePlan {
    /// The name of the file that receives the decoded bytes, beside the encoded one.
    pub output_name: String,
    /// The decoded bytes.
    pub contents: Vec<u8>,
    /// Whether the encoded file is deleted afterwards.
    pub remove_original: bool,
}

/// Tells whether a file name marks an encoded file.
pub fn is_encoded_name(name: &str) -> (r: bool)
    ensures
        r == is_encoded_name_spec(name@),
{
    let chars = chars_of(name);
    let n = chars.len();
    if n == 0 || chars[n - 1] != MARKER {
        return false;
    }
    let mut i: usize = 1;
    while i < n
        invariant
            1 <= i <= n == chars@.len(),
            chars@ == name@,
            chars@[n - 1] == MARKER,
            forall|j: int| 0 < j < i ==> chars@[j] != '.',
        decreases n - i,
    {
        if chars[i] == '.' {
            proof {
                assert(name@[i as int] == '.');
            }
            return true;
        }
        i = i + 1;
    }
    false
}

/// The name of the decoded file: the encoded name without its marker. No name for a file that
/// is not encoded.
pub fn decoded_name(name: &str) -> (r: Option<String>)
    ensures
        r is Some <==> is_encoded_name_spec(name@),
        r is Some ==> r->0@ == name@.drop_last(),
{
    if !is_encoded_name(name) {
        return None;
    }
    let chars = chars_of(name);
    let out = string_of(&chars, 0, chars.len() - 1);
    proof {
        assert(chars@.subrange(0, chars@.len() - 1) == name@.drop_last());
    }
    Some(out)
}

/// Decides what becomes of one regular file of the copied tree, from its name and its bytes.
/// An encoded file is decoded into a sibling without the marker, and deleted unless
/// `preserve_encoded` is set; any other file is left alone.
pub fn plan_decode(name: &str, stored: &[u8], preserve_encoded: bool) -> (r: Option<DecodePlan>)
    ensures
        r is Some <==> is_encoded_name_spec(name@),
        r is Some ==> {
            &&& r->0.output_name@ == name@.drop_last()
            &&& r->0.contents@ == decode_spec(stored@)
            &&& r->0.remove_original == !preserve_encoded
        },
{
    match decoded_name(name) {
        None => None,
        Some(output_name) => {
            let contents = decode_bytes(stored);
            Some(DecodePlan { output_name, contents, remove_original: !preserve_encoded })
        },
    }
}

} // verus!
