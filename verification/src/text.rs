//! Text filtering and normalization: deciding which characters count as
//! user text, and normalizing the line endings of pasted text.

use vstd::prelude::*;
use vstd::string::{StrSliceExecFns, StringExecFns};

verus! {

/// Whether a character counts as printable user text.  The windowing
/// system reports special keys (backspace, delete, function keys) as
/// control characters, and some platforms report command side effects as
/// characters in the private use areas; neither is user text.  `'\r'`,
/// `'\n'` and `'\t'` are also excluded: newlines are carried by the enter
/// key event instead.
pub open spec fn spec_is_printable_char(chr: char) -> bool {
    let n = chr as u32;
    let is_in_private_use_area = (0xe000 <= n && n <= 0xf8ff) || (0xf0000 <= n && n <= 0xffffd)
        || (0x100000 <= n && n <= 0x10fffd);
    let is_ascii_control = n < 0x20 || n == 0x7f;
    !is_in_private_use_area && !is_ascii_control
}

/// Decides whether a character is printable user text rather than a
/// control character or a private-use signaling character.
pub fn is_printable_char(chr: char) -> (r: bool)
    ensures
        r == spec_is_printable_char(chr),
{
    let n = chr as u32;
    let is_in_private_use_area = (0xe000 <= n && n <= 0xf8ff) || (0xf0000 <= n && n <= 0xffffd)
        || (0x100000 <= n && n <= 0x10fffd);
    let is_ascii_control = n < 0x20 || n == 0x7f;
    !is_in_private_use_area && !is_ascii_control
}

/// Relies on char's `ToString`: the string holding exactly the one
/// character.
#[verifier::external_body]
pub(crate) fn char_to_string(ch: char) -> (r: String)
    ensures
        r@ == seq![ch],
{
    ch.to_string()
}

/// The character sequence with every carriage-return/line-feed pair
/// collapsed to a single line feed; lone carriage returns are kept.
pub open spec fn spec_normalize_newlines(s: Seq<char>) -> Seq<char>
    decreases s.len(),
{
    if s.len() == 0 {
        Seq::empty()
    } else if s.len() >= 2 && s[0] == '\r' && s[1] == '\n' {
        seq!['\n'] + spec_normalize_newlines(s.skip(2))
    } else {
        seq![s[0]] + spec_normalize_newlines(s.skip(1))
    }
}

/// Collapses carriage-return/line-feed pairs in pasted text to single
/// line feeds.
pub fn normalize_newlines(s: &str) -> (r: String)
    ensures
        r@ == spec_normalize_newlines(s@),
{
    let len = s.unicode_len();
    let mut out = String::new();
    let mut i: usize = 0;
    proof {
        assert(s@.skip(0) =~= s@);
        assert(out@ + spec_normalize_newlines(s@) =~= spec_normalize_newlines(s@));
    }
    while i < len
        invariant
            len == s@.len(),
            i <= len,
            out@ + spec_normalize_newlines(s@.skip(i as int)) == spec_normalize_newlines(s@),
        decreases len - i,
    {
        let c = s.get_char(i);
        if c == '\r' && i + 1 < len && s.get_char(i + 1) == '\n' {
            proof {
                reveal_strlit("\n");
                assert(s@.skip(i as int).skip(2) =~= s@.skip(i + 2));
                assert(out@ + (seq!['\n'] + spec_normalize_newlines(s@.skip(i + 2))) =~= (out@
                    + seq!['\n']) + spec_normalize_newlines(s@.skip(i + 2)));
            }
            out.append("\n");
            i = i + 2;
        } else {
            let piece = s.substring_char(i, i + 1);
            proof {
                assert(piece@ =~= seq![s@[i as int]]);
                assert(s@.skip(i as int).skip(1) =~= s@.skip(i + 1));
                assert(out@ + (seq![s@[i as int]] + spec_normalize_newlines(s@.skip(i + 1)))
                    =~= (out@ + seq![s@[i as int]]) + spec_normalize_newlines(s@.skip(i + 1)));
            }
            out.append(piece);
            i = i + 1;
        }
    }
    proof {
        assert(s@.skip(len as int) =~= Seq::<char>::empty());
        assert(out@ =~= out@ + spec_normalize_newlines(s@.skip(len as int)));
    }
    out
}

} // verus!
