//! The input debouncer's mapping table: from a raw key identifier, as the
//! input source reports it, to the engine message it stands for. Arrow-key
//! names and the WASD letters map to the four directions, `r` and the space
//! bar request a restart, and every other key is ignored.

use vstd::prelude::*;

use crate::state::Msg;
use vstd::string::StrSliceExecFns;

verus! {

/// The declarative key table: which message a raw key identifier maps to.
pub open spec fn msg_for_key_spec(key: Seq<char>) -> Msg {
    if key == "ArrowLeft"@ || key == "Left"@ || key == "a"@ {
        Msg::Left
    } else if key == "ArrowRight"@ || key == "Right"@ || key == "d"@ {
        Msg::Right
    } else if key == "ArrowUp"@ || key == "Up"@ || key == "w"@ {
        Msg::Up
    } else if key == "ArrowDown"@ || key == "Down"@ || key == "s"@ {
        Msg::Down
    } else if key == "r"@ || key == " "@ {
        Msg::Restart
    } else {
        Msg::Ignore
    }
}

/// Character-wise equality of two string slices.
fn str_eq(a: &str, b: &str) -> (r: bool)
    ensures
        r == (a@ == b@),
{
    let n = a.unicode_len();
    if n != b.unicode_len() {
        proof {
            assert(a@ != b@);
        }
        return false;
    }
    let mut i: usize = 0;
    while i < n
        invariant
            0 <= i <= n,
            n == a@.len(),
            n == b@.len(),
            forall|j: int| 0 <= j < i ==> a@[j] == b@[j],
        decreases n - i,
    {
        if a.get_char(i) != b.get_char(i) {
            proof {
                assert(a@ != b@);
            }
            return false;
        }
        i += 1;
    }
    proof {
        assert(a@ =~= b@);
    }
    true
}

/// Maps a raw key identifier to the message it stands for, per the key
/// table.
pub fn msg_for_key(key: &str) -> (m: Msg)
    ensures
        m == msg_for_key_spec(key@),
{
    if str_eq(key, "ArrowLeft") || str_eq(key, "Left") || str_eq(key, "a") {
        Msg::Left
    } else if str_eq(key, "ArrowRight") || str_eq(key, "Right") || str_eq(key, "d") {
        Msg::Right
    } else if str_eq(key, "ArrowUp") || str_eq(key, "Up") || str_eq(key, "w") {
        Msg::Up
    } else if str_eq(key, "ArrowDown") || str_eq(key, "Down") || str_eq(key, "s") {
        Msg::Down
    } else if str_eq(key, "r") || str_eq(key, " ") {
        Msg::Restart
    } else {
        Msg::Ignore
    }
}

} // verus!
