use crate::text::{chars_of, contains_chars, occurs_in};
use vstd::prelude::*;

verus! {

/// The text that the type of a wireless connection contains (`802-11-wireless`).
pub open spec fn wireless_marker() -> Seq<char> {
    seq!['w', 'i', 'r', 'e', 'l', 'e', 's', 's']
}

/// A connection type names a wireless connection when it contains `wireless`.
pub open spec fn is_wireless_type(type_: Seq<char>) -> bool {
    occurs_in(wireless_marker(), type_)
}

/// Whether the connection type `type_` is that of a wireless connection.
pub fn is_wireless(type_: &str) -> (b: bool)
    ensures
        b == is_wireless_type(type_@),
{
    let hay = chars_of(type_);
    let needle = vec!['w', 'i', 'r', 'e', 'l', 'e', 's', 's'];
    assert(needle@ =~= wireless_marker());
    contains_chars(&hay, &needle)
}

} // verus!
