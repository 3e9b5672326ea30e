use crate::text::chars_of;
use vstd::prelude::*;

verus! {

broadcast use vstd::string::group_string_axioms;

/// The system bus socket when `$DBUS_SYSTEM_BUS_ADDRESS` is not set.
pub open spec fn default_system_bus_path() -> Seq<char> {
    "/var/run/dbus/system_bus_socket"@
}

/// `$DBUS_SYSTEM_BUS_ADDRESS` holds no `=`.
#[derive(Debug)]
pub struct MalformedAddress;

/// The index of the first `=` in `s`, if any.
pub open spec fn first_equals(s: Seq<char>) -> Option<int> {
    if exists|i: int| 0 <= i < s.len() && s[i] == '=' {
        Some(choose|i: int| 0 <= i < s.len() && s[i] == '=' && forall|k: int| 0 <= k < i ==> s[k] != '=')
    } else {
        None
    }
}

/// The path of the system bus socket for the value of `$DBUS_SYSTEM_BUS_ADDRESS` (`None` when
/// the variable is not set or not Unicode): the text after its first `=`, or the default path.
pub fn system_bus_path(address: Option<&str>) -> (r: Result<String, MalformedAddress>)
    ensures
        match address {
            None => r matches Ok(p) && p@ == default_system_bus_path(),
            Some(a) => match first_equals(a@) {
                Some(i) => r matches Ok(p) && p@ == a@.subrange(i + 1, a@.len() as int),
                None => r is Err,
            },
        },
{
    match address {
        None => {
            let p = "/var/run/dbus/system_bus_socket".to_string();
            Ok(p)
        },
        Some(a) => {
            let chars = chars_of(a);
            let mut i: usize = 0;
            while i < chars.len()
                invariant
                    address == Some(a),
                    chars@ == a@,
                    i <= chars@.len(),
                    forall|k: int| 0 <= k < i ==> chars@[k] != '=',
                decreases chars@.len() - i,
            {
                if chars[i] == '=' {
                    let rest = a.substring_char(i + 1, chars.len());
                    proof {
                        assert(0 <= i < a@.len() && a@[i as int] == '=' && forall|k: int|
                            0 <= k < i ==> a@[k] != '=');
                        let j = choose|j: int|
                            0 <= j < a@.len() && a@[j] == '=' && forall|k: int|
                                0 <= k < j ==> a@[k] != '=';
                        assert(j == i) by {
                            if j < i {
                                assert(chars@[j] != '=');
                            } else if j > i {
                                assert(a@[i as int] != '=');
                            }
                        }
                    }
                    return Ok(rest.to_string());
                }
                i = i + 1;
            }
            Err(MalformedAddress)
        },
    }
}

} // verus!
