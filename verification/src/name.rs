//! Which names may be handed to the subsystem.
//!
//! The subsystem takes names as NUL-terminated strings, so a name with a NUL
//! character inside it cannot be passed on. A group is further identified by
//! a non-empty name. Whether a name denotes a place in the hierarchy, or a
//! controller that the running kernel knows, is for the subsystem to say.

use vstd::prelude::*;

verus! {

/// The name holds no NUL character.
pub open spec fn nul_free(name: Seq<char>) -> bool {
    forall|i: int| 0 <= i < name.len() ==> name[i] != '\0'
}

/// A name that may identify a group: non-empty and free of NUL.
pub open spec fn valid_group_name(name: Seq<char>) -> bool {
    name.len() > 0 && nul_free(name)
}

/// A name that may identify a controller: free of NUL.
pub open spec fn valid_controller_name(name: Seq<char>) -> bool {
    nul_free(name)
}

/// Tells whether `name` holds no NUL character.
pub fn is_nul_free(name: &str) -> (free: bool)
    ensures
        free == nul_free(name@),
{
    let len: usize = name.unicode_len();
    let mut i: usize = 0;
    while i < len
        invariant
            len == name@.len(),
            i <= len,
            forall|j: int| 0 <= j < i ==> name@[j] != '\0',
        decreases len - i,
    {
        if name.get_char(i) == '\0' {
            return false;
        }
        i += 1;
    }
    true
}

/// Tells whether `name` may identify a group.
pub fn is_valid_group_name(name: &str) -> (valid: bool)
    ensures
        valid == valid_group_name(name@),
{
    name.unicode_len() > 0 && is_nul_free(name)
}

/// Tells whether `name` may identify a controller.
pub fn is_valid_controller_name(name: &str) -> (valid: bool)
    ensures
        valid == valid_controller_name(name@),
{
    is_nul_free(name)
}

} // verus!
