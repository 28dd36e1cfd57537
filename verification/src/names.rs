//! Names of layers and extensions.
//!
//! The driver reports a name as a fixed-size buffer of C `char`s that holds
//! the name and a terminating NUL.  [`read_cstr`] takes the name out of such
//! a buffer; from there on names are strings and are compared as strings.
use vstd::prelude::*;
use crate::vk::{bytes_of_chars, chars_as_bytes};

verus! {

/// The name of the validation layer.
pub open spec fn spec_validation_layer() -> Seq<char> {
    "VK_LAYER_KHRONOS_validation"@
}

/// The name of the validation layer.
pub fn validation_layer() -> (r: String)
    ensures
        r@ == spec_validation_layer(),
{
    "VK_LAYER_KHRONOS_validation".to_owned()
}

/// The names in a list, as sequences of characters.
pub open spec fn spec_names(list: Seq<String>) -> Seq<Seq<char>> {
    list.map_values(|s: String| s@)
}

/// Whether `wanted` is one of the names in `list`.
pub fn contains_name(list: &Vec<String>, wanted: &String) -> (b: bool)
    ensures
        b == spec_names(list@).contains(wanted@),
{
    let mut i: usize = 0;
    while i < list.len()
        invariant
            i <= list@.len(),
            forall|k: int| 0 <= k < i ==> spec_names(list@)[k] != wanted@,
        decreases list@.len() - i,
    {
        if list[i] == *wanted {
            assert(spec_names(list@)[i as int] == wanted@);
            return true;
        }
        i = i + 1;
    }
    false
}

/// Whether every name of `wanted` is one of the names in `list`.
pub fn contains_all_names(list: &Vec<String>, wanted: &Vec<String>) -> (b: bool)
    ensures
        b == (forall|k: int|
            0 <= k < wanted@.len() ==> spec_names(list@).contains(#[trigger] spec_names(wanted@)[k])),
{
    let mut i: usize = 0;
    while i < wanted.len()
        invariant
            i <= wanted@.len(),
            forall|k: int|
                0 <= k < i ==> spec_names(list@).contains(#[trigger] spec_names(wanted@)[k]),
        decreases wanted@.len() - i,
    {
        if !contains_name(list, &wanted[i]) {
            assert(!spec_names(list@).contains(spec_names(wanted@)[i as int]));
            return false;
        }
        i = i + 1;
    }
    true
}

/// `i` is the position of the first NUL in `bytes`.
pub open spec fn spec_is_first_nul(bytes: Seq<u8>, i: int) -> bool {
    &&& 0 <= i < bytes.len()
    &&& bytes[i] == 0
    &&& forall|k: int| 0 <= k < i ==> bytes[k] != 0
}

/// Reads the C string at the start of `buf`: the bytes before the first NUL.
///
/// A buffer without a NUL holds no C string and yields `None`.
pub fn read_cstr(buf: &[i8]) -> (r: Option<Vec<u8>>)
    ensures
        match r {
            Some(name) => exists|end: int|
                #[trigger] spec_is_first_nul(bytes_of_chars(buf@), end) && name@ == bytes_of_chars(
                    buf@,
                ).take(end),
            None => forall|i: int| 0 <= i < buf@.len() ==> buf@[i] != 0,
        },
{
    let bytes = chars_as_bytes(buf);
    let mut name: Vec<u8> = Vec::new();
    let mut i: usize = 0;
    while i < bytes.len()
        invariant
            bytes@ == bytes_of_chars(buf@),
            i <= bytes@.len(),
            name@ == bytes@.take(i as int),
            forall|k: int| 0 <= k < i ==> bytes@[k] != 0,
        decreases bytes@.len() - i,
    {
        if bytes[i] == 0 {
            assert(spec_is_first_nul(bytes@, i as int));
            return Some(name);
        }
        name.push(bytes[i]);
        assert(name@ =~= bytes@.take(i + 1));
        i = i + 1;
    }
    assert forall|k: int| 0 <= k < buf@.len() implies buf@[k] != 0 by {
        assert(bytes@[k] != 0);
    }
    None
}

} // verus!
