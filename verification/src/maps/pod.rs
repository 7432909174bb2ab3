//! Key and value types, and the one-time check of their sizes.

use vstd::prelude::*;
use vstd::layout::size_of;
use crate::maps::{MapData, MapError};
use crate::obj::MapDef;

verus! {

/// Marker for the types that can stand for a key or a value of a map: plain
/// data of a fixed size whose bytes are what the kernel expects.
pub trait Pod: Copy {

}

impl Pod for i8 {

}

impl Pod for u8 {

}

impl Pod for i16 {

}

impl Pod for u16 {

}

impl Pod for i32 {

}

impl Pod for u32 {

}

impl Pod for i64 {

}

impl Pod for u64 {

}

/// Whether a key type of `key` bytes and a value type of `value` bytes fit
/// the definition: the key size is checked first.
pub open spec fn spec_check_kv_size(key: nat, value: nat, def: MapDef) -> Result<(), MapError> {
    if key != def.key_size {
        Err(MapError::InvalidKeySize { size: key as usize, expected: def.key_size as usize })
    } else if value != def.value_size {
        Err(MapError::InvalidValueSize { size: value as usize, expected: def.value_size as usize })
    } else {
        Ok(())
    }
}

/// Checks that `K` and `V` have the sizes that the map was defined with.
pub fn check_kv_size<K: Pod, V: Pod>(map: &MapData) -> (r: Result<(), MapError>)
    ensures
        r == spec_check_kv_size(size_of::<K>(), size_of::<V>(), map.obj.def),
{
    let size: usize = core::mem::size_of::<K>();
    let expected: usize = map.obj.def.key_size as usize;
    if size != expected {
        return Err(MapError::InvalidKeySize { size, expected });
    }
    let size: usize = core::mem::size_of::<V>();
    let expected: usize = map.obj.def.value_size as usize;
    if size != expected {
        return Err(MapError::InvalidValueSize { size, expected });
    }
    Ok(())
}

} // verus!
