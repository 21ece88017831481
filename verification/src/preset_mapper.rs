//! Remapping of the instrument presets (patches) that a MIDI file asks for.

use std::collections::HashMap;
use vstd::prelude::*;

verus! {

broadcast use vstd::std_specs::hash::group_hash_axioms;

/// Which patch to play in place of each patch the file asks for.
pub struct PresetMapper {
    pub map: HashMap<u8, u8>,
}

/// The value a mapping editor shows for `key`: the mapped patch, or -1 for "no mapping".
pub open spec fn map_value(m: Map<u8, u8>, key: u8) -> isize {
    if m.contains_key(key) {
        m[key] as isize
    } else {
        -1isize
    }
}

/// The mapping after the editor set `value` for `key`: a negative value removes
/// the mapping, any other is stored as a patch number (`as u8`).
pub open spec fn with_map_value(m: Map<u8, u8>, key: u8, value: isize) -> Map<u8, u8> {
    if value < 0 {
        m.remove(key)
    } else {
        m.insert(key, value as u8)
    }
}

/// Slider shenanigans: ´-1 == None´ and `0..=127 == Some(n)`
pub fn get_map_value(key: u8, mapper: &PresetMapper) -> (r: isize)
    ensures
        r == map_value(mapper.map@, key),
{
    match mapper.map.get(&key) {
        Some(value) => *value as isize,
        None => -1,
    }
}

pub fn set_map_value(key: u8, value: isize, mapper: &mut PresetMapper)
    ensures
        final(mapper).map@ == with_map_value(old(mapper).map@, key, value),
{
    if value < 0 {
        mapper.map.remove(&key);
        return;
    }
    mapper.map.insert(key, value as u8);
}

/// Reading back what the editor wrote gives the value written, for every value
/// the editor offers (`-1` for none, a patch number up to 255).
pub proof fn law_map_value_round_trip(m: Map<u8, u8>, key: u8, value: isize)
    requires
        -1 <= value <= 255,
    ensures
        map_value(with_map_value(m, key, value), key) == value,
{
}

/// Setting a value for one key leaves every other key's value as it was.
pub proof fn law_map_value_other_keys(m: Map<u8, u8>, key: u8, other: u8, value: isize)
    requires
        other != key,
    ensures
        map_value(with_map_value(m, key, value), other) == map_value(m, other),
{
}

} // verus!
