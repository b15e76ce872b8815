pub mod array_fill_keys_mixed;
pub mod array_key_exists_mixed;
pub mod array_merge_str;
pub mod array_slice_str;
pub mod array_strict_eq;
pub mod array_to_assoc;
