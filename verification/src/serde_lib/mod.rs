//! Collections whose serialized form is canonical.
pub mod bcs_safe_btreeset;
