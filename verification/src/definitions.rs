//! The shapes of the host's records, held as plain values.

pub mod bones;
pub mod frame_stage;
pub mod recv_props;
pub mod weapon_data;
