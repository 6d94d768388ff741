//! The services of the host, each with the values it hands out.

pub mod client;
pub mod client_mode;
pub mod engine_trace;
pub mod entity_list;
pub mod game_events;
pub mod glow;
pub mod material;
pub mod model_render;
pub mod surface;
pub mod view_render_beams;
