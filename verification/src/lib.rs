//! The decision and data-shaping core of wado's headless streaming compositor.

pub mod bitrate;
pub mod capture;
pub mod clock;
pub mod colour;
pub mod conf;
pub mod control;
pub mod dmabuf_layout;
pub mod congestion;
pub mod content_type;
pub mod encoder_params;
pub mod error;
pub mod fit;
pub mod fullscreen;
pub mod gamepad;
pub mod geometry;
pub mod glow;
pub mod launch;
pub mod packets;
pub mod pacing;
pub mod placement;
pub mod proc;
pub mod render_node;
pub mod select;
pub mod session;
pub mod session_env;
pub mod sink;
pub mod stall_watchdog;
pub mod text;
pub mod text_input;
pub mod viewer;
pub mod virtual_input;
pub mod xwayland;
