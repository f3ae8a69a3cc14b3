//! The decisions of the HTTP interface: runtime settings and their
//! validation, the refusal of requests before setup is complete, and the
//! tenant listing and quota checks of the control plane. The transport
//! itself is not part of the library.

pub mod control_plane_routes;
pub mod settings_routes;
pub mod setup_guard;
