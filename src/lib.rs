//! Position tracking of a visual marker: a robust centroid estimator over
//! feature correspondences, the frame pipeline that leads to it, the
//! register-write framing that carries the position to a control device,
//! the position channel between the two, the decisions of the services that
//! run them, their configuration, and value filters.

pub mod protocol;
pub mod estimator;
pub mod writer;
pub mod tracker;
pub mod channel;
pub mod filter;
pub mod text;
pub mod conf;
pub mod modbus_conf;
pub mod camera_conf;
pub mod pipeline;
