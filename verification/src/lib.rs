//! Screen-recorder pipeline logic: the decisions that drive the capture,
//! recording and audio branches, the placement of captured streams side by
//! side, and the small environment rules the application applies.

pub mod utils;
pub mod layout;
pub mod pipeline;
