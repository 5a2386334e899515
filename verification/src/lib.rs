//! Planning and bookkeeping for grabbing one frame out of a video: where to
//! seek, what the decoded frame must look like, and in which order the media
//! backend is driven.

pub mod error;
pub mod frame;
pub mod percent;
pub mod pipeline;
pub mod position;
pub mod report;
pub mod request;
pub mod workflow;
