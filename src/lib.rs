//! Presentation setup for a GPU-rendered window: surface negotiation, the
//! frame ring of presentable images, the render target and the pipeline
//! description, all stated over plain values and driver handles.

pub mod surface;
pub mod negotiate;
pub mod batch;
pub mod frame_ring;
pub mod render_target;
pub mod pipeline;
pub mod device;
pub mod laws;
