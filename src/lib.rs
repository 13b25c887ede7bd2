pub mod device;
pub mod frame;
pub mod instance;
pub mod resources;
pub mod swapchain;
pub mod vertex;

pub use device::QueueCollection;
pub use vertex::indices;
