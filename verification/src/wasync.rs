pub mod executor;
pub mod waker;

pub use executor::Executor;
pub use executor::Step;
pub use waker::waker;
pub use waker::waker_ref;
pub use waker::waker_vtable;
pub use waker::Waker;
pub use waker::WakerRef;
