pub use vstd::view::DeepView;

pub mod api;
pub mod convert;
pub mod error;
pub mod extract;
pub mod retry;
pub mod value;
