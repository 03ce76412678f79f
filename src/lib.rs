pub mod address;
pub mod descriptor;
pub mod error;
pub mod flow;
pub mod invoice;
pub mod text;
