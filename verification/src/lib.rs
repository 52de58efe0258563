pub mod document;
pub mod interp;
pub mod packet;
pub mod registry;
