pub mod decode;
pub mod entrypoint;
pub mod err;
pub mod raw;
pub mod table;
pub mod text;
