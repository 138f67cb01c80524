pub mod nest1;
pub mod reader;
pub mod strings;
pub mod structs;
pub mod generics;
pub mod enums;
