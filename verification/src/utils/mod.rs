pub mod hasher;
pub mod net;
pub mod time;
