pub mod h2pack;
