pub mod header;
