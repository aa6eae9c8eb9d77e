pub mod bits;
pub mod bristol;
pub mod common;
pub mod gigadoram;
pub mod instance;
pub mod plain;
pub mod shared;
pub mod tables;
pub mod transpose;
