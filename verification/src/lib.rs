pub mod errors;
pub mod image;
pub mod locate;
pub mod manifest;
pub mod netkey;
pub mod pattern;
