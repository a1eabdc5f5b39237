pub mod common;
pub mod first_declension;
