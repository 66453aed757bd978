pub mod authority;
pub mod entities;
pub mod instructions;
pub mod laws;
pub mod use_cases;
pub mod utils;
