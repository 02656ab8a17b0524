pub mod dex;
pub mod errors;
pub mod smali;
pub mod text;
pub mod traits;
pub mod utils;
