//! What holds across the library: statements that relate several of its functions, or say of a call
//! what comes back in terms of what went in, proved from the functions' contracts and over the
//! models that these speak of.

pub mod announcing;
pub mod dismissing;
pub mod evaluation;
pub mod filtering;
pub mod flows;
pub mod history;
pub mod loading;
pub mod memory;
pub mod running;
pub mod sessions;
pub mod settings;
pub mod verifying;
pub mod wording;
