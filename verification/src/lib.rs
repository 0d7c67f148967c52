//! Media generation service logic: request validation, prompt
//! normalisation, ink accounting, provider requests and polling, and the
//! decisions of the media lifecycle (admission, completion, deletion),
//! each stated over plain values and proved.
pub mod admission;
pub mod apis;
pub mod b2;
pub mod codec;
pub mod completion;
pub mod deletion;
pub mod dto;
pub mod enums;
pub mod error;
pub mod ink;
pub mod ink_uniform;
pub mod media;
pub mod poll;
pub mod text;
pub mod uploads;
