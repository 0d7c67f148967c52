//! What is particular to each image provider: which models, sizes and
//! numbers of images it accepts, what it is sent, and how its progress is
//! followed.
pub mod dalle;
pub mod dalle_url;
pub mod dream;
pub mod labml;
pub mod mist;
pub mod mist_stability;
pub mod modal;
pub mod replicate;
pub mod stable_horde;
