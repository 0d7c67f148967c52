//! DALL-E answers that give each image by its link.
use vstd::prelude::*;

verus! {

/// DALL-E's answer, with its images by link.
#[derive(Debug)]
pub struct DalleGenerateImageResponse {
    pub created: u64,
    pub data: Vec<DalleData>,
}

/// An image given by its link.
#[derive(Debug)]
pub struct DalleData {
    pub url: String,
}

/// DALL-E's answer to a request for linked images.
#[derive(Debug)]
pub struct DalleResponse {
    pub created: u64,
    pub data: Vec<DalleData>,
}

} // verus!
