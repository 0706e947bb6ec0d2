//! Image-service resources: an image and the list the service returns.
use vstd::prelude::*;

verus! {

/// The images a list request returns.
#[derive(Debug, Clone)]
pub struct Images {
    pub images: Vec<Image>,
}

/// One image: identifier, name and current status.
#[derive(Debug, Clone)]
pub struct Image {
    pub id: String,
    pub name: String,
    pub status: String,
}

} // verus!
