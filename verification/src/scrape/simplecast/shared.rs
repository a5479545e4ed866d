//! Parts that the API's documents share.

use crate::web::Url;
use vstd::prelude::*;

verus! {

/// The site of a show.
#[derive(Debug)]
pub struct SimplecastSite {
    pub subdomain: String,
    pub external_website: Url,
}

/// The authors of a show.
#[derive(Debug)]
pub struct SimplecastAuthors {
    pub collection: Vec<SimplecastAuthor>,
}

/// One author.
#[derive(Debug)]
pub struct SimplecastAuthor {
    pub name: String,
}

/// A number of things.
#[derive(Clone, Copy, Debug)]
pub struct SimplecastCount {
    pub count: u32,
}

} // verus!
