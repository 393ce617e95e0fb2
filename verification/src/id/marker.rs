//! The kinds of thing an identifier can name.

use vstd::prelude::*;

verus! {

/// Keeps [`Entity`] closed: the kinds are the ones declared here.
pub trait Sealed {

}

/// A kind of thing that has identifiers.
pub trait Entity: Sealed {

}

#[derive(Debug, Clone, Copy)]
pub struct Guild;

#[derive(Debug, Clone, Copy)]
pub struct User;

#[derive(Debug, Clone, Copy)]
pub struct Application;

impl Sealed for Guild {

}

impl Sealed for User {

}

impl Sealed for Application {

}

impl Entity for Guild {

}

impl Entity for User {

}

impl Entity for Application {

}

} // verus!
