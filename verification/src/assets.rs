//! Placeholders for the asset pipeline's bookkeeping.
use vstd::prelude::*;

verus! {

/// A named animation of an asset, still to be wired up.
#[derive(Clone)]
pub struct Animation {}

impl Animation {
    /// A fresh animation handle; the asset and animation names are
    /// not recorded yet.
    #[allow(unused_variables)]
    pub fn new(asset: &str, name: &str) -> Self {
        Self {  }
    }
}

/// A scene of an asset, still to be wired up.
pub struct Scene {}

} // verus!
