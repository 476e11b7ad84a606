//! The function tag of a loader layer create-info structure.
use vstd::prelude::*;

verus! {

/// What the loader hands a layer in a create-info structure of the layer
/// chain: the link to the next layer, or the loader's data callback.
#[derive(Debug, PartialEq, Eq, Structural)]
pub enum LayerFunction {
    LayerLinkInfo,
    LoaderDataCallback,
}

impl LayerFunction {
    /// The number by which the loader's headers name this tag.
    pub fn as_raw(&self) -> (r: u32)
        ensures
            r == (match self {
                LayerFunction::LayerLinkInfo => 0u32,
                LayerFunction::LoaderDataCallback => 1u32,
            }),
    {
        match self {
            LayerFunction::LayerLinkInfo => 0,
            LayerFunction::LoaderDataCallback => 1,
        }
    }
}

} // verus!
