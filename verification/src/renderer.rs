//! How geometry is rasterised.

use vstd::prelude::*;

verus! {

/// Whether geometry is drawn as outlines or filled.
#[derive(Debug, Clone, Copy, PartialEq, Eq, Structural)]
pub enum RenderMode {
    WIREFRAME,
    DEFAULT,
}

} // verus!
