//! Source assets embedded by the example and handed, as exact bytes, to the
//! renderer's embedded-asset interface.
use vstd::prelude::*;

verus! {

/// One embedded source asset: its display name and its file bytes.
pub struct DemoAsset {
    pub name: &'static str,
    pub bytes: &'static [u8],
}

} // verus!
