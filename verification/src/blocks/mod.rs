//! Dashboard blocks: pieces of system state (screen backlight, wifi) that
//! the server watches and serves under routes of their own.
use vstd::prelude::*;
use crate::http::RouteSpec;

pub mod backlight;
pub mod wifi;

verus! {

/// A dashboard block. `new` reads the initial state and starts watching it;
/// the state shared between the watcher and the request handlers is
/// `Managed`; `get_info` reads what the block shows out of it.
pub trait Block: Sized {
    type Managed;
    type OutputFormat;

    fn new() -> Result<Self, String>;

    fn get_managed(&self) -> Self::Managed;

    fn get_routes(&self) -> Vec<RouteSpec>;

    fn get_info(managed: &Self::Managed) -> Result<Self::OutputFormat, String>;
}

/// Whether the inotify event mask `mask` has the `MODIFY` bit.
pub open spec fn has_modify(mask: u32) -> bool {
    mask & 2 == 2
}

/// Calls `inotify::EventMask::contains(EventMask::MODIFY)` on the mask with
/// the bits `mask`. By the crates' sources, `contains` is `self & other ==
/// other` (bitflags) and `MODIFY` is `IN_MODIFY`, which is 2 (inotify-sys).
#[verifier::external_body]
fn mask_contains_modify(mask: u32) -> (b: bool)
    ensures
        b == has_modify(mask),
{
    inotify::EventMask::from_bits_retain(mask).contains(inotify::EventMask::MODIFY)
}

/// Whether a batch of inotify events (given by their masks) reports that the
/// watched file was modified, so that the watcher must read it again.
pub fn any_modified(masks: &[u32]) -> (b: bool)
    ensures
        b == exists|i: int| 0 <= i < masks@.len() && has_modify(#[trigger] masks@[i]),
{
    let mut i: usize = 0;
    while i < masks.len()
        invariant
            i <= masks@.len(),
            forall|k: int| 0 <= k < i ==> !has_modify(#[trigger] masks@[k]),
        decreases masks@.len() - i,
    {
        if mask_contains_modify(masks[i]) {
            return true;
        }
        i = i + 1;
    }
    false
}

} // verus!
