//! The surfaces of all windows, keyed by window.

use super::surface::{GraphInterfaceContext, SurfaceState};
use bevy::utils::HashMap;
use vstd::prelude::*;

verus! {

/// The surface of each window, in a hash map of `bevy::utils`. Verus does
/// not look inside: what it knows of the map is what the functions of this
/// file state of `surface_map_states`.
#[verifier::external_body]
pub struct SurfaceMap {
    inner: HashMap<u64, GraphInterfaceContext>,
}

/// The windows that a map holds a surface for, each with the state of its
/// surface.
pub uninterp spec fn surface_map_states(map: SurfaceMap) -> Map<u64, SurfaceState>;

/// `HashMap::default`: a map that holds no window.
#[verifier::external_body]
pub(crate) fn surface_map_new() -> (created: SurfaceMap)
    ensures
        surface_map_states(created).dom() == Set::<u64>::empty(),
{
    SurfaceMap { inner: HashMap::default() }
}

/// `HashMap::insert`: the map then holds the given surface for the window,
/// in place of any that it held for it before; the other windows keep
/// theirs.
#[verifier::external_body]
pub(crate) fn surface_map_insert(map: &mut SurfaceMap, window: u64, context: GraphInterfaceContext)
    ensures
        surface_map_states(*final(map)) == surface_map_states(*old(map)).insert(window, context@),
{
    map.inner.insert(window, context);
}

/// `HashMap::get`: the surface that the map holds for the window, if it
/// holds one.
#[verifier::external_body]
pub(crate) fn surface_map_get(map: &SurfaceMap, window: u64) -> (found: Option<
    GraphInterfaceContext,
>)
    ensures
        found is Some <==> surface_map_states(*map).contains_key(window),
        found matches Some(context) ==> context@ == surface_map_states(*map)[window],
{
    map.inner.get(&window).copied()
}

/// `HashMap::keys`: every window of the map once, in an order that the map
/// chooses.
#[verifier::external_body]
pub(crate) fn surface_map_windows(map: &SurfaceMap) -> (windows: Vec<u64>)
    ensures
        windows@.no_duplicates(),
        forall|window: u64|
            windows@.contains(window) <==> surface_map_states(*map).contains_key(window),
{
    map.inner.keys().copied().collect()
}

} // verus!
