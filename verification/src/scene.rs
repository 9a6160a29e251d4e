use vstd::prelude::*;

verus! {

/// Per-widget state of the rotating cube shader; it keeps nothing.
#[derive(Debug, Default)]
pub struct CubeState {}

/// Per-widget state of the skybox shader; it keeps nothing.
#[derive(Debug, Default)]
pub struct SkyboxState {}

} // verus!
