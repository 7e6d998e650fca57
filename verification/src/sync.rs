//! The per-frame GPU synchronization step: marshal the scene and the current
//! frame time into the GPU-visible word buffer.

use vstd::prelude::*;

use crate::layout::encode_scene;
use crate::layout::scene_words;
use crate::scene::SceneDescriptor;
use crate::settings::GlobalRenderSettings;

verus! {

/// The GPU-visible mirror of the scene. The engine owns the real handle;
/// this is the exact word image it uploads for the frame's draw call.
pub struct GpuBuffer {
    pub words: Vec<u32>,
}

/// Synchronizes the buffer with the scene: after the call the buffer is a
/// bit-exact mirror of the scene's uniform-buffer layout.
///
/// The buffer handle may be absent while the engine is still creating the
/// resource; that frame's synchronization is then a no-op, never a failure.
pub fn sync_frame(scene: &SceneDescriptor, slot: &mut Option<GpuBuffer>)
    ensures
        *old(slot) is None ==> *final(slot) is None,
        *old(slot) is Some ==> (*final(slot) matches Some(b) && b.words@ == scene_words(*scene)),
{
    match slot {
        Some(buffer) => {
            buffer.words = encode_scene(scene);
        },
        None => {},
    }
}

/// One core tick: refresh the elapsed time in the scene, then synchronize
/// the GPU buffer, so the very next draw call sees the current description.
pub fn tick(scene: &mut SceneDescriptor, time_bits: u32, slot: &mut Option<GpuBuffer>)
    ensures
        *final(scene) == (SceneDescriptor {
            settings: GlobalRenderSettings { time: time_bits, ..old(scene).settings },
            ..*old(scene)
        }),
        *old(slot) is None ==> *final(slot) is None,
        *old(slot) is Some ==> (*final(slot) matches Some(b) && b.words@ == scene_words(
            *final(scene),
        )),
{
    scene.set_time(time_bits);
    sync_frame(scene, slot);
}

} // verus!
