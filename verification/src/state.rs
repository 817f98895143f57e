//! The viewer's two lifecycle states and the transitions between them.
//!
//! The engine drives the states: it calls a state when it starts and once
//! per frame afterwards, and carries out whatever the state hands back.
//! The decisions — which assets to request on start, and when to move from
//! loading to running — are made here, over plain values; performing the
//! requests and reporting their progress is the engine's side of the
//! exchange. The scene handle that the asset system returns is carried
//! through unread, so the states are generic over its type.

use vstd::prelude::*;

verus! {

/// How far the requested assets have come, as the asset system reports it
/// each frame.
pub enum Completion {
    /// Some requests are still outstanding.
    Loading,
    /// At least one request failed.
    Failed,
    /// Every request finished successfully.
    Complete,
}

/// A request that a starting state hands to the engine. The strings are
/// paths that the engine's asset system resolves.
pub enum StartRequest {
    /// Build a UI overlay from the layout file at this path.
    CreateUi(String),
    /// Load the scene description at this path; the asset system answers
    /// with a handle to the loaded scene.
    LoadScene(String),
    /// Instantiate the loaded scene as entities of the world.
    CreateSceneEntity,
    /// Look up the UI element of this name and delete it; report an error
    /// if it is missing.
    DeleteUi(String),
}

/// The transition a state hands back to the engine after an update.
pub enum Trans<S> {
    /// Keep the current state.
    Stay,
    /// Shut the viewer down.
    Quit,
    /// Replace the loading state by the running state.
    Switch(Example<S>),
}

/// The first state: its start requests the loading overlay, the overlay
/// that will show the field of view, and the scene itself; it then waits
/// for the asset system.
pub struct Loading<S> {
    /// The handle the asset system returned for the scene, once it has.
    pub scene: Option<S>,
}

/// The running state: the scene is loaded and the camera can be flown.
pub struct Example<S> {
    /// The handle of the loaded scene.
    pub scene: S,
}

impl<S> Loading<S> {
    /// A fresh loading state: nothing requested yet, no handle held.
    pub fn new() -> (r: Self)
        ensures
            r.scene is None,
    {
        Loading { scene: None }
    }

    /// The requests issued when the loading state starts: the two UI
    /// overlays, then the scene itself.
    pub fn on_start(&self) -> (r: Vec<StartRequest>)
        ensures
            r@.len() == 3,
            r@[0] matches StartRequest::CreateUi(p) && p@ == "ui/loading.ron"@,
            r@[1] matches StartRequest::CreateUi(p) && p@ == "ui/fov.ron"@,
            r@[2] matches StartRequest::LoadScene(p) && p@ == "../my_scene.ron"@,
    {
        let mut r: Vec<StartRequest> = Vec::new();
        r.push(StartRequest::CreateUi("ui/loading.ron".to_owned()));
        r.push(StartRequest::CreateUi("ui/fov.ron".to_owned()));
        r.push(StartRequest::LoadScene("../my_scene.ron".to_owned()));
        r
    }

    /// Record the handle that the asset system returned for the scene.
    pub fn scene_loaded(&mut self, handle: S)
        ensures
            final(self).scene == Some(handle),
    {
        self.scene = Some(handle);
    }

    /// The per-frame decision: keep waiting while requests are
    /// outstanding, quit if any failed, and hand the scene over to the
    /// running state once everything finished. The asset system reports
    /// completion only after the scene request was answered, so a
    /// complete report finds the handle in place.
    pub fn update(&mut self, completion: Completion) -> (t: Trans<S>)
        requires
            completion is Complete ==> old(self).scene is Some,
        ensures
            completion is Loading ==> t is Stay && final(self).scene == old(self).scene,
            completion is Failed ==> t is Quit && final(self).scene == old(self).scene,
            completion is Complete ==> (t matches Trans::Switch(e)
                && old(self).scene == Some(e.scene)
                && final(self).scene is None),
    {
        match completion {
            Completion::Loading => Trans::Stay,
            Completion::Failed => Trans::Quit,
            Completion::Complete => {
                let handle = self.scene.take();
                match handle {
                    Some(h) => Trans::Switch(Example { scene: h }),
                    None => Trans::Quit,
                }
            }
        }
    }
}

impl<S> Example<S> {
    /// The requests issued when the running state starts: put the loaded
    /// scene into the world, then take the loading overlay down.
    pub fn on_start(&self) -> (r: Vec<StartRequest>)
        ensures
            r@.len() == 2,
            r@[0] is CreateSceneEntity,
            r@[1] matches StartRequest::DeleteUi(n) && n@ == "loading"@,
    {
        let mut r: Vec<StartRequest> = Vec::new();
        r.push(StartRequest::CreateSceneEntity);
        r.push(StartRequest::DeleteUi("loading".to_owned()));
        r
    }
}

} // verus!
