//! Listing the cameras that are connected.

use vstd::prelude::*;
use crate::booth::MyPhotobooth;
use crate::camera::CameraDescriptor;
use crate::protocol::{Answer, Command, Event, Next, Step, StepText, texts, unless_failed};

verus! {

/// How far a request to list the cameras is.
#[derive(Debug, Clone, Copy, PartialEq, Eq)]
pub enum ListCamera {
    Begin,
    Listing,
}

/// The models of a list of cameras, in its order.
pub open spec fn models(cameras: Seq<CameraDescriptor>) -> Seq<Seq<char>> {
    cameras.map_values(|camera: CameraDescriptor| camera.model@)
}

/// One step of a request to list the cameras.
pub open spec fn list_camera_next<C>(request: ListCamera, event: Event<C>) -> StepText<
    ListCamera,
    C,
> {
    let ask: StepText<ListCamera, C> = Next::Ask(ListCamera::Listing, Command::ListCameras);
    match request {
        ListCamera::Begin => ask,
        ListCamera::Listing => match event {
            Event::Listed(cameras) => Next::Reply(Ok(Answer::Cameras(models(cameras@)))),
            _ => unless_failed(event, ask),
        },
    }
}

impl<X, C> MyPhotobooth<X, C> {
    /// Advances a request to list the cameras by one step. An outcome that is no list
    /// asks for the list again.
    pub fn list_camera(&self, request: ListCamera, event: Event<C>) -> (next: Step<
        ListCamera,
        C,
    >)
        ensures
            next@ == list_camera_next(request, event),
    {
        let ask: Step<ListCamera, C> = Next::Ask(ListCamera::Listing, Command::ListCameras);
        match request {
            ListCamera::Begin => ask,
            ListCamera::Listing => match event {
                Event::Listed(cameras) => {
                    let list = collect_models(&cameras);
                    Next::Reply(Ok(Answer::Cameras(list)))
                },
                _ => ask.unless_failed(event),
            },
        }
    }
}

/// The models of a list of cameras, in its order.
pub fn collect_models(cameras: &Vec<CameraDescriptor>) -> (list: Vec<String>)
    ensures
        texts(list@) == models(cameras@),
{
    let mut list: Vec<String> = Vec::new();
    let mut i: usize = 0;
    while i < cameras.len()
        invariant
            i <= cameras@.len(),
            texts(list@) == models(cameras@.take(i as int)),
        decreases cameras@.len() - i,
    {
        let ghost before = list@;
        let model = cameras[i].model.clone();
        list.push(model);
        proof {
            assert(cameras@.take(i + 1) == cameras@.take(i as int).push(cameras@[i as int]));
            assert(texts(list@) == texts(before).push(model@));
            assert(models(cameras@.take(i + 1)) == models(cameras@.take(i as int)).push(model@));
        }
        i += 1;
    }
    assert(cameras@.take(cameras@.len() as int) == cameras@);
    list
}

/// The models of a list of cameras are as many as the cameras, and each stands where
/// its camera stands.
pub proof fn law_models(cameras: Seq<CameraDescriptor>)
    ensures
        models(cameras).len() == cameras.len(),
        forall|i: int|
            0 <= i < cameras.len() ==> #[trigger] models(cameras)[i] == cameras[i].model@,
{
}

} // verus!
