//! The booth: the state that requests share.

use vstd::prelude::*;
use crate::camera::{WrappedCamera, WrappedContext};

verus! {

/// The state of the booth.
pub struct MyPhotobooth<X, C> {
    context: WrappedContext<X>,
    camera: WrappedCamera<C>,
    shared_preview: Vec<u8>,
    shared_image: Vec<u8>,
    previewing: bool,
}

/// The state of the booth as contracts see it.
#[verifier::ext_equal]
pub struct BoothState<X, C> {
    /// The context through which cameras are found.
    pub context: X,
    /// The camera in use.
    pub camera: Option<C>,
    /// The last preview frame; empty while there is none.
    pub preview: Seq<u8>,
    /// The last captured image; empty while there is none.
    pub image: Seq<u8>,
    /// Whether a preview was started and has not ended.
    pub previewing: bool,
}

impl<X, C> BoothState<X, C> {
    pub open spec fn with_camera(self, camera: Option<C>) -> Self {
        BoothState { camera, ..self }
    }

    pub open spec fn with_preview(self, preview: Seq<u8>) -> Self {
        BoothState { preview, ..self }
    }

    pub open spec fn with_image(self, image: Seq<u8>) -> Self {
        BoothState { image, ..self }
    }

    pub open spec fn with_previewing(self, previewing: bool) -> Self {
        BoothState { previewing, ..self }
    }
}

/// A stored image as readers get it: nothing while it is empty.
pub open spec fn shown(image: Seq<u8>) -> Option<Seq<u8>> {
    if image.len() == 0 {
        None
    } else {
        Some(image)
    }
}

/// The bytes of an optional image.
pub open spec fn bytes_of(image: Option<Vec<u8>>) -> Option<Seq<u8>> {
    match image {
        None => None,
        Some(bytes) => Some(bytes@),
    }
}

impl<X, C> View for MyPhotobooth<X, C> {
    type V = BoothState<X, C>;

    closed spec fn view(&self) -> BoothState<X, C> {
        BoothState {
            context: self.context@,
            camera: self.camera@,
            preview: self.shared_preview@,
            image: self.shared_image@,
            previewing: self.previewing,
        }
    }
}

impl<X, C> MyPhotobooth<X, C> {
    /// A booth with no camera, no images and no preview.
    pub fn new(context: X) -> (booth: Self)
        ensures
            booth@ == (BoothState {
                context,
                camera: None::<C>,
                preview: Seq::<u8>::empty(),
                image: Seq::<u8>::empty(),
                previewing: false,
            }),
    {
        MyPhotobooth {
            context: WrappedContext::new(context),
            camera: WrappedCamera::default(),
            shared_preview: Vec::new(),
            shared_image: Vec::new(),
            previewing: false,
        }
    }

    /// The context through which cameras are found.
    pub fn context(&self) -> (context: &X)
        ensures
            *context == self@.context,
    {
        self.context.inner()
    }

    /// The last preview frame, if there is one.
    pub fn get_preview_image(&self) -> (image: Option<Vec<u8>>)
        ensures
            bytes_of(image) == shown(self@.preview),
    {
        if self.shared_preview.is_empty() {
            None
        } else {
            let image = self.shared_preview.clone();
            assert(image@ == self.shared_preview@);
            Some(image)
        }
    }

    /// The last captured image, if there is one.
    pub fn get_capture_image(&self) -> (image: Option<Vec<u8>>)
        ensures
            bytes_of(image) == shown(self@.image),
    {
        if self.shared_image.is_empty() {
            None
        } else {
            let image = self.shared_image.clone();
            assert(image@ == self.shared_image@);
            Some(image)
        }
    }

    /// Whether a preview was started and has not ended.
    pub fn get_status_previewing(&self) -> (status: bool)
        ensures
            status == self@.previewing,
    {
        self.previewing
    }

    /// Notes that a preview was started or has ended.
    pub fn set_status_previewing(&mut self, status: bool)
        ensures
            final(self)@ == old(self)@.with_previewing(status),
    {
        self.previewing = status;
    }

    /// Puts a preview frame in place of the last one.
    pub fn store_preview(&mut self, image: Vec<u8>)
        ensures
            final(self)@ == old(self)@.with_preview(image@),
    {
        self.shared_preview = image;
    }

    /// Puts a captured image in place of the last one.
    pub fn store_image(&mut self, image: Vec<u8>)
        ensures
            final(self)@ == old(self)@.with_image(image@),
    {
        self.shared_image = image;
    }

    /// Whether a camera is in use.
    pub fn has_camera(&self) -> (filled: bool)
        ensures
            filled == self@.camera is Some,
    {
        self.camera.is_some()
    }

    /// Takes a camera into use.
    pub fn set_camera(&mut self, camera: C)
        ensures
            final(self)@ == old(self)@.with_camera(Some(camera)),
    {
        self.camera.set(camera);
    }

    /// Closes the camera in use, if there is one.
    pub fn shutdown_camera(&mut self)
        ensures
            final(self)@ == old(self)@.with_camera(None),
    {
        if self.camera.is_some() {
            self.camera.clear();
        }
    }
}

impl<X, C: Clone> MyPhotobooth<X, C> {
    /// A clone of the camera in use, if there is one.
    pub fn camera(&self) -> (camera: Option<C>)
        ensures
            camera is Some <==> self@.camera is Some,
            camera is Some ==> cloned(self@.camera->0, camera->0),
    {
        self.camera.inner()
    }
}

/// Changing one thing about the booth changes it to what was given, and leaves every
/// other thing as it was.
pub proof fn law_updates_change_one_thing<X, C>(
    booth: BoothState<X, C>,
    camera: Option<C>,
    bytes: Seq<u8>,
    previewing: bool,
)
    ensures
        ({
            let with = booth.with_camera(camera);
            &&& with.camera == camera
            &&& with.context == booth.context
            &&& with.preview == booth.preview
            &&& with.image == booth.image
            &&& with.previewing == booth.previewing
        }),
        ({
            let with = booth.with_preview(bytes);
            &&& with.preview == bytes
            &&& with.context == booth.context
            &&& with.camera == booth.camera
            &&& with.image == booth.image
            &&& with.previewing == booth.previewing
        }),
        ({
            let with = booth.with_image(bytes);
            &&& with.image == bytes
            &&& with.context == booth.context
            &&& with.camera == booth.camera
            &&& with.preview == booth.preview
            &&& with.previewing == booth.previewing
        }),
        ({
            let with = booth.with_previewing(previewing);
            &&& with.previewing == previewing
            &&& with.context == booth.context
            &&& with.camera == booth.camera
            &&& with.preview == booth.preview
            &&& with.image == booth.image
        }),
{
}

/// What a reader gets of stored bytes: nothing exactly when there are none, and else
/// all of them.
pub proof fn law_readers_get_what_is_stored(got: Option<Vec<u8>>, stored: Seq<u8>)
    ensures
        bytes_of(got) == shown(stored) <==> match got {
            None => stored.len() == 0,
            Some(bytes) => stored.len() > 0 && bytes@ == stored,
        },
        shown(stored) is None <==> stored.len() == 0,
        stored.len() > 0 ==> shown(stored) == Some(stored),
{
}

} // verus!
