//! What the booth knows of cameras: the context they are found through, the slot
//! that holds the one in use, and what a camera reports.

use vstd::prelude::*;

verus! {

/// The context through which cameras are found.
pub struct WrappedContext<X> {
    context: X,
}

impl<X> View for WrappedContext<X> {
    type V = X;

    closed spec fn view(&self) -> X {
        self.context
    }
}

impl<X> WrappedContext<X> {
    /// Wraps a context.
    pub fn new(context: X) -> (wrapped: Self)
        ensures
            wrapped@ == context,
    {
        WrappedContext { context }
    }

    /// The context.
    pub fn inner(&self) -> (context: &X)
        ensures
            *context == self@,
    {
        &self.context
    }
}

/// The slot for the camera in use.
pub struct WrappedCamera<C> {
    slot: Option<C>,
}

impl<C> View for WrappedCamera<C> {
    type V = Option<C>;

    closed spec fn view(&self) -> Option<C> {
        self.slot
    }
}

impl<C> Default for WrappedCamera<C> {
    /// An empty slot.
    fn default() -> (camera: Self)
        ensures
            camera@ is None,
    {
        WrappedCamera { slot: None }
    }
}

impl<C> WrappedCamera<C> {
    /// Puts a camera in the slot, in place of what it held.
    pub fn set(&mut self, camera: C)
        ensures
            final(self)@ == Some(camera),
    {
        self.slot = Some(camera);
    }

    /// Empties the slot. What it held is dropped, which closes it.
    pub fn clear(&mut self)
        ensures
            final(self)@ is None,
    {
        self.slot = None;
    }

    /// Whether the slot holds a camera.
    pub fn is_some(&self) -> (filled: bool)
        ensures
            filled == self@ is Some,
    {
        self.slot.is_some()
    }
}

impl<C: Clone> WrappedCamera<C> {
    /// A clone of the camera in the slot, if there is one.
    pub fn inner(&self) -> (camera: Option<C>)
        ensures
            camera is Some <==> self@ is Some,
            camera is Some ==> cloned(self@->0, camera->0),
    {
        self.slot.clone()
    }
}

/// A connected camera and the port it is on.
#[derive(Debug, PartialEq, Eq)]
pub struct CameraDescriptor {
    pub model: String,
    pub port: String,
}

/// A file or folder on a camera.
#[derive(Debug, PartialEq, Eq)]
pub struct FilePath {
    pub folder: String,
    pub name: String,
}

/// What a camera reports while it is waited on.
#[derive(Debug, PartialEq, Eq)]
pub enum CameraEvent {
    Unknown(String),
    Timeout,
    NewFile(FilePath),
    FileChanged(FilePath),
    NewFolder(FilePath),
    CaptureComplete,
}

impl CameraEvent {
    /// An event that says nothing about the shot: neither its file nor that the
    /// wait is over.
    pub open spec fn is_unrelated(self) -> bool {
        !(self is NewFile) && !(self is Timeout)
    }
}

} // verus!
