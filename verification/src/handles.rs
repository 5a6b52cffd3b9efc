use vstd::prelude::*;
use crate::error::ErrorKind;
use crate::geometry::Extent;
use surfman::{Context, Surface, SurfaceTexture};

verus! {

/// The kind of surface to make. Only off-screen surfaces are made here: a
/// surface for a widget belongs to a window.
#[derive(Clone, Copy, Debug, PartialEq, Eq, Structural)]
pub enum SurfaceType {
    Generic { size: Extent },
}

impl SurfaceType {
    pub open spec fn extent(self) -> Extent {
        match self {
            SurfaceType::Generic { size } => size,
        }
    }

    pub fn size(&self) -> (e: Extent)
        ensures
            e == self.extent(),
    {
        match self {
            SurfaceType::Generic { size } => *size,
        }
    }
}

/// A context of the platform with its handle in the ledger. It is live
/// from the moment it is made until the platform has released it; only a
/// live one is ever handed to the platform.
pub struct ContextHandle {
    pub(crate) context: Context,
    pub(crate) key: usize,
    pub(crate) live: bool,
}

impl ContextHandle {
    /// The handle of the context in the ledger.
    pub closed spec fn id(&self) -> usize {
        self.key
    }

    /// The platform has not released the context.
    pub closed spec fn alive(&self) -> bool {
        self.live
    }

    /// Same handle, same liveness.
    pub open spec fn same(&self, other: &ContextHandle) -> bool {
        self.id() == other.id() && self.alive() == other.alive()
    }

    pub(crate) fn new(context: Context, key: usize) -> (h: ContextHandle)
        ensures
            h.id() == key,
            h.alive(),
    {
        ContextHandle { context, key, live: true }
    }

    pub fn key(&self) -> (k: usize)
        ensures
            k == self.id(),
    {
        self.key
    }

    pub fn is_live(&self) -> (b: bool)
        ensures
            b == self.alive(),
    {
        self.live
    }

    /// The context itself, to read from.
    pub fn context(&self) -> &Context {
        &self.context
    }

    /// Notes that the platform has released the context.
    pub(crate) fn retire(&mut self)
        ensures
            final(self).id() == old(self).id(),
            !final(self).alive(),
    {
        self.live = false;
    }
}

/// A detached surface in the caller's hands, with its handle in the
/// ledger. It is live until the platform has released it.
pub struct Held {
    pub(crate) surface: Surface,
    pub(crate) key: usize,
    pub(crate) live: bool,
}

impl Held {
    /// The handle of the surface in the ledger.
    pub closed spec fn id(&self) -> usize {
        self.key
    }

    /// The platform has not released the surface.
    pub closed spec fn alive(&self) -> bool {
        self.live
    }

    /// Same handle, same liveness.
    pub open spec fn same(&self, other: &Held) -> bool {
        self.id() == other.id() && self.alive() == other.alive()
    }

    pub(crate) fn new(surface: Surface, key: usize) -> (h: Held)
        ensures
            h.id() == key,
            h.alive(),
    {
        Held { surface, key, live: true }
    }

    pub fn key(&self) -> (k: usize)
        ensures
            k == self.id(),
    {
        self.key
    }

    pub fn is_live(&self) -> (b: bool)
        ensures
            b == self.alive(),
    {
        self.live
    }

    /// Notes that the platform has released the surface.
    pub(crate) fn retire(&mut self)
        ensures
            final(self).id() == old(self).id(),
            !final(self).alive(),
    {
        self.live = false;
    }
}

/// A surface wrapped as a texture inside a context, with the handles of
/// both in the ledger. It exists only between wrapping and unwrapping.
pub struct HeldTexture {
    pub(crate) texture: SurfaceTexture,
    pub(crate) surface: usize,
    pub(crate) context: usize,
}

impl HeldTexture {
    /// The handle of the wrapped surface in the ledger.
    pub closed spec fn surface_id(&self) -> usize {
        self.surface
    }

    /// The handle of the context that holds the texture.
    pub closed spec fn context_id(&self) -> usize {
        self.context
    }

    pub(crate) fn new(texture: SurfaceTexture, surface: usize, context: usize) -> (t: HeldTexture)
        ensures
            t.surface_id() == surface,
            t.context_id() == context,
    {
        HeldTexture { texture, surface, context }
    }

    pub fn surface_key(&self) -> (k: usize)
        ensures
            k == self.surface_id(),
    {
        self.surface
    }

    pub fn context_key(&self) -> (k: usize)
        ensures
            k == self.context_id(),
    {
        self.context
    }
}

/// What a failed operation hands back, so that the caller can release it.
pub enum Leftover {
    Nothing,
    Surface(Held),
    Texture(HeldTexture),
}

/// Why an operation on the platform failed, and what it hands back.
pub struct Failure {
    pub kind: ErrorKind,
    pub leftover: Leftover,
}

impl Failure {
    /// The failure hands back the surface with the given handle, live.
    pub open spec fn keeps(self, s: usize) -> bool {
        self.leftover matches Leftover::Surface(h) && h.id() == s && h.alive()
    }

    /// The failure hands back a surface with the handle and the liveness
    /// of the one given.
    pub open spec fn hands_back(self, held: &Held) -> bool {
        self.leftover matches Leftover::Surface(h) && h.same(held)
    }

    /// The failure hands back the texture of a surface that a context
    /// still holds.
    pub open spec fn stuck(self, c: usize, s: usize) -> bool {
        self.leftover matches Leftover::Texture(t) && t.surface_id() == s && t.context_id() == c
    }
}

} // verus!
