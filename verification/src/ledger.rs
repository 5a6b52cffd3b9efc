use vstd::prelude::*;
use crate::error::ErrorKind;
use crate::geometry::Extent;
use crate::pixel::{solid, solid_image, ChannelOrder, PixelFormat, Rgba8};

verus! {

/// Where a surface is. The four states exclude each other, and every
/// change from one to another is a single step of the ledger.
#[derive(Clone, Copy, Debug, PartialEq, Eq)]
pub enum Ownership {
    /// Attached to the framebuffer of the context with this handle.
    Bound(usize),
    /// Free-standing, held by whoever detached or created it.
    Detached,
    /// Wrapped as a texture inside the context with this handle.
    Imported(usize),
    /// Released for good.
    Destroyed,
}

/// What the ledger records of one context.
#[derive(Clone, Copy, Debug, PartialEq, Eq)]
pub struct ContextEntry {
    pub alive: bool,
    pub device: usize,
    pub format: PixelFormat,
    pub bound: Option<usize>,
}

/// What the ledger records of one surface.
#[derive(Clone, Copy, Debug, PartialEq, Eq)]
pub struct SurfaceEntry {
    pub extent: Extent,
    pub format: PixelFormat,
    pub device: usize,
    pub state: Ownership,
    /// The context that had the surface bound last, if any had.
    pub last_bound: Option<usize>,
    /// The colour of every pixel, where the content is known to be one.
    pub fill: Option<Rgba8>,
}

/// The size of the surface bound to a context, with the surface's handle.
#[derive(Clone, Copy, Debug, PartialEq, Eq)]
pub struct BoundInfo {
    pub surface: usize,
    pub extent: Extent,
}

/// The mathematical content of a ledger: contexts and surfaces by handle,
/// and the context that is current on the thread.
pub struct Book {
    pub contexts: Seq<ContextEntry>,
    pub surfaces: Seq<SurfaceEntry>,
    pub current: Option<usize>,
}

impl Book {
    /// The handle names a context that has not been destroyed.
    pub open spec fn live(self, c: usize) -> bool {
        c < self.contexts.len() && self.contexts[c as int].alive
    }

    /// The handle names a surface.
    pub open spec fn known(self, s: usize) -> bool {
        s < self.surfaces.len()
    }

    /// What must hold of the context at index `c`: if a surface is bound to
    /// it, the context is alive and that surface names it in turn.
    pub open spec fn context_ok(self, c: int) -> bool {
        self.contexts[c].bound matches Some(s) ==> self.contexts[c].alive && s
            < self.surfaces.len() && self.surfaces[s as int].state == Ownership::Bound(c as usize)
    }

    /// What must hold of the surface at index `s`: its size is drawable; a
    /// context that it names as the one it is bound to has it bound, belongs
    /// to its device and is the last that had it bound; one that it names
    /// as holding a texture of it is alive.
    pub open spec fn surface_ok(self, s: int) -> bool {
        &&& self.surfaces[s].extent.drawable()
        &&& match self.surfaces[s].state {
            Ownership::Bound(c) => c < self.contexts.len() && self.contexts[c as int].bound
                == Some(s as usize) && self.contexts[c as int].device == self.surfaces[s].device
                && self.surfaces[s].last_bound == Some(c),
            Ownership::Imported(c) => self.live(c),
            _ => true,
        }
    }

    /// The records agree with each other, the current context is live, and
    /// every index is a handle.
    pub open spec fn wf(self) -> bool {
        &&& self.contexts.len() <= usize::MAX
        &&& self.surfaces.len() <= usize::MAX
        &&& self.current matches Some(c) ==> self.live(c)
        &&& forall|c: int| 0 <= c < self.contexts.len() ==> #[trigger] self.context_ok(c)
        &&& forall|s: int| 0 <= s < self.surfaces.len() ==> #[trigger] self.surface_ok(s)
    }

    /// The surface bound to a context, if the context is live and has one.
    pub open spec fn bound_of(self, c: usize) -> Option<usize> {
        if self.live(c) {
            self.contexts[c as int].bound
        } else {
            None
        }
    }

    /// Some surface is wrapped as a texture inside the context.
    pub open spec fn holds_import(self, c: usize) -> bool {
        exists|s: int|
            0 <= s < self.surfaces.len() && (#[trigger] self.surfaces[s]).state
                == Ownership::Imported(c)
    }

    // ----- the ledger after each step -----
    /// A context more. Making a context may change which one the platform
    /// holds current, so none counts as current afterwards.
    pub open spec fn with_context(self, device: usize, format: PixelFormat) -> Book {
        Book {
            contexts: self.contexts.push(
                ContextEntry { alive: true, device, format, bound: None },
            ),
            current: None,
            ..self
        }
    }

    pub open spec fn with_surface(self, c: usize, extent: Extent) -> Book {
        Book {
            surfaces: self.surfaces.push(
                SurfaceEntry {
                    extent,
                    format: self.contexts[c as int].format,
                    device: self.contexts[c as int].device,
                    state: Ownership::Detached,
                    last_bound: None,
                    fill: None,
                },
            ),
            ..self
        }
    }

    pub open spec fn made_current(self, c: usize) -> Book {
        Book { current: Some(c), ..self }
    }

    pub open spec fn with_state(self, s: usize, state: Ownership) -> Book {
        Book {
            surfaces: self.surfaces.update(
                s as int,
                SurfaceEntry { state, ..self.surfaces[s as int] },
            ),
            ..self
        }
    }

    pub open spec fn with_fill(self, s: usize, fill: Option<Rgba8>) -> Book {
        Book {
            surfaces: self.surfaces.update(
                s as int,
                SurfaceEntry { fill, ..self.surfaces[s as int] },
            ),
            ..self
        }
    }

    pub open spec fn bound_to(self, c: usize, s: usize) -> Book {
        Book {
            contexts: self.contexts.update(
                c as int,
                ContextEntry { bound: Some(s), ..self.contexts[c as int] },
            ),
            surfaces: self.surfaces.update(
                s as int,
                SurfaceEntry {
                    state: Ownership::Bound(c),
                    last_bound: Some(c),
                    ..self.surfaces[s as int]
                },
            ),
            ..self
        }
    }

    pub open spec fn unbound(self, c: usize) -> Book {
        let s = self.contexts[c as int].bound->0;
        Book {
            contexts: self.contexts.update(
                c as int,
                ContextEntry { bound: None, ..self.contexts[c as int] },
            ),
            surfaces: self.surfaces.update(
                s as int,
                SurfaceEntry { state: Ownership::Detached, ..self.surfaces[s as int] },
            ),
            ..self
        }
    }

    /// A context less. Releasing a context leaves the platform without a
    /// current one, whichever it was.
    pub open spec fn without_context(self, c: usize) -> Book {
        Book {
            contexts: self.contexts.update(
                c as int,
                ContextEntry { alive: false, ..self.contexts[c as int] },
            ),
            current: None,
            ..self
        }
    }

    // ----- when each step is admitted -----
    pub open spec fn can_create_surface(self, c: usize, extent: Extent) -> bool {
        self.live(c) && extent.drawable()
    }

    pub open spec fn can_bind(self, c: usize, s: usize) -> bool {
        &&& self.live(c)
        &&& self.contexts[c as int].bound is None
        &&& self.known(s)
        &&& self.surfaces[s as int].state == Ownership::Detached
        &&& self.surfaces[s as int].device == self.contexts[c as int].device
    }

    pub open spec fn can_unbind(self, c: usize) -> bool {
        self.live(c) && self.contexts[c as int].bound is Some
    }

    pub open spec fn can_import(self, c: usize, s: usize) -> bool {
        &&& self.live(c)
        &&& self.known(s)
        &&& self.surfaces[s as int].state == Ownership::Detached
        &&& self.surfaces[s as int].last_bound != Some(c)
        &&& self.surfaces[s as int].format == self.contexts[c as int].format
    }

    pub open spec fn can_release(self, c: usize, s: usize) -> bool {
        self.known(s) && self.surfaces[s as int].state == Ownership::Imported(c)
    }

    pub open spec fn can_destroy_surface(self, c: usize, s: usize) -> bool {
        &&& self.live(c)
        &&& self.known(s)
        &&& self.surfaces[s as int].state == Ownership::Detached
        &&& self.surfaces[s as int].device == self.contexts[c as int].device
    }

    pub open spec fn can_destroy_context(self, c: usize) -> bool {
        &&& self.live(c)
        &&& self.contexts[c as int].bound is None
        &&& !self.holds_import(c)
    }

    // ----- operations on the framebuffer of a context -----
    /// Why an operation on the framebuffer of a context is refused, if it
    /// is: the context must be the current one and have a surface bound.
    pub open spec fn framebuffer_verdict(self, c: usize) -> Option<ErrorKind> {
        if self.current != Some(c) {
            Some(ErrorKind::Currency)
        } else if self.bound_of(c) is None {
            Some(ErrorKind::UnboundDestination)
        } else {
            None
        }
    }

    /// The colour that the framebuffer of a context shows in every pixel,
    /// where that is known.
    pub open spec fn shown(self, c: usize) -> Option<Rgba8> {
        match self.bound_of(c) {
            Some(d) => self.surfaces[d as int].fill,
            None => None,
        }
    }

    /// The ledger after the framebuffer of a context was filled.
    pub open spec fn filled(self, c: usize, fill: Option<Rgba8>) -> Book {
        self.with_fill(self.contexts[c as int].bound->0, fill)
    }

    /// Why a copy from a texture into the framebuffer of the context that
    /// holds it is refused, if it is.
    pub open spec fn blit_verdict(self, c: usize, s: usize) -> Option<ErrorKind> {
        if self.framebuffer_verdict(c) is Some {
            self.framebuffer_verdict(c)
        } else if !self.can_release(c, s) {
            Some(ErrorKind::Import)
        } else if self.surfaces[s as int].extent != self.surfaces[self.bound_of(c)->0 as int].extent {
            Some(ErrorKind::SizeMismatch)
        } else {
            None
        }
    }

    /// Why a transfer of a surface into a context is refused, if it is.
    pub open spec fn transfer_verdict(self, c: usize, s: usize) -> Option<ErrorKind> {
        if !self.live(c) {
            Some(ErrorKind::Currency)
        } else if self.contexts[c as int].bound is None {
            Some(ErrorKind::UnboundDestination)
        } else if !self.known(s) {
            Some(ErrorKind::Import)
        } else if self.surfaces[s as int].extent != self.surfaces[self.contexts[c as int].bound->0 as int].extent {
            Some(ErrorKind::SizeMismatch)
        } else if !self.can_import(c, s) {
            Some(ErrorKind::Import)
        } else {
            None
        }
    }

    /// The ledger after a transfer: the context is current, and its
    /// framebuffer shows what the surface holds. The surface is detached
    /// as it was before.
    pub open spec fn transferred(self, c: usize, s: usize) -> Book {
        self.made_current(c).filled(c, self.surfaces[s as int].fill)
    }

    // ----- every admitted step keeps the records in agreement -----
    pub proof fn lemma_with_context_wf(self, device: usize, format: PixelFormat)
        requires
            self.wf(),
            self.contexts.len() < usize::MAX,
        ensures
            self.with_context(device, format).wf(),
    {
        let after = self.with_context(device, format);
        assert forall|i: int| 0 <= i < after.contexts.len() implies after.context_ok(i) by {
            if i < self.contexts.len() {
                assert(self.context_ok(i));
            }
        }
        assert forall|i: int| 0 <= i < after.surfaces.len() implies after.surface_ok(i) by {
            assert(self.surface_ok(i));
        }
    }

    pub proof fn lemma_with_surface_wf(self, c: usize, extent: Extent)
        requires
            self.wf(),
            extent.drawable(),
            self.surfaces.len() < usize::MAX,
        ensures
            self.with_surface(c, extent).wf(),
    {
        let after = self.with_surface(c, extent);
        assert forall|i: int| 0 <= i < after.contexts.len() implies after.context_ok(i) by {
            assert(self.context_ok(i));
        }
        assert forall|i: int| 0 <= i < after.surfaces.len() implies after.surface_ok(i) by {
            if i < self.surfaces.len() {
                assert(self.surface_ok(i));
            }
        }
    }

    pub proof fn lemma_made_current_wf(self, c: usize)
        requires
            self.wf(),
            self.live(c),
        ensures
            self.made_current(c).wf(),
    {
        let after = self.made_current(c);
        assert forall|i: int| 0 <= i < after.contexts.len() implies after.context_ok(i) by {
            assert(self.context_ok(i));
        }
        assert forall|i: int| 0 <= i < after.surfaces.len() implies after.surface_ok(i) by {
            assert(self.surface_ok(i));
        }
    }

    /// A surface that is not bound may change between detached, imported
    /// into a live context, and destroyed.
    pub proof fn lemma_with_state_wf(self, s: usize, state: Ownership)
        requires
            self.wf(),
            self.known(s),
            !(self.surfaces[s as int].state is Bound),
            !(state is Bound),
            state matches Ownership::Imported(c) ==> self.live(c),
        ensures
            self.with_state(s, state).wf(),
    {
        let after = self.with_state(s, state);
        assert forall|i: int| 0 <= i < after.contexts.len() implies after.context_ok(i) by {
            assert(self.context_ok(i));
        }
        assert forall|i: int| 0 <= i < after.surfaces.len() implies after.surface_ok(i) by {
            assert(self.surface_ok(i));
        }
    }

    pub proof fn lemma_with_fill_wf(self, s: usize, fill: Option<Rgba8>)
        requires
            self.wf(),
            self.known(s),
        ensures
            self.with_fill(s, fill).wf(),
    {
        let after = self.with_fill(s, fill);
        assert forall|i: int| 0 <= i < after.contexts.len() implies after.context_ok(i) by {
            assert(self.context_ok(i));
        }
        assert forall|i: int| 0 <= i < after.surfaces.len() implies after.surface_ok(i) by {
            assert(self.surface_ok(i));
        }
    }

    pub proof fn lemma_bound_to_wf(self, c: usize, s: usize)
        requires
            self.wf(),
            self.can_bind(c, s),
        ensures
            self.bound_to(c, s).wf(),
    {
        let after = self.bound_to(c, s);
        assert forall|i: int| 0 <= i < after.contexts.len() implies after.context_ok(i) by {
            assert(self.context_ok(i));
        }
        assert forall|i: int| 0 <= i < after.surfaces.len() implies after.surface_ok(i) by {
            assert(self.surface_ok(i));
        }
    }

    pub proof fn lemma_unbound_wf(self, c: usize)
        requires
            self.wf(),
            self.can_unbind(c),
        ensures
            self.unbound(c).wf(),
    {
        let after = self.unbound(c);
        assert(self.context_ok(c as int));
        assert forall|i: int| 0 <= i < after.contexts.len() implies after.context_ok(i) by {
            assert(self.context_ok(i));
        }
        assert forall|i: int| 0 <= i < after.surfaces.len() implies after.surface_ok(i) by {
            assert(self.surface_ok(i));
        }
    }

    pub proof fn lemma_without_context_wf(self, c: usize)
        requires
            self.wf(),
            self.can_destroy_context(c),
        ensures
            self.without_context(c).wf(),
    {
        let after = self.without_context(c);
        assert forall|i: int| 0 <= i < after.contexts.len() implies after.context_ok(i) by {
            assert(self.context_ok(i));
        }
        assert forall|i: int| 0 <= i < after.surfaces.len() implies after.surface_ok(i) by {
            assert(self.surface_ok(i));
        }
    }

    // ----- what the steps guarantee together -----
    /// A colour written into the surface bound to context `a` reaches the
    /// framebuffer of context `d`: after the surface is detached from `a`
    /// and transferred into `d`, which has a surface of the same size
    /// bound, `d` shows that colour in every pixel, whatever `d` showed
    /// before.
    pub proof fn lemma_fill_crosses_contexts(
        self,
        a: usize,
        d: usize,
        color: Rgba8,
        prior: Option<Rgba8>,
    )
        requires
            self.wf(),
            self.current == Some(a),
            self.bound_of(a) is Some,
            self.bound_of(d) is Some,
            a != d,
            self.surfaces[self.bound_of(a)->0 as int].extent == self.surfaces[self.bound_of(
                d,
            )->0 as int].extent,
            self.surfaces[self.bound_of(a)->0 as int].format == self.contexts[d as int].format,
        ensures
            ({
                let s = self.bound_of(a)->0;
                let t = self.bound_of(d)->0;
                let sent = self.with_fill(t, prior).filled(a, Some(color)).unbound(a);
                &&& sent.wf()
                &&& sent.transfer_verdict(d, s) is None
                &&& sent.transferred(d, s).wf()
                &&& sent.transferred(d, s).framebuffer_verdict(d) is None
                &&& sent.transferred(d, s).shown(d) == Some(color)
                &&& sent.transferred(d, s).surfaces[t as int].extent == self.surfaces[t as int].extent
            }),
    {
        let s = self.bound_of(a)->0;
        let t = self.bound_of(d)->0;
        assert(self.context_ok(a as int));
        assert(self.context_ok(d as int));
        assert(self.surface_ok(s as int));
        assert(self.surface_ok(t as int));
        let primed = self.with_fill(t, prior);
        self.lemma_with_fill_wf(t, prior);
        let painted = primed.filled(a, Some(color));
        primed.lemma_with_fill_wf(s, Some(color));
        let sent = painted.unbound(a);
        painted.lemma_unbound_wf(a);
        assert(sent.can_import(d, s));
        let done = sent.transferred(d, s);
        sent.lemma_made_current_wf(d);
        sent.made_current(d).lemma_with_fill_wf(t, sent.surfaces[s as int].fill);
    }

    /// Wrapping a surface as a texture and unwrapping it again gives back
    /// the surface as it was when it was detached: same size, same format,
    /// and free to be bound again to the context it came from.
    pub proof fn lemma_import_round_trip(self, origin: usize, c: usize)
        requires
            self.wf(),
            self.can_unbind(origin),
            self.unbound(origin).can_import(c, self.contexts[origin as int].bound->0),
        ensures
            ({
                let s = self.contexts[origin as int].bound->0;
                let free = self.unbound(origin);
                let wrapped = free.with_state(s, Ownership::Imported(c));
                let back = wrapped.with_state(s, Ownership::Detached);
                &&& wrapped.wf()
                &&& wrapped.can_release(c, s)
                &&& !wrapped.can_bind(origin, s)
                &&& back == free
                &&& back.surfaces[s as int].extent == self.surfaces[s as int].extent
                &&& back.surfaces[s as int].format == self.surfaces[s as int].format
                &&& back.can_bind(origin, s)
            }),
    {
        let s = self.contexts[origin as int].bound->0;
        assert(self.context_ok(origin as int));
        assert(self.surface_ok(s as int));
        let free = self.unbound(origin);
        self.lemma_unbound_wf(origin);
        let wrapped = free.with_state(s, Ownership::Imported(c));
        free.lemma_with_state_wf(s, Ownership::Imported(c));
        let back = wrapped.with_state(s, Ownership::Detached);
        assert(back.surfaces =~= free.surfaces);
    }

    /// A transfer between surfaces of different sizes is refused for that
    /// reason, and the refusal leaves every surface as it was.
    pub proof fn lemma_size_mismatch_refused(self, c: usize, s: usize)
        requires
            self.wf(),
            self.bound_of(c) is Some,
            self.known(s),
            self.surfaces[s as int].extent != self.surfaces[self.bound_of(c)->0 as int].extent,
        ensures
            self.transfer_verdict(c, s) == Some(ErrorKind::SizeMismatch),
            self.made_current(c).surfaces == self.surfaces,
            self.made_current(c).shown(c) == self.shown(c),
    {
    }

    /// Only one context is current: once `k` has been made current, every
    /// operation on the framebuffer of another context is refused for want
    /// of currency.
    pub proof fn lemma_one_context_is_current(self, k: usize, c: usize, s: usize)
        requires
            self.wf(),
            self.live(k),
            c != k,
        ensures
            self.made_current(k).framebuffer_verdict(k) != Some(ErrorKind::Currency),
            self.made_current(k).framebuffer_verdict(c) == Some(ErrorKind::Currency),
            self.made_current(k).blit_verdict(c, s) == Some(ErrorKind::Currency),
    {
    }
}

/// The book of who holds what: every context and surface that the program
/// has made, the state of each surface, and the context that is current.
pub struct Ledger {
    contexts: Vec<ContextEntry>,
    surfaces: Vec<SurfaceEntry>,
    current: Option<usize>,
}

impl View for Ledger {
    type V = Book;

    closed spec fn view(&self) -> Book {
        Book { contexts: self.contexts@, surfaces: self.surfaces@, current: self.current }
    }
}

impl Ledger {
    /// A ledger that knows no context and no surface.
    pub fn new() -> (l: Ledger)
        ensures
            l@.wf(),
            l@.contexts.len() == 0,
            l@.surfaces.len() == 0,
            l@.current is None,
    {
        Ledger { contexts: Vec::new(), surfaces: Vec::new(), current: None }
    }

    /// Enters a new context, made on the given device with the given
    /// format, and returns its handle. Afterwards no context counts as
    /// current.
    pub fn create_context(&mut self, device: usize, format: PixelFormat) -> (c: usize)
        requires
            old(self)@.wf(),
        ensures
            final(self)@.wf(),
            c == old(self)@.contexts.len(),
            final(self)@ == old(self)@.with_context(device, format),
    {
        let c = self.contexts.len();
        self.contexts.push(ContextEntry { alive: true, device, format, bound: None });
        self.current = None;
        proof {
            assert(self.contexts@.len() == self.contexts.len());
            old(self)@.lemma_with_context_wf(device, format);
        }
        c
    }

    /// Enters a new surface of the given size, made through a context, and
    /// returns its handle. The surface starts detached.
    pub fn create_surface(&mut self, c: usize, extent: Extent) -> (r: Result<usize, ErrorKind>)
        requires
            old(self)@.wf(),
        ensures
            final(self)@.wf(),
            match r {
                Ok(s) => old(self)@.can_create_surface(c, extent) && s == old(self)@.surfaces.len()
                    && final(self)@ == old(self)@.with_surface(c, extent),
                Err(e) => !old(self)@.can_create_surface(c, extent) && e
                    == ErrorKind::SurfaceCreation && final(self)@ == old(self)@,
            },
    {
        if c >= self.contexts.len() || !self.contexts[c].alive || !extent.is_drawable() {
            return Err(ErrorKind::SurfaceCreation);
        }
        let s = self.surfaces.len();
        let entry = SurfaceEntry {
            extent,
            format: self.contexts[c].format,
            device: self.contexts[c].device,
            state: Ownership::Detached,
            last_bound: None,
            fill: None,
        };
        self.surfaces.push(entry);
        proof {
            assert(self.surfaces@.len() == self.surfaces.len());
            old(self)@.lemma_with_surface_wf(c, extent);
        }
        Ok(s)
    }

    /// Makes a context the current one of the thread.
    pub fn make_context_current(&mut self, c: usize) -> (r: Result<(), ErrorKind>)
        requires
            old(self)@.wf(),
        ensures
            final(self)@.wf(),
            match r {
                Ok(_) => old(self)@.live(c) && final(self)@ == old(self)@.made_current(c),
                Err(e) => !old(self)@.live(c) && e == ErrorKind::Currency && final(self)@ == old(
                    self,
                )@,
            },
    {
        if c >= self.contexts.len() || !self.contexts[c].alive {
            return Err(ErrorKind::Currency);
        }
        self.current = Some(c);
        proof {
            old(self)@.lemma_made_current_wf(c);
        }
        Ok(())
    }

    /// Tells whether a surface may be bound to a context.
    pub fn may_bind(&self, c: usize, s: usize) -> (b: bool)
        ensures
            b == self@.can_bind(c, s),
    {
        if c >= self.contexts.len() || s >= self.surfaces.len() {
            return false;
        }
        let context = self.contexts[c];
        let surface = self.surfaces[s];
        if !context.alive || context.bound.is_some() || surface.device != context.device {
            return false;
        }
        match surface.state {
            Ownership::Detached => true,
            _ => false,
        }
    }

    /// Tells whether a surface may be wrapped as a texture inside a context.
    pub fn may_import(&self, c: usize, s: usize) -> (b: bool)
        ensures
            b == self@.can_import(c, s),
    {
        if c >= self.contexts.len() || s >= self.surfaces.len() {
            return false;
        }
        let context = self.contexts[c];
        let surface = self.surfaces[s];
        if !context.alive || surface.format != context.format {
            return false;
        }
        match surface.last_bound {
            Some(k) => {
                if k == c {
                    return false;
                }
            },
            None => {},
        }
        match surface.state {
            Ownership::Detached => true,
            _ => false,
        }
    }

    /// Tells whether a context holds a texture of a surface, which it
    /// alone may unwrap.
    pub fn may_release(&self, c: usize, s: usize) -> (b: bool)
        ensures
            b == self@.can_release(c, s),
    {
        if s >= self.surfaces.len() {
            return false;
        }
        match self.surfaces[s].state {
            Ownership::Imported(k) => k == c,
            _ => false,
        }
    }

    /// Tells whether a surface may be released through a context.
    pub fn may_destroy_surface(&self, c: usize, s: usize) -> (b: bool)
        ensures
            b == self@.can_destroy_surface(c, s),
    {
        if c >= self.contexts.len() || s >= self.surfaces.len() {
            return false;
        }
        let context = self.contexts[c];
        let surface = self.surfaces[s];
        if !context.alive || surface.device != context.device {
            return false;
        }
        match surface.state {
            Ownership::Detached => true,
            _ => false,
        }
    }

    /// Attaches a detached surface to the framebuffer of a context that
    /// has none bound and belongs to the surface's device.
    pub fn bind_surface_to_context(&mut self, c: usize, s: usize) -> (r: Result<(), ErrorKind>)
        requires
            old(self)@.wf(),
        ensures
            final(self)@.wf(),
            match r {
                Ok(_) => old(self)@.can_bind(c, s) && final(self)@ == old(self)@.bound_to(c, s),
                Err(e) => !old(self)@.can_bind(c, s) && e == ErrorKind::Bind && final(self)@
                    == old(self)@,
            },
    {
        if !self.may_bind(c, s) {
            return Err(ErrorKind::Bind);
        }
        let context = self.contexts[c];
        let surface = self.surfaces[s];
        self.contexts.set(c, ContextEntry { bound: Some(s), ..context });
        self.surfaces.set(
            s,
            SurfaceEntry { state: Ownership::Bound(c), last_bound: Some(c), ..surface },
        );
        proof {
            old(self)@.lemma_bound_to_wf(c, s);
        }
        Ok(())
    }

    /// Detaches the surface bound to a context and returns its handle.
    pub fn unbind_surface_from_context(&mut self, c: usize) -> (r: Result<usize, ErrorKind>)
        requires
            old(self)@.wf(),
        ensures
            final(self)@.wf(),
            match r {
                Ok(s) => old(self)@.can_unbind(c) && Some(s) == old(self)@.contexts[c as int].bound
                    && final(self)@ == old(self)@.unbound(c),
                Err(e) => !old(self)@.can_unbind(c) && e == ErrorKind::Unbind && final(self)@
                    == old(self)@,
            },
    {
        if c >= self.contexts.len() || !self.contexts[c].alive {
            return Err(ErrorKind::Unbind);
        }
        let context = self.contexts[c];
        let s: usize = match context.bound {
            Some(s) => s,
            None => {
                return Err(ErrorKind::Unbind);
            },
        };
        proof {
            assert(old(self)@.context_ok(c as int));
        }
        let surface = self.surfaces[s];
        self.contexts.set(c, ContextEntry { bound: None, ..context });
        self.surfaces.set(s, SurfaceEntry { state: Ownership::Detached, ..surface });
        proof {
            old(self)@.lemma_unbound_wf(c);
        }
        Ok(s)
    }

    /// Wraps a detached surface as a texture inside a context other than
    /// the one that had it bound last.
    pub fn create_surface_texture(&mut self, c: usize, s: usize) -> (r: Result<(), ErrorKind>)
        requires
            old(self)@.wf(),
        ensures
            final(self)@.wf(),
            match r {
                Ok(_) => old(self)@.can_import(c, s) && final(self)@ == old(self)@.with_state(
                    s,
                    Ownership::Imported(c),
                ),
                Err(e) => !old(self)@.can_import(c, s) && e == ErrorKind::Import && final(self)@
                    == old(self)@,
            },
    {
        if !self.may_import(c, s) {
            return Err(ErrorKind::Import);
        }
        let surface = self.surfaces[s];
        self.surfaces.set(s, SurfaceEntry { state: Ownership::Imported(c), ..surface });
        proof {
            old(self)@.lemma_with_state_wf(s, Ownership::Imported(c));
        }
        Ok(())
    }

    /// Unwraps the texture that a context holds of a surface; the surface
    /// is detached again.
    pub fn destroy_surface_texture(&mut self, c: usize, s: usize) -> (r: Result<(), ErrorKind>)
        requires
            old(self)@.wf(),
        ensures
            final(self)@.wf(),
            match r {
                Ok(_) => old(self)@.can_release(c, s) && final(self)@ == old(self)@.with_state(
                    s,
                    Ownership::Detached,
                ),
                Err(e) => !old(self)@.can_release(c, s) && e == ErrorKind::Import && final(self)@
                    == old(self)@,
            },
    {
        if !self.may_release(c, s) {
            return Err(ErrorKind::Import);
        }
        let surface = self.surfaces[s];
        self.surfaces.set(s, SurfaceEntry { state: Ownership::Detached, ..surface });
        proof {
            old(self)@.lemma_with_state_wf(s, Ownership::Detached);
        }
        Ok(())
    }

    /// Releases a detached surface through a context of its device.
    pub fn destroy_surface(&mut self, c: usize, s: usize) -> (r: Result<(), ErrorKind>)
        requires
            old(self)@.wf(),
        ensures
            final(self)@.wf(),
            match r {
                Ok(_) => old(self)@.can_destroy_surface(c, s) && final(self)@ == old(
                    self,
                )@.with_state(s, Ownership::Destroyed),
                Err(e) => !old(self)@.can_destroy_surface(c, s) && e == ErrorKind::Lifecycle
                    && final(self)@ == old(self)@,
            },
    {
        if !self.may_destroy_surface(c, s) {
            return Err(ErrorKind::Lifecycle);
        }
        let surface = self.surfaces[s];
        self.surfaces.set(s, SurfaceEntry { state: Ownership::Destroyed, ..surface });
        proof {
            old(self)@.lemma_with_state_wf(s, Ownership::Destroyed);
        }
        Ok(())
    }

    /// Tells whether a context may be released: it is live, nothing is
    /// bound to it, and it holds no texture of any surface.
    pub fn may_destroy_context(&self, c: usize) -> (b: bool)
        requires
            self@.wf(),
        ensures
            b == self@.can_destroy_context(c),
    {
        if c >= self.contexts.len() {
            return false;
        }
        let context = self.contexts[c];
        if !context.alive || context.bound.is_some() {
            return false;
        }
        let n = self.surfaces.len();
        let mut i: usize = 0;
        while i < n
            invariant
                i <= n,
                n == self.surfaces@.len(),
                forall|j: int| 0 <= j < i ==> self@.surfaces[j].state != Ownership::Imported(c),
            decreases n - i,
        {
            match self.surfaces[i].state {
                Ownership::Imported(k) => {
                    if k == c {
                        assert(self@.holds_import(c));
                        return false;
                    }
                },
                _ => {},
            }
            i = i + 1;
        }
        true
    }

    /// Releases a context to which nothing is bound and which holds no
    /// texture of any surface. Afterwards no context counts as current.
    pub fn destroy_context(&mut self, c: usize) -> (r: Result<(), ErrorKind>)
        requires
            old(self)@.wf(),
        ensures
            final(self)@.wf(),
            match r {
                Ok(_) => old(self)@.can_destroy_context(c) && final(self)@ == old(
                    self,
                )@.without_context(c),
                Err(e) => !old(self)@.can_destroy_context(c) && e == ErrorKind::Lifecycle
                    && final(self)@ == old(self)@,
            },
    {
        if !self.may_destroy_context(c) {
            return Err(ErrorKind::Lifecycle);
        }
        let context = self.contexts[c];
        self.contexts.set(c, ContextEntry { alive: false, ..context });
        self.current = None;
        proof {
            old(self)@.lemma_without_context_wf(c);
        }
        Ok(())
    }

    /// The surface bound to a context and its size; `None` where the
    /// context is not live or has nothing bound.
    pub fn context_surface_info(&self, c: usize) -> (r: Option<BoundInfo>)
        requires
            self@.wf(),
        ensures
            match r {
                Some(info) => self@.bound_of(c) == Some(info.surface) && info.extent
                    == self@.surfaces[info.surface as int].extent,
                None => self@.bound_of(c) is None,
            },
    {
        if c >= self.contexts.len() || !self.contexts[c].alive {
            return None;
        }
        match self.contexts[c].bound {
            Some(s) => {
                proof {
                    assert(self@.context_ok(c as int));
                }
                Some(BoundInfo { surface: s, extent: self.surfaces[s].extent })
            },
            None => None,
        }
    }

    /// Tells whether the handle names a context that has not been destroyed.
    pub fn is_live(&self, c: usize) -> (b: bool)
        ensures
            b == self@.live(c),
    {
        c < self.contexts.len() && self.contexts[c].alive
    }

    /// Why a transfer of a surface into a context would be refused, if it
    /// would be. Nothing changes.
    pub fn check_transfer(&self, c: usize, s: usize) -> (r: Option<ErrorKind>)
        requires
            self@.wf(),
        ensures
            r == self@.transfer_verdict(c, s),
    {
        if c >= self.contexts.len() || !self.contexts[c].alive {
            return Some(ErrorKind::Currency);
        }
        let context = self.contexts[c];
        let d: usize = match context.bound {
            Some(d) => d,
            None => {
                return Some(ErrorKind::UnboundDestination);
            },
        };
        proof {
            assert(self@.context_ok(c as int));
        }
        if s >= self.surfaces.len() {
            return Some(ErrorKind::Import);
        }
        let source = self.surfaces[s];
        if source.extent != self.surfaces[d].extent {
            return Some(ErrorKind::SizeMismatch);
        }
        if source.format != context.format {
            return Some(ErrorKind::Import);
        }
        match source.state {
            Ownership::Detached => {},
            _ => {
                return Some(ErrorKind::Import);
            },
        }
        match source.last_bound {
            Some(k) => {
                if k == c {
                    return Some(ErrorKind::Import);
                }
            },
            None => {},
        }
        None
    }

    /// The context that is current on the thread, if any is.
    pub fn current_context(&self) -> (r: Option<usize>)
        ensures
            r == self@.current,
    {
        self.current
    }

    /// The record of a surface; `None` where the handle names none.
    pub fn surface(&self, s: usize) -> (r: Option<SurfaceEntry>)
        ensures
            match r {
                Some(e) => self@.known(s) && e == self@.surfaces[s as int],
                None => !self@.known(s),
            },
    {
        if s < self.surfaces.len() {
            Some(self.surfaces[s])
        } else {
            None
        }
    }

    /// The record of a context; `None` where the handle names none.
    pub fn context(&self, c: usize) -> (r: Option<ContextEntry>)
        ensures
            match r {
                Some(e) => c < self@.contexts.len() && e == self@.contexts[c as int],
                None => c >= self@.contexts.len(),
            },
    {
        if c < self.contexts.len() {
            Some(self.contexts[c])
        } else {
            None
        }
    }

    /// Records that the framebuffer of the current context was cleared to
    /// one colour.
    pub fn fill(&mut self, c: usize, color: Rgba8) -> (r: Result<(), ErrorKind>)
        requires
            old(self)@.wf(),
        ensures
            final(self)@.wf(),
            match r {
                Ok(_) => old(self)@.framebuffer_verdict(c) is None && final(self)@ == old(
                    self,
                )@.filled(c, Some(color)),
                Err(e) => old(self)@.framebuffer_verdict(c) == Some(e) && final(self)@ == old(
                    self,
                )@,
            },
    {
        let d: usize = match self.framebuffer_of(c) {
            Ok(d) => d,
            Err(e) => {
                return Err(e);
            },
        };
        let surface = self.surfaces[d];
        self.surfaces.set(d, SurfaceEntry { fill: Some(color), ..surface });
        proof {
            old(self)@.lemma_with_fill_wf(d, Some(color));
        }
        Ok(())
    }

    /// Records that the content of the surface bound to a context is no
    /// longer known. Nothing changes where the context has none bound.
    pub fn spoil(&mut self, c: usize)
        requires
            old(self)@.wf(),
        ensures
            final(self)@.wf(),
            final(self)@ == (if old(self)@.bound_of(c) is Some {
                old(self)@.filled(c, None)
            } else {
                old(self)@
            }),
    {
        if c >= self.contexts.len() || !self.contexts[c].alive {
            return ;
        }
        match self.contexts[c].bound {
            Some(d) => {
                proof {
                    assert(self@.context_ok(c as int));
                }
                let surface = self.surfaces[d];
                self.surfaces.set(d, SurfaceEntry { fill: None, ..surface });
                proof {
                    old(self)@.lemma_with_fill_wf(d, None);
                }
            },
            None => {},
        }
    }

    /// The surface behind the framebuffer of a context, which must be the
    /// current one and have a surface bound.
    pub fn framebuffer_of(&self, c: usize) -> (r: Result<usize, ErrorKind>)
        requires
            self@.wf(),
        ensures
            match r {
                Ok(d) => self@.framebuffer_verdict(c) is None && self@.bound_of(c) == Some(d)
                    && self@.known(d),
                Err(e) => self@.framebuffer_verdict(c) == Some(e),
            },
    {
        match self.current {
            Some(k) => {
                if k != c {
                    return Err(ErrorKind::Currency);
                }
            },
            None => {
                return Err(ErrorKind::Currency);
            },
        }
        match self.contexts[c].bound {
            Some(d) => {
                proof {
                    assert(self@.context_ok(c as int));
                }
                Ok(d)
            },
            None => Err(ErrorKind::UnboundDestination),
        }
    }

    /// Copies what a texture held by the current context shows into the
    /// framebuffer of that context, pixel for pixel.
    pub fn blit(&mut self, c: usize, s: usize) -> (r: Result<(), ErrorKind>)
        requires
            old(self)@.wf(),
        ensures
            final(self)@.wf(),
            match r {
                Ok(_) => old(self)@.blit_verdict(c, s) is None && final(self)@ == old(
                    self,
                )@.filled(c, old(self)@.surfaces[s as int].fill),
                Err(e) => old(self)@.blit_verdict(c, s) == Some(e) && final(self)@ == old(self)@,
            },
    {
        let d: usize = match self.framebuffer_of(c) {
            Ok(d) => d,
            Err(e) => {
                return Err(e);
            },
        };
        if s >= self.surfaces.len() {
            return Err(ErrorKind::Import);
        }
        let source = self.surfaces[s];
        match source.state {
            Ownership::Imported(k) => {
                if k != c {
                    return Err(ErrorKind::Import);
                }
            },
            _ => {
                return Err(ErrorKind::Import);
            },
        }
        let target = self.surfaces[d];
        if source.extent != target.extent {
            return Err(ErrorKind::SizeMismatch);
        }
        self.surfaces.set(d, SurfaceEntry { fill: source.fill, ..target });
        proof {
            old(self)@.lemma_with_fill_wf(d, source.fill);
        }
        Ok(())
    }

    /// The bytes that reading back the whole framebuffer of the current
    /// context must give, where its content is known to be one colour.
    pub fn read_pixels(&self, c: usize, order: ChannelOrder) -> (r: Result<Vec<u8>, ErrorKind>)
        requires
            self@.wf(),
        ensures
            match r {
                Ok(v) => self@.framebuffer_verdict(c) is None && self@.shown(c) is Some && v@
                    == solid(
                    self@.surfaces[self@.bound_of(c)->0 as int].extent,
                    self@.shown(c)->0,
                    order,
                ),
                Err(e) => if self@.framebuffer_verdict(c) is Some {
                    self@.framebuffer_verdict(c) == Some(e)
                } else {
                    e == ErrorKind::Integrity
                },
            },
            self@.framebuffer_verdict(c) is None && self@.shown(c) is Some && crate::pixel::image_len(
                self@.surfaces[self@.bound_of(c)->0 as int].extent,
                order,
            ) <= usize::MAX && self@.surfaces[self@.bound_of(c)->0 as int].extent.drawable()
                ==> r is Ok,
    {
        let d: usize = match self.framebuffer_of(c) {
            Ok(d) => d,
            Err(e) => {
                return Err(e);
            },
        };
        let surface = self.surfaces[d];
        match surface.fill {
            Some(color) => match solid_image(surface.extent, color, order) {
                Some(v) => Ok(v),
                None => Err(ErrorKind::Integrity),
            },
            None => Err(ErrorKind::Integrity),
        }
    }

    /// Moves what a detached surface holds into the framebuffer of a
    /// context: the context is made current, the surface is wrapped as a
    /// texture inside it, copied, and unwrapped again. A refused transfer
    /// changes nothing but the current context.
    pub fn transfer(&mut self, c: usize, s: usize) -> (r: Result<(), ErrorKind>)
        requires
            old(self)@.wf(),
        ensures
            final(self)@.wf(),
            match r {
                Ok(_) => old(self)@.transfer_verdict(c, s) is None && final(self)@ == old(
                    self,
                )@.transferred(c, s),
                Err(e) => old(self)@.transfer_verdict(c, s) == Some(e) && final(self)@ == (if old(
                    self,
                )@.live(c) {
                    old(self)@.made_current(c)
                } else {
                    old(self)@
                }),
            },
    {
        match self.make_context_current(c) {
            Ok(_) => {},
            Err(e) => {
                return Err(e);
            },
        }
        let info = match self.context_surface_info(c) {
            Some(info) => info,
            None => {
                return Err(ErrorKind::UnboundDestination);
            },
        };
        if s >= self.surfaces.len() {
            return Err(ErrorKind::Import);
        }
        if self.surfaces[s].extent != info.extent {
            return Err(ErrorKind::SizeMismatch);
        }
        let ghost start = self@;
        proof {
            assert(start.context_ok(c as int));
            assert(start == old(self)@.made_current(c));
        }
        match self.create_surface_texture(c, s) {
            Ok(_) => {},
            Err(e) => {
                return Err(e);
            },
        }
        let ghost wrapped = self@;
        proof {
            assert(info.surface != s);
            assert(wrapped.bound_of(c) == Some(info.surface));
            assert(wrapped.blit_verdict(c, s) is None);
        }
        match self.blit(c, s) {
            Ok(_) => {},
            Err(e) => {
                return Err(e);
            },
        }
        let ghost copied = self@;
        proof {
            assert(copied.can_release(c, s));
        }
        match self.destroy_surface_texture(c, s) {
            Ok(_) => {},
            Err(e) => {
                return Err(e);
            },
        }
        proof {
            assert(self@.surfaces =~= old(self)@.transferred(c, s).surfaces);
        }
        Ok(())
    }
}

} // verus!
