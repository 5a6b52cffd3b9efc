use vstd::prelude::*;
use crate::codes::{ALPHA_FLAG, COLOR_BUFFER_BIT, FRAMEBUFFER, UNSIGNED_BYTE};
use crate::error::ErrorKind;
use crate::geometry::Extent;
use crate::gpu;
use crate::gpu::SurfaceFacts;
use crate::handles::{ContextHandle, Failure, Held, HeldTexture, Leftover, SurfaceType};
use crate::ledger::{Book, Ledger, Ownership};
use crate::pixel::{is_solid, solid, ChannelOrder, PixelFormat, Rgba8};
use crate::validator::check;
use sparkle::gl::Gl;
use surfman::{Device, SurfaceAccess};

verus! {

/// The attribute flags that a context of the given format is asked for:
/// the alpha bit where the format has an alpha channel, nothing else.
pub open spec fn flags_for(format: PixelFormat) -> u8 {
    match format {
        PixelFormat::Rgba8 => ALPHA_FLAG,
        PixelFormat::Rgb8 => 0,
    }
}

pub fn attribute_flags(format: PixelFormat) -> (flags: u8)
    ensures
        flags == flags_for(format),
{
    match format {
        PixelFormat::Rgba8 => ALPHA_FLAG,
        PixelFormat::Rgb8 => 0,
    }
}

/// The name under which a surface's framebuffer is bound: its own
/// framebuffer object, or 0, the default framebuffer, where it has none.
pub open spec fn name_of(facts: SurfaceFacts) -> u32 {
    match facts.framebuffer {
        Some(n) => n,
        None => 0,
    }
}

pub fn framebuffer_name(facts: SurfaceFacts) -> (name: u32)
    ensures
        name == name_of(facts),
{
    match facts.framebuffer {
        Some(n) => n,
        None => 0,
    }
}

/// Creates a context of the given OpenGL version on a device and enters it
/// in the ledger under the label of the device. The context is asked for
/// with `flags_for(format)`. Afterwards no context counts as current.
pub fn create_context(
    ledger: &mut Ledger,
    device: &Device,
    label: usize,
    major: u8,
    minor: u8,
    format: PixelFormat,
) -> (r: Result<ContextHandle, ErrorKind>)
    requires
        old(ledger)@.wf(),
    ensures
        final(ledger)@.wf(),
        match r {
            Ok(station) => station.alive() && station.id() == old(ledger)@.contexts.len()
                && final(ledger)@ == old(ledger)@.with_context(label, format),
            Err(e) => e == ErrorKind::ContextCreation && final(ledger)@ == old(ledger)@,
        },
{
    let flags = attribute_flags(format);
    let descriptor = match gpu::create_context_descriptor(device, major, minor, flags) {
        Ok(descriptor) => descriptor,
        Err(_) => {
            return Err(ErrorKind::ContextCreation);
        },
    };
    match gpu::create_context(device, &descriptor) {
        Ok(context) => {
            let key = ledger.create_context(label, format);
            Ok(ContextHandle::new(context, key))
        },
        Err(_) => Err(ErrorKind::ContextCreation),
    }
}

/// The ledger once a context is current and a new surface of the given
/// size is bound to it.
pub open spec fn furnished(before: Book, c: usize, extent: Extent) -> Book {
    before.made_current(c).with_surface(c, extent).bound_to(c, before.surfaces.len() as usize)
}

/// How the ledger stands after furnishing context `c` with a surface has
/// failed. Without currency nothing has changed; from then on the context
/// is current. A surface that was made and could not be bound is entered
/// as detached and handed back. Where the platform names no surface
/// after the bind, that is a failure to bind as well.
pub open spec fn failed_init(before: Book, after: Book, c: usize, extent: Extent, f: Failure) -> bool {
    let current = before.made_current(c);
    match f.kind {
        ErrorKind::Currency => f.leftover is Nothing && after == before,
        ErrorKind::SurfaceCreation => f.leftover is Nothing && after == current,
        ErrorKind::Bind => (f.leftover is Nothing && after == current && before.bound_of(c) is Some)
            || (f.keeps(before.surfaces.len() as usize) && after == current.with_surface(
            c,
            extent,
        )) || (f.leftover is Nothing && after == furnished(before, c, extent)),
        ErrorKind::Integrity => f.leftover is Nothing && (after == current || after == furnished(
            before,
            c,
            extent,
        )),
        _ => false,
    }
}

/// Furnishes a context with a drawable: makes the context current,
/// creates a surface with the access and of the kind given, binds it to
/// the context, and binds the surface's framebuffer, whose name is
/// returned: `name_of` what the platform tells of the bound surface. The
/// driver is asked for its state after the context is made current and
/// after the framebuffer is bound.
///
/// `limit` is the longest side that the driver takes for a texture, as
/// the caller has it from the driver. A context that is released or that
/// the ledger does not know is refused for want of currency; a size
/// that is not drawable or goes beyond the limit as a failure to create
/// the surface; a context that has a surface bound as a failure to bind.
/// All of these are refused before the platform is asked to make or bind
/// anything.
pub fn init(
    ledger: &mut Ledger,
    gl: &Gl,
    device: &Device,
    station: &mut ContextHandle,
    access: SurfaceAccess,
    surface_type: SurfaceType,
    limit: i32,
) -> (r: Result<u32, Failure>)
    requires
        old(ledger)@.wf(),
    ensures
        final(ledger)@.wf(),
        final(station).same(old(station)),
        !old(station).alive() || !old(ledger)@.live(old(station).id()) ==> (r matches Err(f)
            && f.kind == ErrorKind::Currency),
        !surface_type.extent().drawable() || !surface_type.extent().within(limit) ==> (
        r matches Err(f) && (f.kind == ErrorKind::SurfaceCreation || f.kind == ErrorKind::Currency
            || f.kind == ErrorKind::Integrity)),
        old(ledger)@.bound_of(old(station).id()) is Some ==> (r matches Err(f) && (f.kind
            == ErrorKind::Bind || f.kind == ErrorKind::SurfaceCreation || f.kind
            == ErrorKind::Currency || f.kind == ErrorKind::Integrity)),
        match r {
            Ok(_) => final(ledger)@ == furnished(
                old(ledger)@,
                old(station).id(),
                surface_type.extent(),
            ),
            Err(f) => failed_init(
                old(ledger)@,
                final(ledger)@,
                old(station).id(),
                surface_type.extent(),
                f,
            ),
        },
{
    let key = station.key();
    let extent = surface_type.size();
    if !station.is_live() || !ledger.is_live(key) {
        return Err(Failure { kind: ErrorKind::Currency, leftover: Leftover::Nothing });
    }
    match gpu::make_context_current(device, station) {
        Ok(_) => {},
        Err(_) => {
            return Err(Failure { kind: ErrorKind::Currency, leftover: Leftover::Nothing });
        },
    }
    let current = ledger.make_context_current(key);
    assert(current is Ok);
    match check(gl) {
        Ok(_) => {},
        Err(kind) => {
            return Err(Failure { kind, leftover: Leftover::Nothing });
        },
    }
    if !extent.is_drawable() || !extent.is_within(limit) {
        return Err(Failure { kind: ErrorKind::SurfaceCreation, leftover: Leftover::Nothing });
    }
    if ledger.context_surface_info(key).is_some() {
        return Err(Failure { kind: ErrorKind::Bind, leftover: Leftover::Nothing });
    }
    let surface = match gpu::create_surface(device, station, access, surface_type) {
        Ok(surface) => surface,
        Err(_) => {
            return Err(Failure { kind: ErrorKind::SurfaceCreation, leftover: Leftover::Nothing });
        },
    };
    let entered = ledger.create_surface(key, extent);
    assert(entered is Ok);
    let s: usize = match entered {
        Ok(s) => s,
        Err(kind) => {
            return Err(Failure { kind, leftover: Leftover::Surface(Held::new(surface, key)) });
        },
    };
    match gpu::bind_surface_to_context(device, station, Held::new(surface, s)) {
        Ok(_) => {},
        Err((_, surface)) => {
            return Err(
                Failure { kind: ErrorKind::Bind, leftover: Leftover::Surface(Held::new(surface, s)) },
            );
        },
    }
    let bound = ledger.bind_surface_to_context(key, s);
    assert(bound is Ok);
    let facts = match gpu::context_surface_info(device, station) {
        Ok(Some(facts)) => facts,
        _ => {
            return Err(Failure { kind: ErrorKind::Bind, leftover: Leftover::Nothing });
        },
    };
    let name = framebuffer_name(facts);
    gpu::bind_framebuffer(gl, FRAMEBUFFER, name);
    match check(gl) {
        Ok(_) => Ok(name),
        Err(kind) => Err(Failure { kind, leftover: Leftover::Nothing }),
    }
}

/// Makes a live context the current one of the thread, on the platform
/// and in the ledger.
pub fn make_current(ledger: &mut Ledger, device: &Device, station: &ContextHandle) -> (r: Result<
    (),
    ErrorKind,
>)
    requires
        old(ledger)@.wf(),
    ensures
        final(ledger)@.wf(),
        !station.alive() || !old(ledger)@.live(station.id()) ==> r is Err,
        match r {
            Ok(_) => final(ledger)@ == old(ledger)@.made_current(station.id()),
            Err(e) => e == ErrorKind::Currency && final(ledger)@ == old(ledger)@,
        },
{
    if !station.is_live() || !ledger.is_live(station.key()) {
        return Err(ErrorKind::Currency);
    }
    match gpu::make_context_current(device, station) {
        Ok(_) => ledger.make_context_current(station.key()),
        Err(_) => Err(ErrorKind::Currency),
    }
}

/// Clears the colour buffer of the current context's framebuffer to the
/// clear colour in force, which the caller has set to `color`, and
/// records that colour. The framebuffer object named is bound first. A
/// context that is not current is refused before the driver is touched.
/// Where the driver reports a fault, the content counts as unknown.
pub fn clear(ledger: &mut Ledger, gl: &Gl, key: usize, framebuffer: u32, color: Rgba8) -> (r:
    Result<(), ErrorKind>)
    requires
        old(ledger)@.wf(),
    ensures
        final(ledger)@.wf(),
        old(ledger)@.framebuffer_verdict(key) is Some ==> r == Err::<(), ErrorKind>(
            old(ledger)@.framebuffer_verdict(key)->0,
        ) && final(ledger)@ == old(ledger)@,
        old(ledger)@.framebuffer_verdict(key) is None ==> match r {
            Ok(_) => final(ledger)@ == old(ledger)@.filled(key, Some(color)),
            Err(e) => e == ErrorKind::Integrity && final(ledger)@ == old(ledger)@.filled(key, None),
        },
{
    match ledger.framebuffer_of(key) {
        Ok(_) => {},
        Err(kind) => {
            return Err(kind);
        },
    }
    gpu::bind_framebuffer(gl, FRAMEBUFFER, framebuffer);
    gpu::clear(gl, COLOR_BUFFER_BIT);
    match check(gl) {
        Ok(_) => ledger.fill(key, color),
        Err(kind) => {
            ledger.spoil(key);
            Err(kind)
        },
    }
}

/// Binds a detached surface to a live context that has none bound. A
/// refusal hands the surface back.
pub fn bind(ledger: &mut Ledger, device: &Device, station: &mut ContextHandle, held: Held) -> (r:
    Result<(), Failure>)
    requires
        old(ledger)@.wf(),
    ensures
        final(ledger)@.wf(),
        final(station).same(old(station)),
        !old(station).alive() || !held.alive() || !old(ledger)@.can_bind(
            old(station).id(),
            held.id(),
        ) ==> r is Err,
        match r {
            Ok(_) => final(ledger)@ == old(ledger)@.bound_to(old(station).id(), held.id()),
            Err(f) => f.kind == ErrorKind::Bind && f.hands_back(&held) && final(ledger)@ == old(ledger)@,
        },
{
    let key = station.key();
    let s = held.key();
    if !station.is_live() || !held.is_live() || !ledger.may_bind(key, s) {
        return Err(Failure { kind: ErrorKind::Bind, leftover: Leftover::Surface(held) });
    }
    match gpu::bind_surface_to_context(device, station, held) {
        Ok(_) => {
            let bound = ledger.bind_surface_to_context(key, s);
            assert(bound is Ok);
            Ok(())
        },
        Err((_, surface)) => Err(
            Failure { kind: ErrorKind::Bind, leftover: Leftover::Surface(Held::new(surface, s)) },
        ),
    }
}

/// Wraps a detached surface as a texture inside a live context other
/// than the one that had it bound last. The driver is asked for its state
/// first, and a pending fault is reported as such. A refusal hands the
/// surface back.
pub fn import(
    ledger: &mut Ledger,
    gl: &Gl,
    device: &Device,
    station: &mut ContextHandle,
    held: Held,
) -> (r: Result<HeldTexture, Failure>)
    requires
        old(ledger)@.wf(),
    ensures
        final(ledger)@.wf(),
        final(station).same(old(station)),
        !old(station).alive() || !held.alive() || !old(ledger)@.can_import(
            old(station).id(),
            held.id(),
        ) ==> (r matches Err(f) && f.kind == ErrorKind::Import),
        match r {
            Ok(t) => t.surface_id() == held.id() && t.context_id() == old(station).id() && final(ledger)@ == old(ledger)@.with_state(held.id(), Ownership::Imported(old(station).id())),
            Err(f) => (f.kind == ErrorKind::Import || f.kind == ErrorKind::Integrity)
                && f.hands_back(&held) && final(ledger)@ == old(ledger)@,
        },
{
    let key = station.key();
    let s = held.key();
    if !station.is_live() || !held.is_live() || !ledger.may_import(key, s) {
        return Err(Failure { kind: ErrorKind::Import, leftover: Leftover::Surface(held) });
    }
    match check(gl) {
        Ok(_) => {},
        Err(kind) => {
            return Err(Failure { kind, leftover: Leftover::Surface(held) });
        },
    }
    match gpu::create_surface_texture(device, station, held) {
        Ok(texture) => {
            let wrapped = ledger.create_surface_texture(key, s);
            assert(wrapped is Ok);
            Ok(HeldTexture::new(texture, s, key))
        },
        Err((_, surface)) => Err(
            Failure { kind: ErrorKind::Import, leftover: Leftover::Surface(Held::new(surface, s)) },
        ),
    }
}

/// Unwraps a texture inside the live context that holds it and hands back
/// the surface, detached. A refusal hands the texture back.
pub fn release(
    ledger: &mut Ledger,
    device: &Device,
    station: &mut ContextHandle,
    held: HeldTexture,
) -> (r: Result<Held, Failure>)
    requires
        old(ledger)@.wf(),
    ensures
        final(ledger)@.wf(),
        final(station).same(old(station)),
        !old(station).alive() || held.context_id() != old(station).id() || !old(ledger)@.can_release(old(station).id(), held.surface_id()) ==> r is Err,
        match r {
            Ok(h) => h.alive() && h.id() == held.surface_id() && final(ledger)@ == old(ledger)@.with_state(held.surface_id(), Ownership::Detached),
            Err(f) => f.kind == ErrorKind::Import && f.stuck(held.context_id(), held.surface_id())
                && final(ledger)@ == old(ledger)@,
        },
{
    let key = station.key();
    let s = held.surface_key();
    if !station.is_live() || held.context_key() != key || !ledger.may_release(key, s) {
        return Err(Failure { kind: ErrorKind::Import, leftover: Leftover::Texture(held) });
    }
    match gpu::destroy_surface_texture(device, station, held) {
        Ok(surface) => {
            let released = ledger.destroy_surface_texture(key, s);
            assert(released is Ok);
            Ok(Held::new(surface, s))
        },
        Err((_, texture)) => Err(
            Failure {
                kind: ErrorKind::Import,
                leftover: Leftover::Texture(HeldTexture::new(texture, s, key)),
            },
        ),
    }
}

/// Detaches the surface bound to a live context and hands it to the
/// caller.
pub fn detach(ledger: &mut Ledger, device: &Device, station: &mut ContextHandle) -> (r: Result<
    Held,
    ErrorKind,
>)
    requires
        old(ledger)@.wf(),
    ensures
        final(ledger)@.wf(),
        final(station).same(old(station)),
        !old(station).alive() || !old(ledger)@.can_unbind(old(station).id()) ==> r is Err,
        match r {
            Ok(h) => h.alive() && Some(h.id()) == old(ledger)@.contexts[old(station).id() as int].bound && final(ledger)@ == old(ledger)@.unbound(old(station).id()),
            Err(e) => e == ErrorKind::Unbind && final(ledger)@ == old(ledger)@,
        },
{
    let key = station.key();
    if !station.is_live() || ledger.context_surface_info(key).is_none() {
        return Err(ErrorKind::Unbind);
    }
    match gpu::unbind_surface_from_context(device, station) {
        Ok(Some(surface)) => {
            let unbound = ledger.unbind_surface_from_context(key);
            assert(unbound is Ok);
            match unbound {
                Ok(s) => Ok(Held::new(surface, s)),
                Err(kind) => Err(kind),
            }
        },
        _ => Err(ErrorKind::Unbind),
    }
}

/// Reads back the whole framebuffer of the current context, row after
/// row, in the given order of channels with eight bits for each. The
/// framebuffer object named is bound first; the driver is asked for its
/// state before and after the read. Where the ledger knows the one colour
/// that the framebuffer must show, bytes that differ from it are reported
/// as a fault.
pub fn read_back(ledger: &Ledger, gl: &Gl, key: usize, framebuffer: u32, order: ChannelOrder) -> (r:
    Result<Vec<u8>, ErrorKind>)
    requires
        ledger@.wf(),
    ensures
        ledger@.framebuffer_verdict(key) is Some ==> r == Err::<Vec<u8>, ErrorKind>(
            ledger@.framebuffer_verdict(key)->0,
        ),
        ledger@.framebuffer_verdict(key) is None ==> match r {
            Ok(v) => {
                let extent = ledger@.surfaces[ledger@.bound_of(key)->0 as int].extent;
                &&& v@.len() == extent.area() * order.channels()
                &&& ledger@.shown(key) matches Some(color) ==> v@ == solid(extent, color, order)
            },
            Err(e) => e == ErrorKind::Integrity,
        },
{
    let d: usize = match ledger.framebuffer_of(key) {
        Ok(d) => d,
        Err(kind) => {
            return Err(kind);
        },
    };
    let surface = match ledger.surface(d) {
        Some(surface) => surface,
        None => {
            return Err(ErrorKind::Integrity);
        },
    };
    let extent = surface.extent;
    proof {
        assert(ledger@.surface_ok(d as int));
        assert(extent.width * extent.height * order.channels() <= i32::MAX) by (nonlinear_arith)
            requires
                extent.width > 0,
                extent.height > 0,
                extent.width * extent.height * 4 <= i32::MAX,
                0 < order.channels() <= 4,
        ;
    }
    gpu::bind_framebuffer(gl, FRAMEBUFFER, framebuffer);
    match check(gl) {
        Ok(_) => {},
        Err(kind) => {
            return Err(kind);
        },
    }
    let data = gpu::read_pixels(
        gl,
        0,
        0,
        extent.width,
        extent.height,
        order.gl_format(),
        UNSIGNED_BYTE,
    );
    match check(gl) {
        Ok(_) => {},
        Err(kind) => {
            return Err(kind);
        },
    }
    match surface.fill {
        Some(color) => {
            if !is_solid(&data, extent, color, order) {
                return Err(ErrorKind::Integrity);
            }
        },
        None => {},
    }
    Ok(data)
}

/// Releases a detached surface through a live context of its device. A
/// refusal hands the surface back.
pub fn dispose_surface(ledger: &mut Ledger, device: &Device, station: &mut ContextHandle, held: Held) -> (r:
    Result<(), Failure>)
    requires
        old(ledger)@.wf(),
    ensures
        final(ledger)@.wf(),
        final(station).same(old(station)),
        !old(station).alive() || !held.alive() || !old(ledger)@.can_destroy_surface(
            old(station).id(),
            held.id(),
        ) ==> r is Err,
        match r {
            Ok(_) => final(ledger)@ == old(ledger)@.with_state(held.id(), Ownership::Destroyed),
            Err(f) => f.kind == ErrorKind::Lifecycle && f.hands_back(&held) && final(ledger)@
                == old(ledger)@,
        },
{
    let key = station.key();
    let s = held.key();
    let mut held = held;
    if !station.is_live() || !held.is_live() || !ledger.may_destroy_surface(key, s) {
        return Err(Failure { kind: ErrorKind::Lifecycle, leftover: Leftover::Surface(held) });
    }
    match gpu::destroy_surface(device, station, &mut held) {
        Ok(_) => {
            held.retire();
            let destroyed = ledger.destroy_surface(key, s);
            assert(destroyed is Ok);
            Ok(())
        },
        Err(_) => Err(Failure { kind: ErrorKind::Lifecycle, leftover: Leftover::Surface(held) }),
    }
}

/// Releases a live context to which nothing is bound and which holds no
/// texture. Afterwards the handle is no longer live, and is refused
/// wherever it is handed in.
pub fn dispose_context(ledger: &mut Ledger, device: &Device, station: &mut ContextHandle) -> (r:
    Result<(), ErrorKind>)
    requires
        old(ledger)@.wf(),
    ensures
        final(ledger)@.wf(),
        final(station).id() == old(station).id(),
        !old(station).alive() || !old(ledger)@.can_destroy_context(old(station).id()) ==> r
            is Err,
        match r {
            Ok(_) => !final(station).alive() && final(ledger)@ == old(ledger)@.without_context(
                old(station).id(),
            ),
            Err(e) => e == ErrorKind::Lifecycle && final(station).alive() == old(station).alive()
                && final(ledger)@ == old(ledger)@,
        },
{
    let key = station.key();
    if !station.is_live() || !ledger.may_destroy_context(key) {
        return Err(ErrorKind::Lifecycle);
    }
    match gpu::destroy_context(device, station) {
        Ok(_) => {
            station.retire();
            ledger.destroy_context(key)
        },
        Err(_) => Err(ErrorKind::Lifecycle),
    }
}

/// What became of the two halves of a tear-down.
pub struct TornDown {
    pub surface: Result<(), Failure>,
    pub context: Result<(), ErrorKind>,
}

/// Releases a detached surface and then the context through which it is
/// released. A failure to release the surface is reported and does not
/// keep the context from being released.
pub fn teardown(ledger: &mut Ledger, device: &Device, station: &mut ContextHandle, held: Held) -> (r:
    TornDown)
    requires
        old(ledger)@.wf(),
    ensures
        final(ledger)@.wf(),
        final(station).id() == old(station).id(),
        ({
            let key = old(station).id();
            let between = if r.surface is Ok {
                old(ledger)@.with_state(held.id(), Ownership::Destroyed)
            } else {
                old(ledger)@
            };
            &&& !old(station).alive() || !held.alive() || !old(ledger)@.can_destroy_surface(
                key,
                held.id(),
            ) ==> r.surface is Err
            &&& r.surface matches Err(f) ==> f.kind == ErrorKind::Lifecycle && f.hands_back(&held)
            &&& !old(station).alive() || !between.can_destroy_context(key) ==> r.context is Err
            &&& match r.context {
                Ok(_) => !final(station).alive() && final(ledger)@ == between.without_context(key),
                Err(e) => e == ErrorKind::Lifecycle && final(station).alive() == old(station).alive() && final(ledger)@ == between,
            }
        }),
{
    let surface = dispose_surface(ledger, device, station, held);
    let context = dispose_context(ledger, device, station);
    TornDown { surface, context }
}

} // verus!
