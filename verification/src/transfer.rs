use vstd::prelude::*;
use crate::codes::{COLOR_ATTACHMENT0, COLOR_BUFFER_BIT, DRAW_FRAMEBUFFER, NEAREST, READ_FRAMEBUFFER};
use crate::error::ErrorKind;
use crate::geometry::Rect;
use crate::gpu;
use crate::gpu::SurfaceFacts;
use crate::handles::{ContextHandle, Failure, Held, HeldTexture, Leftover};
use crate::ledger::{Book, Ledger, Ownership};
use crate::lifecycle::{framebuffer_name, import, name_of, release};
use crate::validator::check;
use sparkle::gl::Gl;
use surfman::Device;

verus! {

/// Everything that the driver is told for one copy of a texture into a
/// framebuffer.
#[derive(Clone, Copy, Debug, PartialEq, Eq)]
pub struct CopyCall {
    /// Name of the framebuffer drawn into.
    pub draw: u32,
    /// Name of the texture read from.
    pub texture: u32,
    /// Texture target under which the texture is attached.
    pub target: u32,
    /// Attachment point of the read framebuffer that takes the texture.
    pub attachment: u32,
    /// Mipmap level of the texture.
    pub level: i32,
    /// Rectangle read, and rectangle written.
    pub area: Rect,
    /// Buffers copied.
    pub mask: u32,
    /// Sampling.
    pub filter: u32,
}

/// The call that copies a wrapped surface over the whole destination: the
/// destination's own framebuffer is drawn into; the texture, or no
/// texture where the platform names none, is attached under the target
/// that the platform asks for, at the first colour attachment and level
/// 0; the colour buffer alone is copied, rectangle onto equal rectangle,
/// nearest pixel.
pub open spec fn call_for(destination: SurfaceFacts, texture: Option<u32>, target: u32, rect: Rect) -> CopyCall {
    CopyCall {
        draw: name_of(destination),
        texture: match texture {
            Some(t) => t,
            None => 0,
        },
        target,
        attachment: COLOR_ATTACHMENT0,
        level: 0,
        area: rect,
        mask: COLOR_BUFFER_BIT,
        filter: NEAREST,
    }
}

pub fn copy_call(destination: SurfaceFacts, texture: Option<u32>, target: u32, rect: Rect) -> (c:
    CopyCall)
    ensures
        c == call_for(destination, texture, target, rect),
{
    CopyCall {
        draw: framebuffer_name(destination),
        texture: match texture {
            Some(t) => t,
            None => 0,
        },
        target,
        attachment: COLOR_ATTACHMENT0,
        level: 0,
        area: rect,
        mask: COLOR_BUFFER_BIT,
        filter: NEAREST,
    }
}

/// Decides from what the platform tells of the two surfaces whether a copy
/// may go ahead, and over which rectangle: the whole destination, which
/// must have the size of the source.
pub fn copy_rect(destination: Option<SurfaceFacts>, source: SurfaceFacts) -> (r: Result<
    Rect,
    ErrorKind,
>)
    ensures
        match r {
            Ok(rect) => destination matches Some(d) && d.extent == source.extent && rect
                == d.extent.full(),
            Err(e) => match destination {
                None => e == ErrorKind::UnboundDestination,
                Some(d) => d.extent != source.extent && e == ErrorKind::SizeMismatch,
            },
        },
{
    match destination {
        None => Err(ErrorKind::UnboundDestination),
        Some(d) => {
            if d.extent == source.extent {
                Ok(d.extent.full_rect())
            } else {
                Err(ErrorKind::SizeMismatch)
            }
        },
    }
}

/// How the ledger stands after a transfer of a surface into context `c`
/// has failed. Without currency, or for a surface that the platform has
/// released, nothing has changed. A transfer that was refused before the
/// surface was wrapped has only made the context current. After that the
/// content of the destination counts as unknown, unless the copy went
/// through and only the unwrapping failed; where the texture could not be
/// unwrapped, the context still holds it. In every other case the surface
/// is handed back as it came.
pub open spec fn failed_transfer(before: Book, after: Book, c: usize, held: &Held, f: Failure) -> bool {
    let s = held.id();
    let current = before.made_current(c);
    match f.kind {
        ErrorKind::Currency => f.hands_back(held) && after == before,
        ErrorKind::UnboundDestination | ErrorKind::SizeMismatch => f.hands_back(held) && after
            == current,
        ErrorKind::Import => (f.hands_back(held) && (after == current || (!held.alive() && after
            == before))) || (f.stuck(c, s) && after == before.transferred(c, s).with_state(
            s,
            Ownership::Imported(c),
        )),
        ErrorKind::Integrity => (f.hands_back(held) && (after == current || after
            == current.filled(c, None))) || (f.stuck(c, s) && after == current.filled(
            c,
            None,
        ).with_state(s, Ownership::Imported(c))),
        _ => false,
    }
}

/// Gives up a transfer after the surface was wrapped: the content of the
/// destination counts as unknown from here on, and the texture is
/// unwrapped so that the surface can be handed back.
fn abandon(ledger: &mut Ledger, device: &Device, station: &mut ContextHandle, texture: HeldTexture) -> (f:
    Failure)
    requires
        old(ledger)@.wf(),
        old(station).alive(),
        texture.context_id() == old(station).id(),
        old(ledger)@.can_release(old(station).id(), texture.surface_id()),
        old(ledger)@.bound_of(old(station).id()) is Some,
    ensures
        final(ledger)@.wf(),
        final(station).same(old(station)),
        f.kind == ErrorKind::Integrity,
        f.keeps(texture.surface_id()) || f.stuck(old(station).id(), texture.surface_id()),
        f.keeps(texture.surface_id()) ==> final(ledger)@ == old(ledger)@.filled(
            old(station).id(),
            None,
        ).with_state(texture.surface_id(), Ownership::Detached),
        f.stuck(old(station).id(), texture.surface_id()) ==> final(ledger)@ == old(ledger)@.filled(old(station).id(), None),
{
    let key = station.key();
    ledger.spoil(key);
    proof {
        assert(old(ledger)@.context_ok(key as int));
        assert(ledger@.can_release(key, texture.surface_id()));
    }
    match release(ledger, device, station, texture) {
        Ok(held) => Failure { kind: ErrorKind::Integrity, leftover: Leftover::Surface(held) },
        Err(f) => Failure { kind: ErrorKind::Integrity, leftover: f.leftover },
    }
}

/// Copies the pixels of a detached surface into the surface bound to a
/// context, without passing them through the CPU, and hands the surface
/// back.
///
/// The context is made current. The surface is wrapped as a texture inside
/// it and attached to a new read framebuffer; the context's own
/// framebuffer is the draw target. The viewport is set to the whole
/// destination, which is cleared, and the whole source is copied over it.
/// What the driver is told for the copy is `call_for` what the platform
/// tells of the destination and of the texture. Before the surface is
/// wrapped and after each later step the driver is asked whether the
/// framebuffer is complete and its error queue empty; a bad answer ends
/// the transfer. Last the texture is unwrapped.
///
/// The ledger is asked before the platform: a transfer that it refuses
/// is refused here for the same reason, unless the platform already fails
/// to make the context current. Whatever the platform answers, a failure
/// hands back the surface, or the texture where it could not be unwrapped.
pub fn challenge(
    ledger: &mut Ledger,
    gl: &Gl,
    device: &Device,
    station: &mut ContextHandle,
    held: Held,
) -> (r: Result<Held, Failure>)
    requires
        old(ledger)@.wf(),
    ensures
        final(ledger)@.wf(),
        final(station).same(old(station)),
        !old(station).alive() ==> (r matches Err(f) && f.kind == ErrorKind::Currency),
        !held.alive() ==> (r matches Err(f) && (f.kind == ErrorKind::Import || f.kind
            == ErrorKind::Currency)),
        held.alive() && old(ledger)@.transfer_verdict(old(station).id(), held.id()) is Some ==> (
        r matches Err(f) && (f.kind == old(ledger)@.transfer_verdict(
            old(station).id(),
            held.id(),
        )->0 || f.kind == ErrorKind::Currency)),
        match r {
            Ok(h) => h.alive() && h.id() == held.id() && final(ledger)@ == old(ledger)@.transferred(old(station).id(), held.id()),
            Err(f) => failed_transfer(old(ledger)@, final(ledger)@, old(station).id(), &held, f),
        },
{
    let key = station.key();
    let s = held.key();
    if !station.is_live() || !ledger.is_live(key) {
        return Err(Failure { kind: ErrorKind::Currency, leftover: Leftover::Surface(held) });
    }
    if !held.is_live() {
        return Err(Failure { kind: ErrorKind::Import, leftover: Leftover::Surface(held) });
    }
    match gpu::make_context_current(device, station) {
        Ok(_) => {},
        Err(_) => {
            return Err(Failure { kind: ErrorKind::Currency, leftover: Leftover::Surface(held) });
        },
    }
    let current = ledger.make_context_current(key);
    assert(current is Ok);
    match ledger.check_transfer(key, s) {
        Some(kind) => {
            return Err(Failure { kind, leftover: Leftover::Surface(held) });
        },
        None => {},
    }
    let destination = match gpu::context_surface_info(device, station) {
        Ok(found) => found,
        Err(_) => {
            return Err(Failure { kind: ErrorKind::Integrity, leftover: Leftover::Surface(held) });
        },
    };
    let source = gpu::surface_info(device, &held);
    let rect = match copy_rect(destination, source) {
        Ok(rect) => rect,
        Err(kind) => {
            return Err(Failure { kind, leftover: Leftover::Surface(held) });
        },
    };
    let texture = match import(ledger, gl, device, station, held) {
        Ok(texture) => texture,
        Err(f) => {
            return Err(f);
        },
    };
    let ghost midway = ledger@;
    proof {
        assert(old(ledger)@.context_ok(key as int));
        assert(midway.bound_of(key) is Some);
        assert(midway.bound_of(key)->0 != s);
    }
    let call = copy_call(
        destination.unwrap(),
        gpu::surface_texture_object(device, &texture),
        gpu::surface_gl_texture_target(device),
        rect,
    );
    let names = gpu::gen_framebuffers(gl, 1);
    let read_fbo = names[0];
    gpu::bind_framebuffer(gl, READ_FRAMEBUFFER, read_fbo);
    gpu::framebuffer_texture_2d(
        gl,
        READ_FRAMEBUFFER,
        call.attachment,
        call.target,
        call.texture,
        call.level,
    );
    if check(gl).is_err() {
        let f = abandon(ledger, device, station, texture);
        proof {
            lemma_abandoned(old(ledger)@, ledger@, key, &held, f);
        }
        return Err(f);
    }
    gpu::bind_framebuffer(gl, DRAW_FRAMEBUFFER, call.draw);
    if check(gl).is_err() {
        let f = abandon(ledger, device, station, texture);
        proof {
            lemma_abandoned(old(ledger)@, ledger@, key, &held, f);
        }
        return Err(f);
    }
    gpu::viewport(gl, call.area.x0, call.area.y0, call.area.x1, call.area.y1);
    gpu::clear(gl, call.mask);
    gpu::blit_framebuffer(
        gl,
        call.area.x0,
        call.area.y0,
        call.area.x1,
        call.area.y1,
        call.area.x0,
        call.area.y0,
        call.area.x1,
        call.area.y1,
        call.mask,
        call.filter,
    );
    if check(gl).is_err() {
        let f = abandon(ledger, device, station, texture);
        proof {
            lemma_abandoned(old(ledger)@, ledger@, key, &held, f);
        }
        return Err(f);
    }
    let copied = ledger.blit(key, s);
    assert(copied is Ok);
    proof {
        assert(ledger@.surfaces =~= old(ledger)@.transferred(key, s).with_state(
            s,
            Ownership::Imported(key),
        ).surfaces);
    }
    match release(ledger, device, station, texture) {
        Ok(held) => {
            proof {
                assert(ledger@.surfaces =~= old(ledger)@.transferred(key, s).surfaces);
            }
            Ok(held)
        },
        Err(f) => Err(f),
    }
}

/// Where a transfer that the ledger admitted is given up after the
/// surface was wrapped, the ledger stands as a failure for want of
/// integrity leaves it.
proof fn lemma_abandoned(before: Book, after: Book, c: usize, held: &Held, f: Failure)
    requires
        before.wf(),
        before.live(c),
        held.alive(),
        before.made_current(c).transfer_verdict(c, held.id()) is None,
        f.kind == ErrorKind::Integrity,
        f.keeps(held.id()) || f.stuck(c, held.id()),
        f.keeps(held.id()) ==> after == before.made_current(c).with_state(
            held.id(),
            Ownership::Imported(c),
        ).filled(c, None).with_state(held.id(), Ownership::Detached),
        f.stuck(c, held.id()) ==> after == before.made_current(c).with_state(
            held.id(),
            Ownership::Imported(c),
        ).filled(c, None),
    ensures
        failed_transfer(before, after, c, held, f),
{
    let s = held.id();
    assert(before.context_ok(c as int));
    let d = before.contexts[c as int].bound->0;
    assert(d != s);
    if f.keeps(s) {
        assert(after.surfaces =~= before.made_current(c).filled(c, None).surfaces);
    } else {
        assert(after.surfaces =~= before.made_current(c).filled(c, None).with_state(
            s,
            Ownership::Imported(c),
        ).surfaces);
    }
}

} // verus!
