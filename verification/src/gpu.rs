use vstd::prelude::*;
use crate::codes::{format_channels, UNSIGNED_BYTE};
use crate::geometry::Extent;
use crate::handles::{ContextHandle, Held, HeldTexture, SurfaceType};
use sparkle::gl::Gl;
use surfman::{Context, ContextDescriptor, Device, Error, Surface, SurfaceAccess, SurfaceTexture};

verus! {

// Everything in this file is believed, not proved: the types of the two
// outside crates that pass through the library, and one function for each
// call that the library makes into them.
#[verifier::external_type_specification]
#[verifier::external_body]
pub struct ExDevice(surfman::Device);

#[verifier::external_type_specification]
#[verifier::external_body]
pub struct ExContext(surfman::Context);

#[verifier::external_type_specification]
#[verifier::external_body]
pub struct ExSurface(surfman::Surface);

#[verifier::external_type_specification]
#[verifier::external_body]
pub struct ExSurfaceTexture(surfman::SurfaceTexture);

#[verifier::external_type_specification]
#[verifier::external_body]
pub struct ExError(surfman::Error);

#[verifier::external_type_specification]
#[verifier::external_body]
pub struct ExGl(sparkle::gl::Gl);

#[verifier::external_type_specification]
#[verifier::external_body]
pub struct ExContextDescriptor(surfman::ContextDescriptor);

#[verifier::external_type_specification]
#[verifier::external_body]
pub struct ExSurfaceAccess(surfman::SurfaceAccess);

/// What the platform tells of a surface: its size, and the framebuffer
/// object through which it is drawn to, where it has one of its own.
#[derive(Clone, Copy, Debug, PartialEq, Eq)]
pub struct SurfaceFacts {
    pub extent: Extent,
    pub framebuffer: Option<u32>,
}

/// Calls `Device::make_context_current` on a live context. Nothing is
/// claimed of the result.
#[verifier::external_body]
pub(crate) fn make_context_current(device: &Device, station: &ContextHandle) -> (r: Result<
    (),
    Error,
>)
    requires
        station.alive(),
{
    device.make_context_current(&station.context)
}

/// Calls `Device::context_surface_info` on a live context and copies the
/// size and the framebuffer object out of what it returns. Nothing is
/// claimed of the result.
#[verifier::external_body]
pub(crate) fn context_surface_info(device: &Device, station: &ContextHandle) -> (r: Result<
    Option<SurfaceFacts>,
    Error,
>)
    requires
        station.alive(),
{
    device.context_surface_info(&station.context).map(
        |found|
            found.map(
                |info|
                    SurfaceFacts {
                        extent: Extent { width: info.size.width, height: info.size.height },
                        framebuffer: info.framebuffer_object.map(|f| f.0.get()),
                    },
            ),
    )
}

/// Calls `Device::surface_info` on a live surface and copies the size and
/// the framebuffer object out of what it returns. Nothing is claimed of
/// the result.
#[verifier::external_body]
pub(crate) fn surface_info(device: &Device, held: &Held) -> (r: SurfaceFacts)
    requires
        held.alive(),
{
    let info = device.surface_info(&held.surface);
    SurfaceFacts {
        extent: Extent { width: info.size.width, height: info.size.height },
        framebuffer: info.framebuffer_object.map(|f| f.0.get()),
    }
}

/// Calls `Device::create_surface_texture` with a live context and a live
/// surface. On failure the surface comes back beside the error, as it
/// was. The outside function expects the driver's error queue to be empty
/// when it is called: the caller asks the driver first. The call leaves
/// the handle of the context as it is; nothing more is claimed.
#[verifier::external_body]
pub(crate) fn create_surface_texture(device: &Device, station: &mut ContextHandle, held: Held) -> (r:
    Result<SurfaceTexture, (Error, Surface)>)
    requires
        old(station).alive(),
        held.alive(),
    ensures
        final(station).same(old(station)),
{
    device.create_surface_texture(&mut station.context, held.surface)
}

/// Calls `Device::destroy_surface_texture` with a live context. On failure
/// the texture comes back beside the error. The call leaves the handle of
/// the context as it is; nothing more is claimed.
#[verifier::external_body]
pub(crate) fn destroy_surface_texture(
    device: &Device,
    station: &mut ContextHandle,
    held: HeldTexture,
) -> (r: Result<Surface, (Error, SurfaceTexture)>)
    requires
        old(station).alive(),
    ensures
        final(station).same(old(station)),
{
    device.destroy_surface_texture(&mut station.context, held.texture)
}

/// Calls `Device::surface_texture_object` and takes the number out of the
/// texture's name. Nothing is claimed of the result.
#[verifier::external_body]
pub(crate) fn surface_texture_object(device: &Device, held: &HeldTexture) -> (r: Option<u32>) {
    device.surface_texture_object(&held.texture).map(|t| t.0.get())
}

/// Calls `Device::surface_gl_texture_target`. Nothing is claimed of the
/// result.
#[verifier::external_body]
pub(crate) fn surface_gl_texture_target(device: &Device) -> (r: u32) {
    device.surface_gl_texture_target()
}

/// Calls `Gl::gen_framebuffers`, which allocates a vector of `n` names and
/// lets the driver fill it: the result has `n` entries.
#[verifier::external_body]
pub(crate) fn gen_framebuffers(gl: &Gl, n: i32) -> (names: Vec<u32>)
    requires
        n >= 0,
    ensures
        names@.len() == n,
{
    gl.gen_framebuffers(n)
}

/// Calls `Gl::bind_framebuffer`.
#[verifier::external_body]
pub(crate) fn bind_framebuffer(gl: &Gl, target: u32, framebuffer: u32) {
    gl.bind_framebuffer(target, framebuffer)
}

/// Calls `Gl::framebuffer_texture_2d`.
#[verifier::external_body]
pub(crate) fn framebuffer_texture_2d(
    gl: &Gl,
    target: u32,
    attachment: u32,
    textarget: u32,
    texture: u32,
    level: i32,
) {
    gl.framebuffer_texture_2d(target, attachment, textarget, texture, level)
}

/// Calls `Gl::check_framebuffer_status`. Nothing is claimed of the result.
#[verifier::external_body]
pub(crate) fn check_framebuffer_status(gl: &Gl, target: u32) -> (status: u32) {
    gl.check_framebuffer_status(target)
}

/// Calls `Gl::get_error`. Nothing is claimed of the result.
#[verifier::external_body]
pub(crate) fn get_error(gl: &Gl) -> (error: u32) {
    gl.get_error()
}

/// Calls `Gl::viewport`.
#[verifier::external_body]
pub(crate) fn viewport(gl: &Gl, x: i32, y: i32, width: i32, height: i32) {
    gl.viewport(x, y, width, height)
}

/// Calls `Gl::clear`.
#[verifier::external_body]
pub(crate) fn clear(gl: &Gl, mask: u32) {
    gl.clear(mask)
}

/// Calls `Gl::blit_framebuffer`.
#[verifier::external_body]
pub(crate) fn blit_framebuffer(
    gl: &Gl,
    src_x0: i32,
    src_y0: i32,
    src_x1: i32,
    src_y1: i32,
    dst_x0: i32,
    dst_y0: i32,
    dst_x1: i32,
    dst_y1: i32,
    mask: u32,
    filter: u32,
) {
    gl.blit_framebuffer(
        src_x0,
        src_y0,
        src_x1,
        src_y1,
        dst_x0,
        dst_y0,
        dst_x1,
        dst_y1,
        mask,
        filter,
    )
}

/// Calls `Gl::read_pixels`, which allocates width times height times the
/// bytes of one pixel and lets the driver fill them: the result has that
/// length. The call is limited to components of eight bits, to the four
/// formats that this library reads, and to sizes for which that product
/// stays within the 32 bits in which the outside function computes it.
#[verifier::external_body]
pub(crate) fn read_pixels(
    gl: &Gl,
    x: i32,
    y: i32,
    width: i32,
    height: i32,
    format: u32,
    pixel_type: u32,
) -> (data: Vec<u8>)
    requires
        width >= 0,
        height >= 0,
        format_channels(format) > 0,
        pixel_type == UNSIGNED_BYTE,
        width * height * format_channels(format) <= i32::MAX,
    ensures
        data@.len() == width * height * format_channels(format),
{
    gl.read_pixels(x, y, width, height, format, pixel_type)
}

/// Calls `Device::create_context_descriptor` with the version and the
/// attribute flags given. Nothing is claimed of the result.
#[verifier::external_body]
pub(crate) fn create_context_descriptor(device: &Device, major: u8, minor: u8, flags: u8) -> (r:
    Result<ContextDescriptor, Error>) {
    let attributes = surfman::ContextAttributes {
        version: surfman::GLVersion::new(major, minor),
        flags: surfman::ContextAttributeFlags::from_bits_truncate(flags),
    };
    device.create_context_descriptor(&attributes)
}

/// Calls `Device::create_context` for a context that shares with no
/// other. The outside function makes the new context current before it
/// returns. Nothing is claimed of the result.
#[verifier::external_body]
pub(crate) fn create_context(device: &Device, descriptor: &ContextDescriptor) -> (r: Result<
    Context,
    Error,
>) {
    device.create_context(descriptor, None)
}

/// Calls `Device::create_surface` through a live context, for a surface
/// with sides above zero, with the access and of the kind given. The
/// outside function expects the driver to take a texture of that size:
/// the caller refuses sizes beyond the driver's limit first. Nothing is
/// claimed of the result.
#[verifier::external_body]
pub(crate) fn create_surface(
    device: &Device,
    station: &ContextHandle,
    access: SurfaceAccess,
    surface_type: SurfaceType,
) -> (r: Result<Surface, Error>)
    requires
        station.alive(),
        surface_type.extent().width > 0,
        surface_type.extent().height > 0,
{
    let SurfaceType::Generic { size } = surface_type;
    let size = euclid::default::Size2D::new(size.width, size.height);
    device.create_surface(&station.context, access, surfman::SurfaceType::Generic { size })
}

/// Calls `Device::bind_surface_to_context` with a live context and a live
/// surface. On failure the surface comes back beside the error, as it
/// was. The call leaves the handle of the context as it is; nothing more
/// is claimed.
#[verifier::external_body]
pub(crate) fn bind_surface_to_context(device: &Device, station: &mut ContextHandle, held: Held) -> (r:
    Result<(), (Error, Surface)>)
    requires
        old(station).alive(),
        held.alive(),
    ensures
        final(station).same(old(station)),
{
    device.bind_surface_to_context(&mut station.context, held.surface)
}

/// Calls `Device::unbind_surface_from_context` on a live context. The call
/// leaves the handle of the context as it is; nothing more is claimed.
#[verifier::external_body]
pub(crate) fn unbind_surface_from_context(device: &Device, station: &mut ContextHandle) -> (r:
    Result<Option<Surface>, Error>)
    requires
        old(station).alive(),
    ensures
        final(station).same(old(station)),
{
    device.unbind_surface_from_context(&mut station.context)
}

/// Calls `Device::destroy_surface` with a live context and a live
/// surface. The call leaves both handles as they are; nothing more is
/// claimed.
#[verifier::external_body]
pub(crate) fn destroy_surface(device: &Device, station: &mut ContextHandle, held: &mut Held) -> (r:
    Result<(), Error>)
    requires
        old(station).alive(),
        old(held).alive(),
    ensures
        final(station).same(old(station)),
        final(held).same(old(held)),
{
    device.destroy_surface(&mut station.context, &mut held.surface)
}

/// Calls `Device::destroy_context` on a live context. The call leaves the
/// handle as it is; nothing more is claimed.
#[verifier::external_body]
pub(crate) fn destroy_context(device: &Device, station: &mut ContextHandle) -> (r: Result<
    (),
    Error,
>)
    requires
        old(station).alive(),
    ensures
        final(station).same(old(station)),
{
    device.destroy_context(&mut station.context)
}

} // verus!
