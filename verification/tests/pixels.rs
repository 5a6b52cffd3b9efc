use surface_transfer::codes;
use surface_transfer::error::ErrorKind;
use surface_transfer::geometry::{Extent, Rect};
use surface_transfer::gpu::SurfaceFacts;
use surface_transfer::handles::SurfaceType;
use surface_transfer::lifecycle::{attribute_flags, framebuffer_name};
use surface_transfer::pixel::{is_solid, solid_image, ChannelOrder, PixelFormat, Rgba8};
use surface_transfer::transfer::{copy_call, copy_rect, CopyCall};
use surface_transfer::validator::validate;

#[test]
fn channels_follow_the_order() {
    let c = Rgba8::new(1, 2, 3, 4);
    assert_eq!(c.encode(ChannelOrder::Rgb), [1, 2, 3]);
    assert_eq!(c.encode(ChannelOrder::Bgr), [3, 2, 1]);
    assert_eq!(c.encode(ChannelOrder::Rgba), [1, 2, 3, 4]);
    assert_eq!(c.encode(ChannelOrder::Bgra), [3, 2, 1, 4]);
    assert_eq!(ChannelOrder::Rgb.channel_count(), 3);
    assert_eq!(ChannelOrder::Bgr.channel_count(), 3);
    assert_eq!(ChannelOrder::Rgba.channel_count(), 4);
    assert_eq!(ChannelOrder::Bgra.channel_count(), 4);
}

#[test]
fn red_two_by_two_in_reverse_order() {
    let red = Rgba8::new(255, 0, 0, 255);
    let image = solid_image(Extent::new(2, 2), red, ChannelOrder::Bgra).unwrap();
    assert_eq!(image, [0, 0, 255, 255, 0, 0, 255, 255, 0, 0, 255, 255, 0, 0, 255, 255]);
    assert!(is_solid(&image, Extent::new(2, 2), red, ChannelOrder::Bgra));
}

#[test]
fn solid_image_has_one_pixel_for_each_place() {
    let c = Rgba8::new(9, 8, 7, 6);
    assert_eq!(solid_image(Extent::new(3, 1), c, ChannelOrder::Rgb).unwrap(), [9, 8, 7, 9, 8, 7, 9, 8, 7]);
    assert_eq!(solid_image(Extent::new(0, 5), c, ChannelOrder::Rgba).unwrap(), Vec::<u8>::new());
    assert_eq!(solid_image(Extent::new(-1, 5), c, ChannelOrder::Rgba), None);
    assert_eq!(solid_image(Extent::new(5, -1), c, ChannelOrder::Rgba), None);
}

#[test]
fn is_solid_tells_apart() {
    let c = Rgba8::new(9, 8, 7, 6);
    let size = Extent::new(1, 2);
    assert!(is_solid(&vec![9, 8, 7, 6, 9, 8, 7, 6], size, c, ChannelOrder::Rgba));
    assert!(!is_solid(&vec![9, 8, 7, 6, 9, 8, 7, 5], size, c, ChannelOrder::Rgba));
    assert!(!is_solid(&vec![9, 8, 7, 6], size, c, ChannelOrder::Rgba));
    assert!(!is_solid(&vec![9, 8, 7, 6, 9, 8, 7, 6], size, c, ChannelOrder::Bgra));
    assert!(!is_solid(&vec![9, 8, 7, 6, 9, 8, 7, 6], Extent::new(2, 2), c, ChannelOrder::Rgba));
    assert!(!is_solid(&vec![], Extent::new(-1, 0), c, ChannelOrder::Rgba));
    assert!(is_solid(&vec![], Extent::new(0, 0), c, ChannelOrder::Rgba));
}

#[test]
fn byte_len_is_the_product() {
    assert_eq!(Extent::new(2, 2).byte_len(4), Some(16));
    assert_eq!(Extent::new(640, 480).byte_len(3), Some(921600));
    assert_eq!(Extent::new(0, 480).byte_len(3), Some(0));
    assert_eq!(Extent::new(7, 1).byte_len(0), Some(0));
    assert_eq!(Extent::new(-2, 2).byte_len(4), None);
    assert_eq!(Extent::new(2, -2).byte_len(4), None);
}

#[test]
fn drawable_extents() {
    assert!(Extent::new(1, 1).is_drawable());
    assert!(Extent::new(2, 2).is_drawable());
    assert!(!Extent::new(0, 1).is_drawable());
    assert!(!Extent::new(1, 0).is_drawable());
    assert!(!Extent::new(-4, -4).is_drawable());
    // 23170 * 23170 * 4 is just under 2^31, 23171 * 23171 * 4 just over.
    assert!(Extent::new(23170, 23170).is_drawable());
    assert!(!Extent::new(23171, 23171).is_drawable());
    assert!(Extent::new(536870911, 1).is_drawable());
    assert!(!Extent::new(536870912, 1).is_drawable());
    assert!(!Extent::new(i32::MAX, i32::MAX).is_drawable());
}

#[test]
fn full_rect_starts_at_the_origin() {
    assert_eq!(Extent::new(2, 3).full_rect(), Rect { x0: 0, y0: 0, x1: 2, y1: 3 });
}

#[test]
fn validate_wants_both_answers_good() {
    assert_eq!(validate(codes::FRAMEBUFFER_COMPLETE, codes::NO_ERROR), Ok(()));
    assert_eq!(validate(0x8CD6, codes::NO_ERROR), Err(ErrorKind::Integrity));
    assert_eq!(validate(codes::FRAMEBUFFER_COMPLETE, 0x0502), Err(ErrorKind::Integrity));
    assert_eq!(validate(0, 0x0505), Err(ErrorKind::Integrity));
    assert_eq!(validate(0, 0), Err(ErrorKind::Integrity));
}

#[test]
fn copy_rect_covers_equal_surfaces() {
    let two = SurfaceFacts { extent: Extent::new(2, 2), framebuffer: Some(3) };
    let other = SurfaceFacts { extent: Extent::new(2, 2), framebuffer: None };
    let wide = SurfaceFacts { extent: Extent::new(4, 2), framebuffer: Some(1) };
    assert_eq!(copy_rect(Some(two), other), Ok(Rect { x0: 0, y0: 0, x1: 2, y1: 2 }));
    assert_eq!(copy_rect(Some(wide), wide), Ok(Rect { x0: 0, y0: 0, x1: 4, y1: 2 }));
    assert_eq!(copy_rect(Some(two), wide), Err(ErrorKind::SizeMismatch));
    assert_eq!(copy_rect(Some(wide), two), Err(ErrorKind::SizeMismatch));
    assert_eq!(copy_rect(None, two), Err(ErrorKind::UnboundDestination));
}

#[test]
fn codes_are_those_of_the_bindings() {
    assert_eq!(codes::FRAMEBUFFER_COMPLETE, sparkle::gl::FRAMEBUFFER_COMPLETE);
    assert_eq!(codes::NO_ERROR, sparkle::gl::NO_ERROR);
    assert_eq!(codes::FRAMEBUFFER, sparkle::gl::FRAMEBUFFER);
    assert_eq!(codes::READ_FRAMEBUFFER, sparkle::gl::READ_FRAMEBUFFER);
    assert_eq!(codes::DRAW_FRAMEBUFFER, sparkle::gl::DRAW_FRAMEBUFFER);
    assert_eq!(codes::COLOR_ATTACHMENT0, sparkle::gl::COLOR_ATTACHMENT0);
    assert_eq!(codes::COLOR_BUFFER_BIT, sparkle::gl::COLOR_BUFFER_BIT);
    assert_eq!(codes::NEAREST, sparkle::gl::NEAREST);
    assert_eq!(codes::UNSIGNED_BYTE, sparkle::gl::UNSIGNED_BYTE);
    assert_eq!(codes::RGB, sparkle::gl::RGB);
    assert_eq!(codes::RGBA, sparkle::gl::RGBA);
    assert_eq!(codes::BGR, sparkle::gl::BGR);
    assert_eq!(codes::BGRA, sparkle::gl::BGRA);
    assert_eq!(codes::ALPHA_FLAG, surfman::ContextAttributeFlags::ALPHA.bits());
}

#[test]
fn orders_map_to_their_codes() {
    assert_eq!(ChannelOrder::Rgb.gl_format(), sparkle::gl::RGB);
    assert_eq!(ChannelOrder::Bgr.gl_format(), sparkle::gl::BGR);
    assert_eq!(ChannelOrder::Rgba.gl_format(), sparkle::gl::RGBA);
    assert_eq!(ChannelOrder::Bgra.gl_format(), sparkle::gl::BGRA);
}

#[test]
fn alpha_is_asked_for_where_the_format_has_it() {
    assert_eq!(attribute_flags(PixelFormat::Rgba8), surfman::ContextAttributeFlags::ALPHA.bits());
    assert_eq!(attribute_flags(PixelFormat::Rgba8), 1);
    assert_eq!(attribute_flags(PixelFormat::Rgb8), 0);
}

#[test]
fn framebuffer_name_is_the_object_or_the_default() {
    let own = SurfaceFacts { extent: Extent::new(2, 2), framebuffer: Some(7) };
    let none = SurfaceFacts { extent: Extent::new(2, 2), framebuffer: None };
    assert_eq!(framebuffer_name(own), 7);
    assert_eq!(framebuffer_name(none), 0);
}

#[test]
fn copy_call_is_put_together_from_what_the_platform_tells() {
    let destination = SurfaceFacts { extent: Extent::new(2, 3), framebuffer: Some(5) };
    let rect = Extent::new(2, 3).full_rect();
    assert_eq!(
        copy_call(destination, Some(9), 0x0DE1, rect),
        CopyCall {
            draw: 5,
            texture: 9,
            target: 0x0DE1,
            attachment: sparkle::gl::COLOR_ATTACHMENT0,
            level: 0,
            area: Rect { x0: 0, y0: 0, x1: 2, y1: 3 },
            mask: sparkle::gl::COLOR_BUFFER_BIT,
            filter: sparkle::gl::NEAREST,
        }
    );
    let bare = SurfaceFacts { extent: Extent::new(2, 3), framebuffer: None };
    let call = copy_call(bare, None, 0x84F5, rect);
    assert_eq!(call.draw, 0);
    assert_eq!(call.texture, 0);
    assert_eq!(call.target, 0x84F5);
}

#[test]
fn extent_within_a_limit() {
    assert!(Extent::new(2, 2).is_within(2));
    assert!(Extent::new(2, 2).is_within(16384));
    assert!(!Extent::new(3, 2).is_within(2));
    assert!(!Extent::new(2, 3).is_within(2));
    assert!(!Extent::new(100000, 1).is_within(16384));
    assert!(!Extent::new(1, 1).is_within(0));
}

#[test]
fn generic_surface_type_has_its_size() {
    assert_eq!(SurfaceType::Generic { size: Extent::new(2, 5) }.size(), Extent::new(2, 5));
}
