use surface_transfer::error::ErrorKind;
use surface_transfer::geometry::Extent;
use surface_transfer::ledger::{BoundInfo, Ledger, Ownership};
use surface_transfer::pixel::{ChannelOrder, PixelFormat, Rgba8};

const RED: Rgba8 = Rgba8 { r: 255, g: 0, b: 0, a: 255 };
const GREY: Rgba8 = Rgba8 { r: 128, g: 128, b: 128, a: 255 };

/// Two contexts on two devices, each with a bound surface of the given size.
fn two_stations(first: Extent, second: Extent) -> (Ledger, usize, usize, usize, usize) {
    let mut ledger = Ledger::new();
    let a = ledger.create_context(0, PixelFormat::Rgba8);
    let sa = ledger.create_surface(a, first).unwrap();
    ledger.bind_surface_to_context(a, sa).unwrap();
    let b = ledger.create_context(1, PixelFormat::Rgba8);
    let sb = ledger.create_surface(b, second).unwrap();
    ledger.bind_surface_to_context(b, sb).unwrap();
    (ledger, a, sa, b, sb)
}

#[test]
fn new_ledger_is_empty() {
    let ledger = Ledger::new();
    assert_eq!(ledger.current_context(), None);
    assert_eq!(ledger.context(0), None);
    assert_eq!(ledger.surface(0), None);
    assert!(!ledger.is_live(0));
}

#[test]
fn handles_count_up_from_zero() {
    let mut ledger = Ledger::new();
    assert_eq!(ledger.create_context(7, PixelFormat::Rgba8), 0);
    assert_eq!(ledger.create_context(7, PixelFormat::Rgb8), 1);
    assert_eq!(ledger.create_surface(1, Extent::new(3, 5)), Ok(0));
    assert_eq!(ledger.create_surface(0, Extent::new(1, 1)), Ok(1));
    let first = ledger.surface(0).unwrap();
    assert_eq!(first.extent, Extent { width: 3, height: 5 });
    assert_eq!(first.format, PixelFormat::Rgb8);
    assert_eq!(first.device, 7);
    assert_eq!(first.state, Ownership::Detached);
    assert_eq!(first.last_bound, None);
    assert_eq!(first.fill, None);
}

#[test]
fn red_surface_turns_grey_destination_red() {
    let size = Extent::new(2, 2);
    let (mut ledger, a, sa, b, _sb) = two_stations(size, size);
    ledger.make_context_current(a).unwrap();
    ledger.fill(a, RED).unwrap();
    assert_eq!(ledger.unbind_surface_from_context(a), Ok(sa));
    ledger.make_context_current(b).unwrap();
    ledger.fill(b, GREY).unwrap();
    assert_eq!(ledger.transfer(b, sa), Ok(()));
    let data = ledger.read_pixels(b, ChannelOrder::Bgra).unwrap();
    assert_eq!(data, [0, 0, 255, 255, 0, 0, 255, 255, 0, 0, 255, 255, 0, 0, 255, 255]);
    assert_eq!(ledger.surface(sa).unwrap().state, Ownership::Detached);
    assert_eq!(ledger.current_context(), Some(b));
}

#[test]
fn destination_colour_before_transfer_does_not_matter() {
    let size = Extent::new(3, 1);
    for prior in [GREY, Rgba8::new(1, 2, 3, 4), RED] {
        let (mut ledger, a, sa, b, _sb) = two_stations(size, size);
        ledger.make_context_current(b).unwrap();
        ledger.fill(b, prior).unwrap();
        ledger.make_context_current(a).unwrap();
        ledger.fill(a, Rgba8::new(10, 20, 30, 40)).unwrap();
        ledger.unbind_surface_from_context(a).unwrap();
        ledger.transfer(b, sa).unwrap();
        assert_eq!(
            ledger.read_pixels(b, ChannelOrder::Rgba).unwrap(),
            [10, 20, 30, 40, 10, 20, 30, 40, 10, 20, 30, 40]
        );
    }
}

#[test]
fn bound_surface_cannot_be_imported() {
    let size = Extent::new(2, 2);
    let (mut ledger, _a, sa, b, _sb) = two_stations(size, size);
    assert_eq!(ledger.create_surface_texture(b, sa), Err(ErrorKind::Import));
    assert_eq!(ledger.surface(sa).unwrap().state, Ownership::Bound(0));
}

#[test]
fn surface_cannot_be_imported_where_it_was_bound_last() {
    let size = Extent::new(2, 2);
    let (mut ledger, a, sa, _b, _sb) = two_stations(size, size);
    ledger.unbind_surface_from_context(a).unwrap();
    assert_eq!(ledger.create_surface_texture(a, sa), Err(ErrorKind::Import));
}

#[test]
fn import_needs_the_same_format() {
    let mut ledger = Ledger::new();
    let a = ledger.create_context(0, PixelFormat::Rgba8);
    let b = ledger.create_context(1, PixelFormat::Rgb8);
    let s = ledger.create_surface(a, Extent::new(2, 2)).unwrap();
    assert_eq!(ledger.create_surface_texture(b, s), Err(ErrorKind::Import));
    assert_eq!(ledger.create_surface_texture(a, s), Ok(()));
}

#[test]
fn import_and_release_give_the_surface_back() {
    let size = Extent::new(4, 3);
    let (mut ledger, a, sa, b, _sb) = two_stations(size, size);
    ledger.unbind_surface_from_context(a).unwrap();
    let before = ledger.surface(sa).unwrap();
    assert_eq!(ledger.create_surface_texture(b, sa), Ok(()));
    assert_eq!(ledger.surface(sa).unwrap().state, Ownership::Imported(b));
    assert_eq!(ledger.bind_surface_to_context(a, sa), Err(ErrorKind::Bind));
    assert_eq!(ledger.destroy_surface(a, sa), Err(ErrorKind::Lifecycle));
    assert_eq!(ledger.destroy_context(b), Err(ErrorKind::Lifecycle));
    assert_eq!(ledger.destroy_surface_texture(b, sa), Ok(()));
    let after = ledger.surface(sa).unwrap();
    assert_eq!(after, before);
    assert_eq!(after.extent, size);
    assert_eq!(after.format, PixelFormat::Rgba8);
    assert_eq!(ledger.bind_surface_to_context(a, sa), Ok(()));
    assert_eq!(ledger.surface(sa).unwrap().state, Ownership::Bound(a));
}

#[test]
fn texture_is_released_only_by_its_context() {
    let size = Extent::new(2, 2);
    let (mut ledger, a, sa, b, _sb) = two_stations(size, size);
    ledger.unbind_surface_from_context(a).unwrap();
    ledger.create_surface_texture(b, sa).unwrap();
    assert_eq!(ledger.destroy_surface_texture(a, sa), Err(ErrorKind::Import));
    assert_eq!(ledger.destroy_surface_texture(b, 99), Err(ErrorKind::Import));
    assert_eq!(ledger.destroy_surface_texture(b, sa), Ok(()));
    assert_eq!(ledger.destroy_surface_texture(b, sa), Err(ErrorKind::Import));
}

#[test]
fn size_mismatch_leaves_destination_alone() {
    let (mut ledger, a, sa, b, sb) = two_stations(Extent::new(2, 2), Extent::new(2, 3));
    ledger.make_context_current(b).unwrap();
    ledger.fill(b, GREY).unwrap();
    ledger.unbind_surface_from_context(a).unwrap();
    let source = ledger.surface(sa).unwrap();
    let target = ledger.surface(sb).unwrap();
    assert_eq!(ledger.check_transfer(b, sa), Some(ErrorKind::SizeMismatch));
    assert_eq!(ledger.transfer(b, sa), Err(ErrorKind::SizeMismatch));
    assert_eq!(ledger.surface(sb).unwrap(), target);
    assert_eq!(ledger.surface(sa).unwrap(), source);
    assert_eq!(
        ledger.read_pixels(b, ChannelOrder::Rgb).unwrap(),
        [128, 128, 128, 128, 128, 128, 128, 128, 128, 128, 128, 128, 128, 128, 128, 128, 128, 128]
    );
}

#[test]
fn size_is_checked_before_ownership() {
    let (mut ledger, _a, sa, b, _sb) = two_stations(Extent::new(2, 2), Extent::new(1, 1));
    // The source is still bound, and has the wrong size as well.
    assert_eq!(ledger.transfer(b, sa), Err(ErrorKind::SizeMismatch));
}

#[test]
fn transfer_needs_a_bound_destination() {
    let mut ledger = Ledger::new();
    let a = ledger.create_context(0, PixelFormat::Rgba8);
    let b = ledger.create_context(1, PixelFormat::Rgba8);
    let s = ledger.create_surface(a, Extent::new(2, 2)).unwrap();
    assert_eq!(ledger.check_transfer(b, s), Some(ErrorKind::UnboundDestination));
    assert_eq!(ledger.transfer(b, s), Err(ErrorKind::UnboundDestination));
    assert_eq!(ledger.current_context(), Some(b));
}

#[test]
fn transfer_into_unknown_context_changes_nothing() {
    let size = Extent::new(2, 2);
    let (mut ledger, a, sa, _b, _sb) = two_stations(size, size);
    ledger.make_context_current(a).unwrap();
    assert_eq!(ledger.transfer(17, sa), Err(ErrorKind::Currency));
    assert_eq!(ledger.current_context(), Some(a));
}

#[test]
fn transfer_of_unknown_or_bound_surface_is_an_import_failure() {
    let size = Extent::new(2, 2);
    let (mut ledger, _a, sa, b, _sb) = two_stations(size, size);
    assert_eq!(ledger.transfer(b, 42), Err(ErrorKind::Import));
    assert_eq!(ledger.transfer(b, sa), Err(ErrorKind::Import));
}

#[test]
fn only_the_current_context_draws() {
    let size = Extent::new(2, 2);
    let (mut ledger, a, sa, b, sb) = two_stations(size, size);
    assert_eq!(ledger.fill(a, RED), Err(ErrorKind::Currency));
    ledger.make_context_current(a).unwrap();
    assert_eq!(ledger.fill(a, RED), Ok(()));
    assert_eq!(ledger.fill(b, GREY), Err(ErrorKind::Currency));
    assert_eq!(ledger.read_pixels(b, ChannelOrder::Rgba), Err(ErrorKind::Currency));
    assert_eq!(ledger.blit(b, sa), Err(ErrorKind::Currency));
    assert_eq!(ledger.framebuffer_of(b), Err(ErrorKind::Currency));
    assert_eq!(ledger.framebuffer_of(a), Ok(sa));
    assert_eq!(ledger.surface(sb).unwrap().fill, None);
    ledger.make_context_current(b).unwrap();
    assert_eq!(ledger.fill(a, GREY), Err(ErrorKind::Currency));
    assert_eq!(ledger.surface(sa).unwrap().fill, Some(RED));
}

#[test]
fn make_current_needs_a_live_context() {
    let mut ledger = Ledger::new();
    assert_eq!(ledger.make_context_current(0), Err(ErrorKind::Currency));
    let a = ledger.create_context(0, PixelFormat::Rgba8);
    assert_eq!(ledger.make_context_current(a), Ok(()));
    assert_eq!(ledger.current_context(), Some(a));
    assert_eq!(ledger.destroy_context(a), Ok(()));
    assert_eq!(ledger.current_context(), None);
    assert_eq!(ledger.make_context_current(a), Err(ErrorKind::Currency));
}

#[test]
fn drawing_needs_a_bound_surface() {
    let mut ledger = Ledger::new();
    let a = ledger.create_context(0, PixelFormat::Rgba8);
    ledger.make_context_current(a).unwrap();
    assert_eq!(ledger.fill(a, RED), Err(ErrorKind::UnboundDestination));
    assert_eq!(ledger.read_pixels(a, ChannelOrder::Bgra), Err(ErrorKind::UnboundDestination));
    assert_eq!(ledger.blit(a, 0), Err(ErrorKind::UnboundDestination));
}

#[test]
fn unknown_content_cannot_be_predicted() {
    let size = Extent::new(2, 2);
    let (mut ledger, a, _sa, _b, _sb) = two_stations(size, size);
    ledger.make_context_current(a).unwrap();
    assert_eq!(ledger.read_pixels(a, ChannelOrder::Bgra), Err(ErrorKind::Integrity));
    ledger.fill(a, RED).unwrap();
    assert!(ledger.read_pixels(a, ChannelOrder::Bgra).is_ok());
    ledger.spoil(a);
    assert_eq!(ledger.read_pixels(a, ChannelOrder::Bgra), Err(ErrorKind::Integrity));
}

#[test]
fn spoil_without_bound_surface_changes_nothing() {
    let mut ledger = Ledger::new();
    let a = ledger.create_context(0, PixelFormat::Rgba8);
    let s = ledger.create_surface(a, Extent::new(1, 1)).unwrap();
    let before = ledger.surface(s).unwrap();
    ledger.spoil(a);
    ledger.spoil(5);
    assert_eq!(ledger.surface(s).unwrap(), before);
}

#[test]
fn surface_sizes_must_be_drawable() {
    let mut ledger = Ledger::new();
    let a = ledger.create_context(0, PixelFormat::Rgba8);
    assert_eq!(ledger.create_surface(a, Extent::new(0, 2)), Err(ErrorKind::SurfaceCreation));
    assert_eq!(ledger.create_surface(a, Extent::new(2, -1)), Err(ErrorKind::SurfaceCreation));
    assert_eq!(ledger.create_surface(a, Extent::new(65536, 65536)), Err(ErrorKind::SurfaceCreation));
    assert_eq!(ledger.create_surface(3, Extent::new(2, 2)), Err(ErrorKind::SurfaceCreation));
    assert_eq!(ledger.create_surface(a, Extent::new(2, 2)), Ok(0));
}

#[test]
fn context_holds_one_surface_at_most() {
    let size = Extent::new(2, 2);
    let (mut ledger, a, sa, _b, _sb) = two_stations(size, size);
    let extra = ledger.create_surface(a, size).unwrap();
    assert_eq!(ledger.bind_surface_to_context(a, extra), Err(ErrorKind::Bind));
    assert_eq!(ledger.bind_surface_to_context(a, sa), Err(ErrorKind::Bind));
    assert_eq!(ledger.unbind_surface_from_context(a), Ok(sa));
    assert_eq!(ledger.bind_surface_to_context(a, extra), Ok(()));
    assert_eq!(
        ledger.context_surface_info(a),
        Some(BoundInfo { surface: extra, extent: size })
    );
}

#[test]
fn surface_binds_only_within_its_device() {
    let mut ledger = Ledger::new();
    let a = ledger.create_context(0, PixelFormat::Rgba8);
    let b = ledger.create_context(1, PixelFormat::Rgba8);
    let same = ledger.create_context(0, PixelFormat::Rgba8);
    let s = ledger.create_surface(a, Extent::new(2, 2)).unwrap();
    assert_eq!(ledger.bind_surface_to_context(b, s), Err(ErrorKind::Bind));
    assert_eq!(ledger.bind_surface_to_context(9, s), Err(ErrorKind::Bind));
    assert_eq!(ledger.bind_surface_to_context(same, s), Ok(()));
    assert_eq!(ledger.surface(s).unwrap().last_bound, Some(same));
}

#[test]
fn unbind_needs_a_bound_surface() {
    let mut ledger = Ledger::new();
    assert_eq!(ledger.unbind_surface_from_context(0), Err(ErrorKind::Unbind));
    let a = ledger.create_context(0, PixelFormat::Rgba8);
    assert_eq!(ledger.unbind_surface_from_context(a), Err(ErrorKind::Unbind));
    assert_eq!(ledger.context_surface_info(a), None);
}

#[test]
fn bound_surface_and_busy_context_cannot_be_destroyed() {
    let size = Extent::new(2, 2);
    let (mut ledger, a, sa, b, _sb) = two_stations(size, size);
    assert_eq!(ledger.destroy_surface(a, sa), Err(ErrorKind::Lifecycle));
    assert_eq!(ledger.destroy_context(a), Err(ErrorKind::Lifecycle));
    assert!(!ledger.may_destroy_context(a));
    ledger.unbind_surface_from_context(a).unwrap();
    assert_eq!(ledger.destroy_surface(b, sa), Err(ErrorKind::Lifecycle));
    assert_eq!(ledger.destroy_surface(a, sa), Ok(()));
    assert_eq!(ledger.surface(sa).unwrap().state, Ownership::Destroyed);
    assert_eq!(ledger.destroy_surface(a, sa), Err(ErrorKind::Lifecycle));
    assert_eq!(ledger.bind_surface_to_context(a, sa), Err(ErrorKind::Bind));
    assert!(ledger.may_destroy_context(a));
    assert_eq!(ledger.destroy_context(a), Ok(()));
    assert!(!ledger.is_live(a));
    assert_eq!(ledger.destroy_context(a), Err(ErrorKind::Lifecycle));
    assert_eq!(ledger.context(a).unwrap().alive, false);
}

#[test]
fn making_or_releasing_a_context_leaves_none_current() {
    let mut ledger = Ledger::new();
    let a = ledger.create_context(0, PixelFormat::Rgba8);
    let b = ledger.create_context(0, PixelFormat::Rgba8);
    ledger.make_context_current(a).unwrap();
    assert_eq!(ledger.destroy_context(b), Ok(()));
    assert_eq!(ledger.current_context(), None);
    ledger.make_context_current(a).unwrap();
    let c = ledger.create_context(1, PixelFormat::Rgba8);
    assert_eq!(ledger.current_context(), None);
    assert!(ledger.is_live(c));
    assert_eq!(ledger.destroy_context(9), Err(ErrorKind::Lifecycle));
    ledger.make_context_current(a).unwrap();
    assert_eq!(ledger.destroy_context(9), Err(ErrorKind::Lifecycle));
    assert_eq!(ledger.current_context(), Some(a));
}

#[test]
fn blit_copies_from_a_texture_of_the_same_size() {
    let (mut ledger, a, sa, b, sb) = two_stations(Extent::new(2, 2), Extent::new(2, 2));
    let other = ledger.create_surface(a, Extent::new(5, 5)).unwrap();
    ledger.make_context_current(a).unwrap();
    ledger.fill(a, RED).unwrap();
    ledger.unbind_surface_from_context(a).unwrap();
    ledger.make_context_current(b).unwrap();
    assert_eq!(ledger.blit(b, sa), Err(ErrorKind::Import));
    ledger.create_surface_texture(b, sa).unwrap();
    ledger.create_surface_texture(b, other).unwrap();
    assert_eq!(ledger.blit(b, other), Err(ErrorKind::SizeMismatch));
    assert_eq!(ledger.surface(sb).unwrap().fill, None);
    assert_eq!(ledger.blit(b, sa), Ok(()));
    assert_eq!(ledger.surface(sb).unwrap().fill, Some(RED));
}

#[test]
fn questions_agree_with_the_steps() {
    let size = Extent::new(2, 2);
    let (mut ledger, a, sa, b, sb) = two_stations(size, size);
    assert!(!ledger.may_bind(a, sa));
    assert!(!ledger.may_import(b, sa));
    assert!(!ledger.may_release(b, sa));
    assert!(!ledger.may_destroy_surface(a, sa));
    ledger.unbind_surface_from_context(a).unwrap();
    assert!(ledger.may_bind(a, sa));
    assert!(!ledger.may_bind(b, sa));
    assert!(ledger.may_import(b, sa));
    assert!(!ledger.may_import(a, sa));
    assert!(ledger.may_destroy_surface(a, sa));
    assert!(!ledger.may_destroy_surface(b, sa));
    assert!(!ledger.may_destroy_surface(a, sb));
    ledger.create_surface_texture(b, sa).unwrap();
    assert!(ledger.may_release(b, sa));
    assert!(!ledger.may_release(a, sa));
    assert!(!ledger.may_bind(a, sa));
    assert!(!ledger.may_import(b, sa));
    assert!(!ledger.may_destroy_surface(a, sa));
    assert!(!ledger.may_bind(a, 77));
    assert!(!ledger.may_import(77, sa));
}

#[test]
fn check_transfer_changes_nothing() {
    let size = Extent::new(2, 2);
    let (mut ledger, a, sa, b, sb) = two_stations(size, size);
    ledger.unbind_surface_from_context(a).unwrap();
    assert_eq!(ledger.check_transfer(b, sa), None);
    assert_eq!(ledger.current_context(), None);
    assert_eq!(ledger.surface(sb).unwrap().fill, None);
    assert_eq!(ledger.check_transfer(a, sa), Some(ErrorKind::UnboundDestination));
    assert_eq!(ledger.check_transfer(5, sa), Some(ErrorKind::Currency));
    assert_eq!(ledger.check_transfer(b, sb), Some(ErrorKind::Import));
    assert_eq!(ledger.transfer(b, sa), Ok(()));
}
