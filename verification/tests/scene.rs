use frame_host::display_list::{push_ellipse, render, Color, DisplayItem, DisplayListBuilder};
use frame_host::geometry::{layout_of, DeviceSize, Frac, LayoutRect, PixelRatio};
use frame_host::state::{build_submission, new_document_ready_wakes, FrameState};

fn push_pop_balance(list: &[DisplayItem]) -> (usize, usize) {
    let pushes = list
        .iter()
        .filter(|it| matches!(it, DisplayItem::PushStackingContext { .. }))
        .count();
    let pops = list.iter().filter(|it| matches!(it, DisplayItem::PopStackingContext)).count();
    (pushes, pops)
}

#[test]
fn initial_submission_at_800_by_600() {
    let st = FrameState::new(DeviceSize::new(800, 600), PixelRatio::new(1, 1), 1, 1);
    assert!(st.layout_size.width.is_int(800));
    assert!(st.layout_size.height.is_int(600));
    let sub = build_submission(&st);
    assert_eq!(sub.epoch, 0);
    assert!(sub.preserve_layout);
    assert_eq!(sub.layout_size, st.layout_size);
    assert_eq!(sub.display_list.len(), 3);
    match &sub.display_list[0] {
        DisplayItem::PushStackingContext { bounds } => {
            assert!(bounds.origin_x.is_int(0));
            assert!(bounds.origin_y.is_int(0));
            assert_eq!(bounds.size, st.layout_size);
        }
        other => panic!("expected a stacking-context push, got {:?}", other),
    }
    match &sub.display_list[1] {
        DisplayItem::ClippedRect { rect, clip_radius_x, clip_radius_y, color } => {
            assert_eq!(rect.size, st.layout_size);
            // the clip radius is half the extent: an ellipse with radii 400 x 300
            assert!(clip_radius_x.is_int(400));
            assert!(clip_radius_y.is_int(300));
            assert_eq!(*color, Color { r: 255, g: 255, b: 255, a: 255 });
        }
        other => panic!("expected the clipped primitive, got {:?}", other),
    }
    assert!(matches!(sub.display_list[2], DisplayItem::PopStackingContext));
}

#[test]
fn scene_is_push_pop_balanced() {
    for (w, h) in [(1u32, 1u32), (800, 600), (640, 480), (4096, 2160)] {
        let st = FrameState::new(DeviceSize::new(w, h), PixelRatio::new(2, 1), 1, 1);
        let sub = build_submission(&st);
        let (pushes, pops) = push_pop_balance(&sub.display_list);
        assert_eq!(pushes, pops);
        assert_eq!(pushes, 1);
    }
}

#[test]
fn layout_size_is_the_exact_quotient() {
    // a device pixel ratio of 2 halves the layout size
    let ls = layout_of(DeviceSize::new(800, 600), PixelRatio::new(2, 1));
    assert!(ls.width.is_int(400));
    assert!(ls.height.is_int(300));
    // a ratio of 3/2 divides exactly as a rational: 300 / (3/2) == 200
    let ls = layout_of(DeviceSize::new(300, 330), PixelRatio::new(3, 2));
    assert!(ls.width.is_int(200));
    assert!(ls.height.is_int(220));
    // an inexact quotient is still held exactly: 100 / 3 is no integer
    let ls = layout_of(DeviceSize::new(100, 99), PixelRatio::new(3, 1));
    assert!(!ls.width.is_int(33));
    assert!(!ls.width.is_int(34));
    assert!(ls.height.is_int(33));
    assert_eq!(ls.width, Frac { num: 100, den: 3 });
}

#[test]
fn fraction_halving_is_exact() {
    let f = Frac { num: 801, den: 1 };
    let half = f.half();
    assert_eq!(half, Frac { num: 801, den: 2 });
    assert!(!half.is_int(400));
    assert!(!half.is_int(401));
    assert!(Frac { num: 800, den: 2 }.is_int(400));
}

#[test]
fn builder_rejects_nothing_it_promised() {
    let mut b = DisplayListBuilder::new();
    let size = layout_of(DeviceSize::new(10, 10), PixelRatio::new(1, 1));
    b.push_stacking_context(LayoutRect::from_origin(size));
    push_ellipse(&mut b, LayoutRect::from_origin(size), Color::white());
    b.pop_stacking_context();
    let list = b.finalize();
    assert_eq!(list.len(), 3);
    let (pushes, pops) = push_pop_balance(&list);
    assert_eq!(pushes, pops);
}

#[test]
fn render_appends_exactly_the_scene() {
    let mut b = DisplayListBuilder::new();
    let size = layout_of(DeviceSize::new(640, 480), PixelRatio::new(1, 1));
    render(&mut b, size);
    render(&mut b, size);
    let list = b.finalize();
    assert_eq!(list.len(), 6);
    assert_eq!(list[0], list[3]);
    assert_eq!(list[1], list[4]);
    assert_eq!(list[2], list[5]);
}

#[test]
fn document_ready_always_wakes() {
    assert!(new_document_ready_wakes(false, false));
    assert!(new_document_ready_wakes(true, false));
    assert!(new_document_ready_wakes(false, true));
    assert!(new_document_ready_wakes(true, true));
}
