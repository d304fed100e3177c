use lview::component::{Attached, Button, Component, Text};
use lview::geometry::{Margin, Position, Rect, ScreenVal, Size};
use lview::transform::Transform;
use lview::view::{Batch, Color, Primitive, View, Window};

fn rel(px: ScreenVal, py: ScreenVal, w: ScreenVal, h: ScreenVal) -> Transform {
    Transform::Relative { position: Position::new(px, py), size: Size::new(w, h) }
}

fn colored(n: u8, t: Transform) -> View {
    let mut v = View::new();
    v.color = Color::new(n, 0, 0, 255);
    v.transform = t;
    v
}

fn full() -> Transform {
    rel(ScreenVal::Pixel(0), ScreenVal::Pixel(0), ScreenVal::Percent(100), ScreenVal::Percent(100))
}

#[test]
fn screen_val_default_is_whole_reference() {
    assert_eq!(ScreenVal::default(), ScreenVal::Percent(100));
    assert_eq!(ScreenVal::default().extent(640), 640);
}

#[test]
fn pixel_offset_ignores_parent_size() {
    let p = Position::new(ScreenVal::Pixel(7), ScreenVal::Pixel(3));
    for (w, h) in [(0, 0), (100, 50), (5000, 1)] {
        let pt = p.to_px(&Rect::new(20, 30, w, h));
        assert_eq!(pt.x, 27);
        assert_eq!(pt.y, 33);
    }
}

#[test]
fn percent_position_scales_and_adds_origin() {
    let p = Position::new(ScreenVal::Percent(50), ScreenVal::Percent(10));
    let pt = p.to_px(&Rect::new(100, 200, 400, 300));
    assert_eq!(pt.x, 300);
    assert_eq!(pt.y, 230);
}

#[test]
fn percent_width_is_share_of_parent() {
    let parent = Rect::new(9, 9, 200, 80);
    let s = |p: i64| Size::new(ScreenVal::Percent(p), ScreenVal::Pixel(1)).to_px(&parent);
    assert_eq!(s(25).x, 50);
    assert_eq!(s(0).x, 0);
    assert_eq!(s(100).x, 200);
    assert_eq!(s(150).x, 300);
    assert_eq!(s(-50).x, -100);
    assert_eq!(s(25).y, 1);
}

#[test]
fn percent_rounds_toward_zero() {
    assert_eq!(ScreenVal::Percent(50).extent(3), 1);
    assert_eq!(ScreenVal::Percent(-50).extent(3), -1);
    assert_eq!(ScreenVal::Percent(33).extent(10), 3);
}

#[test]
fn margin_in_pixels_insets_each_side() {
    let m = Margin::new(ScreenVal::Pixel(10), ScreenVal::Pixel(10), ScreenVal::Pixel(10), ScreenVal::Pixel(10));
    let r = m.to_rect(&Rect::new(5, 7, 200, 100));
    assert_eq!(r, Rect::new(15, 17, 180, 80));
    let t = Transform::Margin(m);
    assert_eq!(t.get_rect(&Rect::new(0, 0, 200, 100)), Rect::new(10, 10, 180, 80));
}

#[test]
fn margin_sides_use_their_own_axis() {
    let m = Margin::new(ScreenVal::Percent(10), ScreenVal::Percent(20), ScreenVal::Pixel(5), ScreenVal::Percent(5));
    let r = m.to_rect(&Rect::new(0, 0, 200, 100));
    assert_eq!(r, Rect::new(10, 5, 150, 85));
}

#[test]
fn margin_larger_than_parent_gives_negative_extent() {
    let m = Margin::new(ScreenVal::Pixel(0), ScreenVal::Pixel(80), ScreenVal::Pixel(0), ScreenVal::Pixel(40));
    let r = m.to_rect(&Rect::new(0, 0, 100, 10));
    assert_eq!(r, Rect::new(40, 0, -20, 10));
}

#[test]
fn default_margin_is_whole_parent_on_each_side() {
    let r = Margin::default().to_rect(&Rect::new(0, 0, 100, 50));
    assert_eq!(r, Rect::new(100, 50, -100, -50));
}

#[test]
fn get_rect_twice_gives_same_rect() {
    let parent = Rect::new(3, 4, 333, 77);
    let t = rel(ScreenVal::Percent(33), ScreenVal::Pixel(2), ScreenVal::Percent(67), ScreenVal::Percent(-10));
    let a = t.get_rect(&parent);
    let b = t.get_rect(&parent);
    assert_eq!(a, b);
    assert_eq!(a, Rect::new(112, 6, 223, -7));
}

#[test]
fn default_transform_is_empty_at_origin() {
    let r = Transform::default().get_rect(&Rect::new(1, 2, 30, 40));
    assert_eq!(r, Rect::new(1, 2, 0, 0));
    let r = View::new().transform.get_rect(&Rect::new(0, 0, 10, 10));
    assert_eq!(r, Rect::new(0, 0, 0, 0));
}

#[test]
fn traversal_is_pre_order() {
    let mut root = colored(1, full());
    let mut a = colored(2, full());
    a.child(colored(3, full()));
    root.child(a).child(colored(4, full()));
    let mut batch = Batch::new();
    root.process_batch(&mut batch, &Rect::new(0, 0, 10, 10));
    let order: Vec<u8> = batch.items.iter().map(|p| p.color.r).collect();
    assert_eq!(order, vec![1, 2, 3, 4]);
}

#[test]
fn batch_keeps_earlier_items() {
    let mut batch = Batch::new();
    batch.add_rect(&Rect::new(0, 0, 1, 1), Color::new(9, 9, 9, 9));
    let mut root = colored(1, full());
    root.process_batch(&mut batch, &Rect::new(0, 0, 5, 5));
    assert_eq!(batch.items.len(), 2);
    assert_eq!(batch.items[0].color, Color::new(9, 9, 9, 9));
    assert_eq!(batch.items[1], Primitive { rect: Rect::new(0, 0, 5, 5), color: Color::new(1, 0, 0, 255) });
}

#[test]
fn nested_percentages_compound() {
    let half = || rel(ScreenVal::Percent(0), ScreenVal::Percent(0), ScreenVal::Percent(50), ScreenVal::Percent(50));
    let mut child = colored(2, half());
    child.child(colored(3, half()));
    let mut root = colored(1, full());
    root.child(child);
    let mut batch = Batch::new();
    root.process_batch(&mut batch, &Rect::new(0, 0, 1000, 1000));
    let rects: Vec<Rect> = batch.items.iter().map(|p| p.rect).collect();
    assert_eq!(rects, vec![Rect::new(0, 0, 1000, 1000), Rect::new(0, 0, 500, 500), Rect::new(0, 0, 250, 250)]);
}

#[test]
fn nested_offsets_are_relative_to_parent() {
    let mut child = colored(2, rel(ScreenVal::Percent(50), ScreenVal::Pixel(10), ScreenVal::Percent(50), ScreenVal::Percent(50)));
    child.child(colored(3, rel(ScreenVal::Percent(50), ScreenVal::Percent(50), ScreenVal::Pixel(1), ScreenVal::Pixel(1))));
    let mut root = colored(1, full());
    root.child(child);
    let mut w = Window::new(root);
    let batch = w.render(&Rect::new(100, 100, 200, 100)).unwrap();
    assert_eq!(batch.items[1].rect, Rect::new(200, 110, 100, 50));
    assert_eq!(batch.items[2].rect, Rect::new(250, 135, 1, 1));
}

#[test]
fn zero_width_parent_gives_zero_percent_width() {
    for p in [0, 1, 50, 100, 250, -30] {
        let t = rel(ScreenVal::Percent(p), ScreenVal::Pixel(0), ScreenVal::Percent(p), ScreenVal::Pixel(4));
        let r = t.get_rect(&Rect::new(12, 0, 0, 10));
        assert_eq!(r.width, 0);
        assert_eq!(r.x, 12);
    }
}

#[test]
fn two_buttons_are_kept_in_order_and_processed() {
    let mut v = View::new();
    v.component(Attached::Button(Button { on_press: Some(1) }))
        .component(Attached::Button(Button { on_press: Some(2) }));
    assert_eq!(v.process_components(), 2);
    assert_eq!(v.components.len(), 2);
    match (&v.components[0], &v.components[1]) {
        (Attached::Button(a), Attached::Button(b)) => {
            assert_eq!(a.on_press, Some(1));
            assert_eq!(b.on_press, Some(2));
        }
        _ => panic!("components changed kind"),
    }
}

#[test]
fn no_components_means_no_work() {
    let mut v = View::new();
    assert_eq!(v.process_components(), 0);
    assert!(v.components.is_empty());
}

#[test]
fn mixed_components_are_kept() {
    let mut v = View::new();
    v.component(Attached::Text(Text::new("Play!".to_string())))
        .component(Attached::Button(Button::default()));
    let mut t = Text::default();
    t.process();
    assert!(t.text.is_empty());
    assert_eq!(v.process_components(), 2);
    match &v.components[0] {
        Attached::Text(t) => assert_eq!(t.text, "Play!"),
        _ => panic!("expected text"),
    }
    assert!(matches!(v.components[1], Attached::Button(Button { on_press: None })));
}

#[test]
fn new_view_is_empty() {
    let v = View::new();
    assert!(v.id.is_empty());
    assert!(v.children.is_empty());
    assert_eq!(v.color, Color::default());
    assert_eq!(v.transform, Transform::default());
}

#[test]
fn render_refuses_rect_out_of_range() {
    let root = colored(1, rel(ScreenVal::Pixel(1), ScreenVal::Pixel(0), ScreenVal::Pixel(1), ScreenVal::Pixel(1)));
    let surface = Rect::new(i64::MAX, 0, 10, 10);
    assert!(!root.fits(&surface));
    let mut w = Window::new(root);
    assert!(w.render(&surface).is_none());
}

#[test]
fn render_refuses_deep_child_out_of_range() {
    let mut root = colored(1, full());
    root.child(colored(2, rel(ScreenVal::Pixel(0), ScreenVal::Pixel(0), ScreenVal::Percent(i64::MAX), ScreenVal::Pixel(1))));
    let surface = Rect::new(0, 0, 1000, 10);
    assert!(!root.fits(&surface));
    assert!(Window::new(root).render(&surface).is_none());
}

#[test]
fn render_of_single_view() {
    let mut w = Window::new(colored(5, rel(ScreenVal::Pixel(1), ScreenVal::Pixel(2), ScreenVal::Percent(50), ScreenVal::Pixel(3))));
    let b = w.render(&Rect::new(0, 0, 640, 480)).unwrap();
    assert_eq!(b.items, vec![Primitive { rect: Rect::new(1, 2, 320, 3), color: Color::new(5, 0, 0, 255) }]);
}

#[test]
fn process_tree_keeps_every_view_and_component() {
    let mut leaf = colored(3, full());
    leaf.id = "leaf".to_string();
    leaf.component(Attached::Text(Text::new("Play!".to_string())));
    let mut a = colored(2, full());
    a.component(Attached::Button(Button { on_press: Some(7) }));
    a.child(leaf);
    let mut root = colored(1, full());
    root.component(Attached::Button(Button { on_press: Some(1) }))
        .component(Attached::Button(Button { on_press: Some(2) }));
    root.child(a).child(colored(4, full()));
    root.process_tree();
    assert_eq!(root.components.len(), 2);
    assert!(matches!(root.components[0], Attached::Button(Button { on_press: Some(1) })));
    assert!(matches!(root.components[1], Attached::Button(Button { on_press: Some(2) })));
    assert_eq!(root.children.len(), 2);
    assert_eq!(root.children[0].color, Color::new(2, 0, 0, 255));
    assert_eq!(root.children[1].color, Color::new(4, 0, 0, 255));
    let leaf = &root.children[0].children[0];
    assert_eq!(leaf.id, "leaf");
    match &leaf.components[0] {
        Attached::Text(t) => assert_eq!(t.text, "Play!"),
        _ => panic!("expected text"),
    }
    let mut batch = Batch::new();
    root.process_batch(&mut batch, &Rect::new(0, 0, 10, 10));
    let order: Vec<u8> = batch.items.iter().map(|p| p.color.r).collect();
    assert_eq!(order, vec![1, 2, 3, 4]);
}

#[test]
fn button_process_changes_nothing() {
    let mut b = Button { on_press: Some(3) };
    b.process();
    assert_eq!(b, Button { on_press: Some(3) });
}
