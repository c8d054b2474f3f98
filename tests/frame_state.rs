use decoration_frame::flags::{WindowManagerCapabilities, WindowState};
use decoration_frame::frame::{FrameClick, FrameState, HeadBarDraw, PixelRect};
use decoration_frame::geometry::{init_shadow_surfaces_pos, ShadowPart, ShadowRect};
use decoration_frame::hit::CursorArea;
use decoration_frame::pointer::{ButtonKind, CursorIcon, FrameAction, Location};

fn fx(px: i32) -> i32 {
    px * 256
}

fn frame() -> FrameState {
    FrameState::new(true, vec![ButtonKind::Minimize, ButtonKind::Maximize, ButtonKind::Close])
}

fn rect(x: i32, y: i32, width: u32, height: u32) -> ShadowRect {
    ShadowRect { x, y, width, height }
}

#[test]
fn new_frame_defaults() {
    let f = frame();
    assert!(f.is_dirty());
    assert!(!f.is_hidden());
    assert!(f.should_sync);
    assert!(f.resizable);
    assert_eq!(f.scale_factor, 1);
    assert_eq!(f.width, None);
    assert_eq!(f.buttons.len(), 3);
    assert_eq!(f.buttons[2].button_kind, ButtonKind::Close);
    assert_eq!(f.wm_capabilities.bits, WindowManagerCapabilities::ALL);
    assert_eq!(f.mouse.location, Location::Outside);
    assert_eq!(f.title, "");
}

#[test]
fn resize_800_by_600_lays_out_shadow_edges() {
    let mut f = frame();
    f.resize(800, 600);
    assert_eq!(f.width, Some(800));
    assert_eq!(f.height, Some(600));
    assert_eq!(f.shadow_rects[ShadowPart::Top.index()], rect(-10, -60, 820, 10));
    assert_eq!(f.shadow_rects[ShadowPart::Left.index()], rect(-10, -50, 10, 650));
    assert_eq!(f.shadow_rects[ShadowPart::Right.index()], rect(800, -50, 10, 650));
    assert_eq!(f.shadow_rects[ShadowPart::Bottom.index()], rect(-10, 600, 820, 10));
}

#[test]
fn shadow_slots_and_parts_agree() {
    for i in 0..4usize {
        assert_eq!(ShadowPart::from_index(i).index(), i);
    }
    assert_eq!(ShadowPart::Top.index(), 0);
    assert_eq!(ShadowPart::Left.index(), 1);
    assert_eq!(ShadowPart::Right.index(), 2);
    assert_eq!(ShadowPart::Bottom.index(), 3);
}

#[test]
fn init_shadow_positions_keep_content_sized_fields() {
    let mut rects = [rect(1, 2, 3, 4); 4];
    init_shadow_surfaces_pos(&mut rects);
    assert_eq!(rects[0], rect(-10, -60, 3, 10));
    assert_eq!(rects[1], rect(-10, -50, 10, 4));
    assert_eq!(rects[2], rect(1, -50, 10, 4));
    assert_eq!(rects[3], rect(-10, 2, 3, 10));
}

#[test]
fn hide_clears_dirty_and_show_forces_sync() {
    let mut f = frame();
    f.start_head_bar_draw();
    assert!(!f.should_sync);
    f.set_hidden(true);
    assert!(f.is_hidden());
    assert!(!f.is_dirty());
    f.set_hidden(false);
    assert!(!f.is_hidden());
    assert!(f.is_dirty());
    assert!(f.should_sync);
}

#[test]
fn state_changes_that_alter_the_look_dirty_the_frame() {
    let mut f = frame();
    f.start_head_bar_draw();
    f.update_state(WindowState::from_bits(WindowState::RESIZING | WindowState::SUSPENDED));
    assert!(!f.is_dirty());
    f.update_state(WindowState::from_bits(WindowState::RESIZING | WindowState::ACTIVATED));
    assert!(f.is_dirty());
    f.start_head_bar_draw();
    f.update_state(WindowState::from_bits(WindowState::ACTIVATED | WindowState::TILED_LEFT));
    assert!(f.is_dirty());
    f.start_head_bar_draw();
    f.update_state(WindowState::from_bits(WindowState::ACTIVATED | WindowState::TILED_LEFT));
    assert!(!f.is_dirty());
}

#[test]
fn capability_changes_dirty_the_frame() {
    let mut f = frame();
    f.start_head_bar_draw();
    f.update_wm_capabilities(WindowManagerCapabilities::all());
    assert!(!f.is_dirty());
    f.update_wm_capabilities(WindowManagerCapabilities::from_bits(WindowManagerCapabilities::MAXIMIZE));
    assert!(f.is_dirty());
}

#[test]
fn scaling_factor_is_clamped_and_forces_sync() {
    let mut f = frame();
    f.start_head_bar_draw();
    f.set_scaling_factor(2);
    assert_eq!(f.scale_factor, 2);
    assert!(f.is_dirty());
    assert!(f.should_sync);
    f.set_scaling_factor(0);
    assert_eq!(f.scale_factor, 1);
    f.set_scaling_factor(100);
    assert_eq!(f.scale_factor, 64);
}

#[test]
fn decorations_take_header_space_unless_hidden_or_fullscreen() {
    let mut f = frame();
    assert_eq!(f.location(), (0, -50));
    assert_eq!(f.subtract_borders(800, 650), (Some(800), Some(600)));
    assert_eq!(f.subtract_borders(800, 50), (Some(800), None));
    assert_eq!(f.add_borders(800, 600), (800, 650));
    f.update_state(WindowState::from_bits(WindowState::FULLSCREEN));
    assert_eq!(f.location(), (0, 0));
    assert_eq!(f.subtract_borders(800, 650), (Some(800), Some(650)));
    assert_eq!(f.add_borders(800, 600), (800, 600));
    f.update_state(WindowState::empty());
    f.set_hidden(true);
    assert_eq!(f.location(), (0, 0));
    assert_eq!(f.add_borders(800, 600), (800, 600));
}

#[test]
fn pointer_before_layout_gets_default_cursor() {
    let mut f = frame();
    assert_eq!(f.click_point_moved(CursorArea::Frame, fx(2), fx(2)), Some(CursorIcon::Default));
    assert_eq!(f.mouse.location, Location::Outside);
    assert_eq!(f.mouse.cursor_pos, None);
}

#[test]
fn pointer_moves_over_surfaces() {
    let mut f = frame();
    f.resize(800, 600);
    assert_eq!(f.click_point_moved(CursorArea::TopShadow, fx(400), 0), Some(CursorIcon::NResize));
    assert_eq!(f.mouse.location, Location::Top);
    assert_eq!(f.click_point_moved(CursorArea::Frame, fx(400), fx(30)), Some(CursorIcon::Default));
    assert_eq!(f.mouse.location, Location::Head);
    assert_eq!(f.click_point_moved(CursorArea::Window, fx(400), fx(30)), None);
    assert_eq!(f.mouse.location, Location::Outside);
    f.set_resizable(false);
    assert_eq!(f.click_point_moved(CursorArea::LeftShadow, 0, fx(300)), Some(CursorIcon::Default));
    assert_eq!(f.mouse.location, Location::Left);
    f.click_point_left();
    assert_eq!(f.mouse.location, Location::Outside);
    assert_eq!(f.mouse.cursor_pos, Some((0, fx(300))));
}

#[test]
fn hovering_a_button_dirties_the_frame() {
    let mut f = frame();
    f.resize(800, 600);
    f.set_button_allocation(2, 770, 10, 30, 30);
    assert_eq!(f.buttons[2].x, 770);
    assert_eq!(f.buttons[2].button_kind, ButtonKind::Close);
    f.start_head_bar_draw();
    f.click_point_moved(CursorArea::Frame, fx(400), fx(30));
    assert!(!f.is_dirty());
    assert!(!f.button_hovered(2));
    f.click_point_moved(CursorArea::Frame, fx(780), fx(20));
    assert_eq!(f.mouse.location, Location::Button(ButtonKind::Close));
    assert!(f.is_dirty());
    assert!(f.button_hovered(2));
    assert!(!f.button_hovered(0));
}

#[test]
fn clicks_through_the_frame() {
    let mut f = frame();
    f.resize(800, 600);
    f.set_button_allocation(2, 770, 10, 30, 30);
    f.click_point_moved(CursorArea::Frame, fx(780), fx(20));
    assert_eq!(f.on_click(10, FrameClick::Normal, true), None);
    assert!(f.mouse.button_pressed);
    assert_eq!(f.on_click(20, FrameClick::Normal, false), Some(FrameAction::Close));
    f.click_point_moved(CursorArea::Frame, fx(300), fx(30));
    assert_eq!(f.on_click(100, FrameClick::Normal, true), Some(FrameAction::Move));
    assert_eq!(f.on_click(200, FrameClick::Normal, true), Some(FrameAction::Maximize));
    assert_eq!(f.on_click(300, FrameClick::Alternate, true), Some(FrameAction::ShowMenu(300, 30)));
    assert_eq!(f.on_click(350, FrameClick::Normal, true), Some(FrameAction::Move));
    assert_eq!(f.on_click(360, FrameClick::Other, true), None);
}

#[test]
fn head_bar_draw_plan() {
    let mut f = frame();
    assert_eq!(f.start_head_bar_draw(), HeadBarDraw::Skip { sync: false });
    assert!(!f.is_dirty());
    f.resize(800, 600);
    f.set_scaling_factor(2);
    assert_eq!(f.start_head_bar_draw(), HeadBarDraw::Draw { width: 1600, height: 100, sync: true });
    assert_eq!(f.start_head_bar_draw(), HeadBarDraw::Draw { width: 1600, height: 100, sync: false });
    f.update_state(WindowState::from_bits(WindowState::FULLSCREEN));
    assert_eq!(f.start_head_bar_draw(), HeadBarDraw::Skip { sync: true });
}

#[test]
fn shadow_buffers_are_scaled() {
    let mut f = frame();
    f.resize(800, 600);
    f.set_scaling_factor(2);
    assert_eq!(f.shadow_buffer_size(ShadowPart::Top), (1640, 20));
    assert_eq!(f.shadow_buffer_size(ShadowPart::Left), (20, 1300));
    assert_eq!(f.shadow_buffer_size(ShadowPart::Right), (20, 1300));
    assert_eq!(f.shadow_buffer_size(ShadowPart::Bottom), (1640, 20));
}

#[test]
fn visible_border_lies_against_the_content() {
    let mut f = frame();
    assert_eq!(f.visible_border(ShadowPart::Left), None);
    f.resize(800, 600);
    assert_eq!(f.visible_border(ShadowPart::Top), None);
    assert_eq!(f.visible_border(ShadowPart::Left), Some(PixelRect { x: 9, y: 50, width: 1, height: 600 }));
    assert_eq!(f.visible_border(ShadowPart::Right), Some(PixelRect { x: 0, y: 50, width: 1, height: 600 }));
    assert_eq!(f.visible_border(ShadowPart::Bottom), Some(PixelRect { x: 9, y: 0, width: 802, height: 1 }));
    f.set_scaling_factor(2);
    assert_eq!(f.visible_border(ShadowPart::Left), Some(PixelRect { x: 18, y: 100, width: 2, height: 1200 }));
    assert_eq!(f.visible_border(ShadowPart::Bottom), Some(PixelRect { x: 18, y: 0, width: 1604, height: 2 }));
}

#[test]
fn tiled_window_has_no_shadow_or_border() {
    let mut f = frame();
    f.resize(800, 600);
    assert!(f.draws_shadow());
    f.update_state(WindowState::from_bits(WindowState::TILED_TOP | WindowState::ACTIVATED));
    assert!(!f.draws_shadow());
    assert!(f.is_activated());
    assert_eq!(f.visible_border(ShadowPart::Left), None);
    assert_eq!(f.visible_border(ShadowPart::Bottom), None);
}

#[test]
fn title_change_dirties_the_frame() {
    let mut f = frame();
    f.start_head_bar_draw();
    f.set_title(String::from("Editor"));
    assert_eq!(f.title, "Editor");
    assert!(f.is_dirty());
}
