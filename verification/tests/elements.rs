use layer_dispatch::bar::{Bar, BORDER_ALL, BORDER_LEFT, BORDER_NONE, BORDER_TOP};
use layer_dispatch::invoke::{MgrOp, TabOp};
use layer_dispatch::paragraph::{warn_deprecated, NoticeLevel, Paragraph};
use layer_dispatch::tui::Rect;
use ratatui::buffer::Buffer;
use ratatui::style::{Color, Style};

fn buffer_4x3() -> Buffer {
    Buffer::empty(ratatui::layout::Rect::new(0, 0, 4, 3))
}

#[test]
fn bar_paints_all_edges() {
    let mut buf = buffer_4x3();
    let bar = Bar::new(Rect { x: 0, y: 0, width: 4, height: 3 }, BORDER_ALL);
    bar.render(&mut buf);
    // a bar with a horizontal edge uses the horizontal rule everywhere
    assert_eq!(buf[(0, 0)].symbol(), "─");
    assert_eq!(buf[(3, 0)].symbol(), "─");
    assert_eq!(buf[(0, 1)].symbol(), "─");
    assert_eq!(buf[(3, 2)].symbol(), "─");
    // the interior is untouched
    assert_eq!(buf[(1, 1)].symbol(), " ");
    assert_eq!(buf[(2, 1)].symbol(), " ");
}

#[test]
fn bar_left_edge_uses_vertical_rule() {
    let mut buf = buffer_4x3();
    let bar = Bar::new(Rect { x: 0, y: 0, width: 4, height: 3 }, BORDER_LEFT);
    bar.render(&mut buf);
    assert_eq!(buf[(0, 0)].symbol(), "│");
    assert_eq!(buf[(0, 1)].symbol(), "│");
    assert_eq!(buf[(0, 2)].symbol(), "│");
    assert_eq!(buf[(1, 0)].symbol(), " ");
    assert_eq!(buf[(3, 2)].symbol(), " ");
}

#[test]
fn bar_custom_symbol_and_style_apply() {
    let mut buf = buffer_4x3();
    let bar = Bar::new(Rect { x: 0, y: 0, width: 4, height: 1 }, BORDER_TOP)
        .symbol("*".to_string())
        .style(Some(Style::new().fg(Color::Red)));
    bar.render(&mut buf);
    assert_eq!(buf[(0, 0)].symbol(), "*");
    assert_eq!(buf[(3, 0)].symbol(), "*");
    assert_eq!(buf[(0, 0)].fg, Color::Red);
    // below the bar nothing changed
    assert_eq!(buf[(0, 1)].symbol(), " ");
    assert_eq!(buf[(0, 1)].fg, Color::Reset);
}

#[test]
fn bar_style_patches_over_what_a_cell_carried() {
    let mut buf = buffer_4x3();
    // pre-style a top-row cell: green background
    buf[(1, 0)].set_bg(Color::Green);
    let bar = Bar::new(Rect { x: 0, y: 0, width: 4, height: 1 }, BORDER_TOP)
        .style(Some(Style::new().fg(Color::Red)));
    bar.render(&mut buf);
    // the applied style sets only the foreground: it replaces the
    // foreground and leaves the background the cell carried
    assert_eq!(buf[(1, 0)].fg, Color::Red);
    assert_eq!(buf[(1, 0)].bg, Color::Green);
    assert_eq!(buf[(0, 0)].fg, Color::Red);
    assert_eq!(buf[(0, 0)].bg, Color::Reset);
}

#[test]
fn bar_without_style_leaves_every_style_alone() {
    let mut buf = buffer_4x3();
    buf[(0, 0)].set_fg(Color::Blue);
    let bar = Bar::new(Rect { x: 0, y: 0, width: 4, height: 3 }, BORDER_ALL);
    bar.render(&mut buf);
    assert_eq!(buf[(0, 0)].symbol(), "─");
    assert_eq!(buf[(0, 0)].fg, Color::Blue);
}

#[test]
fn bar_without_direction_or_over_empty_area_paints_nothing() {
    let mut buf = buffer_4x3();
    Bar::new(Rect { x: 0, y: 0, width: 4, height: 3 }, BORDER_NONE).render(&mut buf);
    Bar::new(Rect { x: 0, y: 0, width: 0, height: 3 }, BORDER_ALL).render(&mut buf);
    for x in 0..4u16 {
        for y in 0..3u16 {
            assert_eq!(buf[(x, y)].symbol(), " ");
        }
    }
}

#[test]
fn bar_outside_the_buffer_is_clipped() {
    let mut buf = buffer_4x3();
    // area reaches beyond the buffer: in-range cells painted, no panic
    let bar = Bar::new(Rect { x: 2, y: 1, width: 10, height: 10 }, BORDER_TOP);
    bar.render(&mut buf);
    assert_eq!(buf[(2, 1)].symbol(), "─");
    assert_eq!(buf[(3, 1)].symbol(), "─");
    assert_eq!(buf[(1, 1)].symbol(), " ");
}

#[test]
fn bar_new_discards_foreign_direction_bits() {
    let bar = Bar::new(Rect { x: 0, y: 0, width: 2, height: 2 }, 0xF0 | BORDER_TOP);
    assert_eq!(bar.direction, BORDER_TOP);
    assert_eq!(bar.area(), Rect { x: 0, y: 0, width: 2, height: 2 });
}

#[test]
fn clone_render_paints_like_render() {
    let mut b1 = buffer_4x3();
    let mut b2 = buffer_4x3();
    let bar = Bar::new(Rect { x: 0, y: 0, width: 4, height: 3 }, BORDER_TOP);
    bar.render(&mut b1);
    bar.clone_render(&mut b2);
    assert_eq!(b1, b2);
}

#[test]
fn rect_area_and_op_collaborator_wiring() {
    assert_eq!(Rect { x: 5, y: 7, width: 3, height: 9 }.area(), 27);
    assert_eq!(Rect { x: 0, y: 0, width: 0, height: 9 }.area(), 0);
    // the operations that queue file work take the task-engine handle
    assert!(MgrOp::Paste.wants_tasks());
    assert!(MgrOp::Open.wants_tasks());
    assert!(!MgrOp::Hover.wants_tasks());
    assert!(TabOp::Sort.wants_tasks());
    assert!(!TabOp::Arrow.wants_tasks());
}

#[test]
fn deprecation_notice_names_the_plugin() {
    let id = "dashboard".to_string();
    let n = Paragraph::deprecation_notice(Some(&id));
    assert_eq!(n.title, "Deprecated API");
    assert_eq!(
        n.content,
        "The `ui.Paragraph` and `ui.ListItem` elements have been deprecated.\n\nPlease use the new `ui.Text` instead, in your `dashboard.yazi` plugin."
    );
    assert_eq!(n.level, NoticeLevel::Warn);
    assert_eq!(n.timeout_secs, 20);

    let n = Paragraph::deprecation_notice(None);
    assert_eq!(
        n.content,
        "The `ui.Paragraph` and `ui.ListItem` elements have been deprecated.\n\nPlease use the new `ui.Text` instead, in your `init.lua` config."
    );
}

#[test]
fn deprecation_warns_once_per_session() {
    let mut warned = false;
    let first = warn_deprecated(&mut warned, None);
    assert!(first.is_some());
    assert!(warned);
    let second = warn_deprecated(&mut warned, None);
    assert!(second.is_none());
    assert!(warned);
}
