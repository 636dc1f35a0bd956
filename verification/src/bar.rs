use vstd::prelude::*;
use crate::tui::{
    buf_span, buf_styles, buf_symbols, set_style_at, set_symbol_at, span_contains, style_patched,
    Rect,
};

verus! {

pub const BORDER_NONE: u8 = 0;

pub const BORDER_TOP: u8 = 1;

pub const BORDER_RIGHT: u8 = 2;

pub const BORDER_BOTTOM: u8 = 4;

pub const BORDER_LEFT: u8 = 8;

pub const BORDER_ALL: u8 = 15;

/// A bar element: a straight run of one repeated symbol along one or
/// more edges of its area, with an optional style, painted into a
/// terminal buffer.
#[derive(Clone)]
pub struct Bar {
    pub area: Rect,
    pub direction: u8,
    pub symbol: String,
    pub style: Option<ratatui::style::Style>,
}

/// The symbol a bar paints: its custom symbol when one was set, else a
/// horizontal rule when it runs along the top or bottom, else a
/// vertical rule when it runs along the left or right, else a space.
pub open spec fn bar_symbol(bar: Bar) -> Seq<char> {
    if bar.symbol@.len() > 0 {
        bar.symbol@
    } else if bar.direction & (BORDER_TOP | BORDER_BOTTOM) != 0 {
        "─"@
    } else if bar.direction & (BORDER_LEFT | BORDER_RIGHT) != 0 {
        "│"@
    } else {
        " "@
    }
}

/// Whether the cell at (x, y) lies on one of the edges the bar draws.
/// A bar over an empty area draws nothing.
pub open spec fn on_bar(bar: Bar, x: u16, y: u16) -> bool {
    bar.area.spec_area() != 0 && {
        ||| (bar.direction & BORDER_LEFT != 0 && x == bar.area.x && bar.area.y <= y < bar.area.y
            + bar.area.height)
        ||| (bar.direction & BORDER_TOP != 0 && y == bar.area.y && bar.area.x <= x < bar.area.x
            + bar.area.width)
        ||| (bar.direction & BORDER_RIGHT != 0 && x == bar.area.x + bar.area.width - 1
            && bar.area.y <= y < bar.area.y + bar.area.height)
        ||| (bar.direction & BORDER_BOTTOM != 0 && y == bar.area.y + bar.area.height - 1
            && bar.area.x <= x < bar.area.x + bar.area.width)
    }
}

/// How one straight run changes a buffer's symbols: when `active`, the
/// cells of the run that lie inside the span now show `sym` and every
/// other cell is unchanged; when not, nothing changes. The run is the
/// column `fixed` with `lo <= y < hi` when `vert`, else the row `fixed`
/// with `lo <= x < hi`.
pub open spec fn seg_painted(
    active: bool,
    vert: bool,
    fixed: u16,
    lo: u16,
    hi: u16,
    sym: Seq<char>,
    span: (u16, u16, u16, u16),
    m0: Map<(u16, u16), Seq<char>>,
    m1: Map<(u16, u16), Seq<char>>,
) -> bool {
    if active {
        &&& forall|i: u16, j: u16| #![trigger m1.contains_key((i, j))]
            m1.contains_key((i, j)) <==> (m0.contains_key((i, j)) || (seg_hit(
                vert,
                fixed,
                lo,
                hi,
                i,
                j,
            ) && span_contains(span, i, j)))
        &&& forall|i: u16, j: u16| #![trigger m1.index((i, j))]
            m1.contains_key((i, j)) ==> m1[(i, j)] == (if seg_hit(vert, fixed, lo, hi, i, j)
                && span_contains(span, i, j) {
                sym
            } else {
                m0[(i, j)]
            })
    } else {
        m1 == m0
    }
}

/// Whether the cell at (i, j) lies on the run.
pub open spec fn seg_hit(vert: bool, fixed: u16, lo: u16, hi: u16, i: u16, j: u16) -> bool {
    if vert {
        i == fixed && lo <= j < hi
    } else {
        j == fixed && lo <= i < hi
    }
}

/// How one straight run changes a buffer's styles: when the run is
/// painted with a style, the run's cells inside the span — each of
/// which already carried a style — now carry their old style with
/// that one applied, and applying it once more would change nothing,
/// while every other cell keeps its style; with no style, or no run,
/// no cell's style changes.
pub open spec fn seg_styled(
    active: bool,
    vert: bool,
    fixed: u16,
    lo: u16,
    hi: u16,
    style: Option<ratatui::style::Style>,
    span: (u16, u16, u16, u16),
    s0: Map<(u16, u16), ratatui::style::Style>,
    s1: Map<(u16, u16), ratatui::style::Style>,
) -> bool {
    match style {
        Some(st) => if active {
            &&& forall|i: u16, j: u16| #![trigger s1.contains_key((i, j))]
                s1.contains_key((i, j)) <==> (s0.contains_key((i, j)) || (seg_hit(
                    vert,
                    fixed,
                    lo,
                    hi,
                    i,
                    j,
                ) && span_contains(span, i, j)))
            &&& forall|i: u16, j: u16| #![trigger s1.index((i, j))]
                s1.contains_key((i, j)) ==> s1[(i, j)] == (if seg_hit(vert, fixed, lo, hi, i, j)
                    && span_contains(span, i, j) {
                    style_patched(s0[(i, j)], st)
                } else {
                    s0[(i, j)]
                })
            &&& forall|i: u16, j: u16| #![trigger s1.index((i, j))]
                (seg_hit(vert, fixed, lo, hi, i, j) && span_contains(span, i, j))
                    ==> style_patched(s1[(i, j)], st) == s1[(i, j)]
            &&& forall|i: u16, j: u16| #![trigger s0.contains_key((i, j))]
                (seg_hit(vert, fixed, lo, hi, i, j) && span_contains(span, i, j))
                    ==> s0.contains_key((i, j))
        } else {
            s1 == s0
        },
        None => s1 == s0,
    }
}

/// Paint a vertical run: column `x`, rows `y0` up to `y1`.
fn paint_v(
    b: &mut ratatui::buffer::Buffer,
    x: u16,
    y0: u16,
    y1: u16,
    sym: &str,
    style: &Option<ratatui::style::Style>,
)
    requires
        y0 <= y1,
    ensures
        buf_span(*final(b)) == buf_span(*old(b)),
        seg_painted(
            true,
            true,
            x,
            y0,
            y1,
            sym@,
            buf_span(*old(b)),
            buf_symbols(*old(b)),
            buf_symbols(*final(b)),
        ),
        seg_styled(
            true,
            true,
            x,
            y0,
            y1,
            *style,
            buf_span(*old(b)),
            buf_styles(*old(b)),
            buf_styles(*final(b)),
        ),
{
    let ghost span = buf_span(*b);
    let ghost m0 = buf_symbols(*b);
    let ghost s0 = buf_styles(*b);
    let mut y = y0;
    while y < y1
        invariant
            y0 <= y <= y1,
            buf_span(*b) == span,
            seg_painted(true, true, x, y0, y, sym@, span, m0, buf_symbols(*b)),
            seg_styled(true, true, x, y0, y, *style, span, s0, buf_styles(*b)),
        decreases y1 - y,
    {
        set_symbol_at(b, x, y, sym);
        match style {
            Some(st) => set_style_at(b, x, y, st),
            None => (),
        }
        y = y + 1;
    }
}

/// Paint a horizontal run: row `y`, columns `x0` up to `x1`.
fn paint_h(
    b: &mut ratatui::buffer::Buffer,
    y: u16,
    x0: u16,
    x1: u16,
    sym: &str,
    style: &Option<ratatui::style::Style>,
)
    requires
        x0 <= x1,
    ensures
        buf_span(*final(b)) == buf_span(*old(b)),
        seg_painted(
            true,
            false,
            y,
            x0,
            x1,
            sym@,
            buf_span(*old(b)),
            buf_symbols(*old(b)),
            buf_symbols(*final(b)),
        ),
        seg_styled(
            true,
            false,
            y,
            x0,
            x1,
            *style,
            buf_span(*old(b)),
            buf_styles(*old(b)),
            buf_styles(*final(b)),
        ),
{
    let ghost span = buf_span(*b);
    let ghost m0 = buf_symbols(*b);
    let ghost s0 = buf_styles(*b);
    let mut x = x0;
    while x < x1
        invariant
            x0 <= x <= x1,
            buf_span(*b) == span,
            seg_painted(true, false, y, x0, x, sym@, span, m0, buf_symbols(*b)),
            seg_styled(true, false, y, x0, x, *style, span, s0, buf_styles(*b)),
        decreases x1 - x,
    {
        set_symbol_at(b, x, y, sym);
        match style {
            Some(st) => set_style_at(b, x, y, st),
            None => (),
        }
        x = x + 1;
    }
}

impl Bar {
    /// A bar over `area` along the edges named by `direction`, whose
    /// bits beyond the four edge bits are discarded; no custom symbol,
    /// no style.
    pub fn new(area: Rect, direction: u8) -> (r: Bar)
        ensures
            r.area == area,
            r.direction == direction & BORDER_ALL,
            r.symbol@.len() == 0,
            r.style is None,
    {
        Bar { area, direction: direction & BORDER_ALL, symbol: String::new(), style: None }
    }

    /// The same bar with a custom symbol.
    pub fn symbol(self, symbol: String) -> (r: Bar)
        ensures
            r.area == self.area,
            r.direction == self.direction,
            r.symbol == symbol,
            r.style == self.style,
    {
        Bar { symbol, ..self }
    }

    /// The same bar with its style replaced; `None` clears it.
    pub fn style(self, style: Option<ratatui::style::Style>) -> (r: Bar)
        ensures
            r.area == self.area,
            r.direction == self.direction,
            r.symbol == self.symbol,
            r.style == style,
    {
        Bar { style, ..self }
    }

    /// The area the bar draws along.
    pub fn area(&self) -> (r: Rect)
        ensures
            r == self.area,
    {
        self.area
    }

    /// Paint the bar into the buffer: every cell of the buffer that
    /// lies on one of the bar's edges now shows the bar's symbol, with
    /// the bar's style applied over what the cell carried when one is
    /// set, and every other cell keeps both its symbol and its style.
    /// A bar over an empty area paints nothing.
    #[verifier::rlimit(100)]
    pub fn render(&self, b: &mut ratatui::buffer::Buffer)
        requires
            self.area.wf(),
        ensures
            buf_span(*final(b)) == buf_span(*old(b)),
            forall|x: u16, y: u16| #![trigger buf_symbols(*final(b)).contains_key((x, y))]
                buf_symbols(*final(b)).contains_key((x, y)) <==> (buf_symbols(
                    *old(b),
                ).contains_key((x, y)) || (on_bar(*self, x, y) && span_contains(
                    buf_span(*old(b)),
                    x,
                    y,
                ))),
            forall|x: u16, y: u16| #![trigger buf_symbols(*final(b)).index((x, y))]
                buf_symbols(*final(b)).contains_key((x, y)) ==> buf_symbols(*final(b))[(x, y)]
                    == (if on_bar(*self, x, y) && span_contains(buf_span(*old(b)), x, y) {
                    bar_symbol(*self)
                } else {
                    buf_symbols(*old(b))[(x, y)]
                }),
            forall|x: u16, y: u16| #![trigger buf_styles(*final(b)).contains_key((x, y))]
                buf_styles(*final(b)).contains_key((x, y)) <==> (buf_styles(
                    *old(b),
                ).contains_key((x, y)) || (on_bar(*self, x, y) && span_contains(
                    buf_span(*old(b)),
                    x,
                    y,
                ) && self.style is Some)),
            forall|x: u16, y: u16| #![trigger buf_styles(*final(b)).index((x, y))]
                buf_styles(*final(b)).contains_key((x, y)) ==> buf_styles(*final(b))[(x, y)] == (
                match self.style {
                    Some(st) => if on_bar(*self, x, y) && span_contains(
                        buf_span(*old(b)),
                        x,
                        y,
                    ) {
                        style_patched(buf_styles(*old(b))[(x, y)], st)
                    } else {
                        buf_styles(*old(b))[(x, y)]
                    },
                    None => buf_styles(*old(b))[(x, y)],
                }),
    {
        let ghost span = buf_span(*b);
        let ghost m0 = buf_symbols(*b);
        let ghost s0 = buf_styles(*b);
        if self.area.area() == 0 {
            return ;
        }
        proof {
            assert(self.area.width > 0 && self.area.height > 0) by (nonlinear_arith)
                requires
                    self.area.width * self.area.height != 0,
            ;
        }
        let sym: &str = if !self.symbol.as_str().is_empty() {
            self.symbol.as_str()
        } else if self.direction & (BORDER_TOP | BORDER_BOTTOM) != 0 {
            "─"
        } else if self.direction & (BORDER_LEFT | BORDER_RIGHT) != 0 {
            "│"
        } else {
            " "
        };
        assert(sym@ == bar_symbol(*self));
        let x0 = self.area.x;
        let y0 = self.area.y;
        let x1 = self.area.x + self.area.width;
        let y1 = self.area.y + self.area.height;
        if self.direction & BORDER_LEFT != 0 {
            paint_v(b, x0, y0, y1, sym, &self.style);
        }
        let ghost m1 = buf_symbols(*b);
        let ghost s1 = buf_styles(*b);
        proof {
            assert(seg_painted(
                self.direction & BORDER_LEFT != 0,
                true,
                x0,
                y0,
                y1,
                sym@,
                span,
                m0,
                m1,
            ));
            assert(seg_styled(
                self.direction & BORDER_LEFT != 0,
                true,
                x0,
                y0,
                y1,
                self.style,
                span,
                s0,
                s1,
            ));
        }
        if self.direction & BORDER_TOP != 0 {
            paint_h(b, y0, x0, x1, sym, &self.style);
        }
        let ghost m2 = buf_symbols(*b);
        let ghost s2 = buf_styles(*b);
        proof {
            assert(seg_painted(
                self.direction & BORDER_TOP != 0,
                false,
                y0,
                x0,
                x1,
                sym@,
                span,
                m1,
                m2,
            ));
            assert(seg_styled(
                self.direction & BORDER_TOP != 0,
                false,
                y0,
                x0,
                x1,
                self.style,
                span,
                s1,
                s2,
            ));
        }
        if self.direction & BORDER_RIGHT != 0 {
            paint_v(b, x1 - 1, y0, y1, sym, &self.style);
        }
        let ghost m3 = buf_symbols(*b);
        let ghost s3 = buf_styles(*b);
        proof {
            assert(seg_painted(
                self.direction & BORDER_RIGHT != 0,
                true,
                (x1 - 1) as u16,
                y0,
                y1,
                sym@,
                span,
                m2,
                m3,
            ));
            assert(seg_styled(
                self.direction & BORDER_RIGHT != 0,
                true,
                (x1 - 1) as u16,
                y0,
                y1,
                self.style,
                span,
                s2,
                s3,
            ));
        }
        if self.direction & BORDER_BOTTOM != 0 {
            paint_h(b, y1 - 1, x0, x1, sym, &self.style);
        }
        let ghost m4 = buf_symbols(*b);
        let ghost s4 = buf_styles(*b);
        proof {
            assert(seg_painted(
                self.direction & BORDER_BOTTOM != 0,
                false,
                (y1 - 1) as u16,
                x0,
                x1,
                sym@,
                span,
                m3,
                m4,
            ));
            assert(seg_styled(
                self.direction & BORDER_BOTTOM != 0,
                false,
                (y1 - 1) as u16,
                x0,
                x1,
                self.style,
                span,
                s3,
                s4,
            ));
            assert forall|x: u16, y: u16| #![trigger m4.contains_key((x, y))]
                m4.contains_key((x, y)) <==> (m0.contains_key((x, y)) || (on_bar(*self, x, y)
                    && span_contains(span, x, y))) by {
                let c1 = m1.contains_key((x, y));
                let c2 = m2.contains_key((x, y));
                let c3 = m3.contains_key((x, y));
            }
            assert forall|x: u16, y: u16| #![trigger m4.index((x, y))]
                m4.contains_key((x, y)) implies m4[(x, y)] == (if on_bar(*self, x, y)
                && span_contains(span, x, y) {
                bar_symbol(*self)
            } else {
                m0[(x, y)]
            }) by {
                let c1 = m1.contains_key((x, y));
                let v1 = m1[(x, y)];
                let c2 = m2.contains_key((x, y));
                let v2 = m2[(x, y)];
                let c3 = m3.contains_key((x, y));
                let v3 = m3[(x, y)];
            }
            assert forall|x: u16, y: u16| #![trigger s4.contains_key((x, y))]
                s4.contains_key((x, y)) <==> (s0.contains_key((x, y)) || (on_bar(*self, x, y)
                    && span_contains(span, x, y) && self.style is Some)) by {
                let c1 = s1.contains_key((x, y));
                let c2 = s2.contains_key((x, y));
                let c3 = s3.contains_key((x, y));
            }
            assert forall|x: u16, y: u16| #![trigger s4.index((x, y))]
                s4.contains_key((x, y)) implies s4[(x, y)] == (match self.style {
                Some(st) => if on_bar(*self, x, y) && span_contains(span, x, y) {
                    style_patched(s0[(x, y)], st)
                } else {
                    s0[(x, y)]
                },
                None => s0[(x, y)],
            }) by {
                let c0 = s0.contains_key((x, y));
                let c1 = s1.contains_key((x, y));
                let v1 = s1[(x, y)];
                let c2 = s2.contains_key((x, y));
                let v2 = s2[(x, y)];
                let c3 = s3.contains_key((x, y));
                let v3 = s3[(x, y)];
                match self.style {
                    Some(st) => {
                        let p0 = style_patched(s0[(x, y)], st);
                        let p1 = style_patched(v1, st);
                        let p2 = style_patched(v2, st);
                        let p3 = style_patched(v3, st);
                    },
                    None => (),
                }
            }
        }
    }

    /// Paint a copy of the bar; the buffer ends exactly as
    /// [`Bar::render`] leaves it, styles included.
    pub fn clone_render(&self, b: &mut ratatui::buffer::Buffer)
        requires
            self.area.wf(),
        ensures
            buf_span(*final(b)) == buf_span(*old(b)),
            forall|x: u16, y: u16| #![trigger buf_symbols(*final(b)).contains_key((x, y))]
                buf_symbols(*final(b)).contains_key((x, y)) <==> (buf_symbols(
                    *old(b),
                ).contains_key((x, y)) || (on_bar(*self, x, y) && span_contains(
                    buf_span(*old(b)),
                    x,
                    y,
                ))),
            forall|x: u16, y: u16| #![trigger buf_symbols(*final(b)).index((x, y))]
                buf_symbols(*final(b)).contains_key((x, y)) ==> buf_symbols(*final(b))[(x, y)]
                    == (if on_bar(*self, x, y) && span_contains(buf_span(*old(b)), x, y) {
                    bar_symbol(*self)
                } else {
                    buf_symbols(*old(b))[(x, y)]
                }),
            forall|x: u16, y: u16| #![trigger buf_styles(*final(b)).contains_key((x, y))]
                buf_styles(*final(b)).contains_key((x, y)) <==> (buf_styles(
                    *old(b),
                ).contains_key((x, y)) || (on_bar(*self, x, y) && span_contains(
                    buf_span(*old(b)),
                    x,
                    y,
                ) && self.style is Some)),
            forall|x: u16, y: u16| #![trigger buf_styles(*final(b)).index((x, y))]
                buf_styles(*final(b)).contains_key((x, y)) ==> buf_styles(*final(b))[(x, y)] == (
                match self.style {
                    Some(st) => if on_bar(*self, x, y) && span_contains(
                        buf_span(*old(b)),
                        x,
                        y,
                    ) {
                        style_patched(buf_styles(*old(b))[(x, y)], st)
                    } else {
                        buf_styles(*old(b))[(x, y)]
                    },
                    None => buf_styles(*old(b))[(x, y)],
                }),
    {
        self.render(b)
    }
}

} // verus!
