use vstd::prelude::*;

verus! {

/// A rectangle of terminal cells, in global buffer coordinates.
#[derive(Debug, Clone, Copy, PartialEq, Eq, Structural)]
pub struct Rect {
    pub x: u16,
    pub y: u16,
    pub width: u16,
    pub height: u16,
}

impl Rect {
    /// Both edges stay within the coordinate type, as the terminal
    /// buffers this library paints into guarantee of their own areas.
    pub open spec fn wf(self) -> bool {
        self.x + self.width <= u16::MAX && self.y + self.height <= u16::MAX
    }

    /// The number of cells covered.
    pub open spec fn spec_area(self) -> int {
        self.width * self.height
    }

    /// Whether the cell at (x, y) lies inside the rectangle.
    pub open spec fn spec_contains(self, x: u16, y: u16) -> bool {
        self.x <= x < self.x + self.width && self.y <= y < self.y + self.height
    }

    /// The number of cells covered.
    pub fn area(&self) -> (r: u32)
        ensures
            r == self.spec_area(),
    {
        proof {
            assert(self.width * self.height <= 0xffff * 0xffff) by (nonlinear_arith)
                requires
                    self.width <= 0xffff,
                    self.height <= 0xffff,
            ;
        }
        (self.width as u32) * (self.height as u32)
    }
}

// The terminal buffer and the cell style come from the ratatui widget
// library; both are opaque here. What the contracts need of a buffer is
// given three names: the rectangle of cells it covers, the symbol each
// of its cells currently shows, and the style each of them carries. A
// fourth name says what applying a style leaves on a cell.

#[verifier::external_type_specification]
#[verifier::external_body]
pub struct ExBuffer(ratatui::buffer::Buffer);

#[verifier::external_type_specification]
#[verifier::external_body]
pub struct ExStyle(ratatui::style::Style);

/// The area a ratatui buffer covers, as (x, y, width, height).
pub uninterp spec fn buf_span(b: ratatui::buffer::Buffer) -> (u16, u16, u16, u16);

/// The symbol each cell of a ratatui buffer shows, keyed by its global
/// (x, y) coordinate.
pub uninterp spec fn buf_symbols(b: ratatui::buffer::Buffer) -> Map<(u16, u16), Seq<char>>;

/// The style each cell of a ratatui buffer carries, keyed by its
/// global (x, y) coordinate.
pub uninterp spec fn buf_styles(b: ratatui::buffer::Buffer) -> Map<
    (u16, u16),
    ratatui::style::Style,
>;

/// What applying a style leaves on a cell that carried `before`: every
/// part the applied style sets replaces the old one, and every part it
/// leaves unset is kept.
pub uninterp spec fn style_patched(
    before: ratatui::style::Style,
    applied: ratatui::style::Style,
) -> ratatui::style::Style;

/// Whether the cell at (x, y) lies inside the span.
pub open spec fn span_contains(span: (u16, u16, u16, u16), x: u16, y: u16) -> bool {
    span.0 <= x < span.0 + span.2 && span.1 <= y < span.1 + span.3
}

/// Relies on ratatui's Buffer::cell_mut and Cell::set_symbol: inside
/// the buffer's area the addressed cell's symbol is replaced and
/// nothing else — no style, no other cell — changes; outside it the
/// buffer is left untouched.
#[verifier::external_body]
pub(crate) fn set_symbol_at(b: &mut ratatui::buffer::Buffer, x: u16, y: u16, sym: &str)
    ensures
        buf_span(*final(b)) == buf_span(*old(b)),
        buf_styles(*final(b)) == buf_styles(*old(b)),
        span_contains(buf_span(*old(b)), x, y) ==> buf_symbols(*final(b)) == buf_symbols(
            *old(b),
        ).insert((x, y), sym@),
        !span_contains(buf_span(*old(b)), x, y) ==> buf_symbols(*final(b)) == buf_symbols(
            *old(b),
        ),
{
    if let Some(cell) = b.cell_mut((x, y)) {
        cell.set_symbol(sym);
    }
}

/// Relies on ratatui's Buffer::cell_mut and Cell::set_style: inside
/// the buffer's area — where every cell carries a style — the
/// addressed cell's style gets the given one applied and nothing else
/// changes; outside it the buffer is left untouched. Applying the same
/// style a second time changes nothing more, since each of its parts
/// either overwrites or is left aside both times; the last clause
/// records that for the styles of this call.
#[verifier::external_body]
pub(crate) fn set_style_at(b: &mut ratatui::buffer::Buffer, x: u16, y: u16, style: &ratatui::style::Style)
    ensures
        buf_span(*final(b)) == buf_span(*old(b)),
        buf_symbols(*final(b)) == buf_symbols(*old(b)),
        span_contains(buf_span(*old(b)), x, y) ==> buf_styles(*old(b)).contains_key((x, y)),
        span_contains(buf_span(*old(b)), x, y) ==> buf_styles(*final(b)) == buf_styles(
            *old(b),
        ).insert((x, y), style_patched(buf_styles(*old(b))[(x, y)], *style)),
        !span_contains(buf_span(*old(b)), x, y) ==> buf_styles(*final(b)) == buf_styles(
            *old(b),
        ),
        style_patched(style_patched(buf_styles(*old(b))[(x, y)], *style), *style)
            == style_patched(buf_styles(*old(b))[(x, y)], *style),
{
    if let Some(cell) = b.cell_mut((x, y)) {
        cell.set_style(*style);
    }
}

} // verus!
