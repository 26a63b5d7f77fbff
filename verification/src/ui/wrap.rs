//! How the log widget lays text out: each text is cut into lines of the area's width
//! and written bottom-up from the area's bottom row. The rows that earlier texts took
//! up only shorten the rows left for the next text; every text starts again at the
//! bottom row.
use vstd::prelude::*;

verus! {

/// A rectangle of terminal cells.
#[derive(Debug, Clone, Copy, PartialEq, Eq, Structural)]
pub struct Rect {
    pub x: u16,
    pub y: u16,
    pub width: u16,
    pub height: u16,
}

/// Where one line of a text goes: the bytes `start..end` of the text, written from
/// cell `(x, y)`.
#[derive(Debug, Clone, Copy, PartialEq, Eq, Structural)]
pub struct Placement {
    pub start: usize,
    pub end: usize,
    pub x: u16,
    pub y: u16,
}

/// The lines of one text that were written, with the length of the last line looked
/// at and the number of lines that text took up.
pub struct Wrapped {
    pub placements: Vec<Placement>,
    pub chars: u16,
    pub lines: u16,
}

/// The line width left of the area once `ox` columns are taken.
pub open spec fn wrap_width(area: Rect, ox: u16) -> int {
    area.width - ox
}

/// The number of rows left of the area once `oy` rows are taken.
pub open spec fn wrap_height(area: Rect, oy: u16) -> int {
    area.height - oy
}

/// The text's length as the layout counts it: modulo 2^16.
pub open spec fn wrap_len(text_len: usize) -> int {
    text_len as int % 0x1_0000
}

/// The number of lines the text is cut into.
pub open spec fn wrap_lines(text_len: usize, area: Rect, ox: u16) -> int {
    let w = wrap_width(area, ox);
    let l = wrap_len(text_len);
    l / w - ox + if l % w != 0 {
        1int
    } else {
        0int
    }
}

/// The first byte of line `k` (counted from `1`, bottom-up): the lines are written
/// from the last one up, so line `k` is the `(lines - k)`-th chunk of the text.
pub open spec fn line_start(text_len: usize, area: Rect, ox: u16, k: int) -> int {
    (wrap_lines(text_len, area, ox) - k) * wrap_width(area, ox)
}

/// One past the last byte of line `k`.
pub open spec fn line_end(text_len: usize, area: Rect, ox: u16, k: int) -> int {
    let e = line_start(text_len, area, ox, k) + wrap_width(area, ox);
    if e < text_len {
        e
    } else {
        text_len as int
    }
}

/// The number of lines written: as many as fit in the rows left.
pub open spec fn lines_drawn(text_len: usize, area: Rect, offset: (u16, u16)) -> int {
    let lines = wrap_lines(text_len, area, offset.0);
    let h = wrap_height(area, offset.1);
    if lines < h {
        lines
    } else {
        h
    }
}

/// The inputs on which laying a text out goes through: the offsets lie inside the
/// area, a line is at least one cell wide, there are at least `ox` full lines, and the
/// area's bottom row is a valid row whenever a line is written.
pub open spec fn wrap_ok(text_len: usize, area: Rect, offset: (u16, u16)) -> bool {
    &&& offset.0 <= area.width
    &&& offset.1 <= area.height
    &&& wrap_width(area, offset.0) > 0
    &&& wrap_len(text_len) / wrap_width(area, offset.0) >= offset.0
    &&& lines_drawn(text_len, area, offset) >= 1 ==> area.y + area.height <= u16::MAX
}

/// Where line `k` (from `1`) is written.
pub open spec fn wrap_placement(text_len: usize, area: Rect, offset: (u16, u16), k: int) -> Placement {
    Placement {
        start: line_start(text_len, area, offset.0, k) as usize,
        end: line_end(text_len, area, offset.0, k) as usize,
        x: area.x,
        y: (area.y + area.height - k) as u16,
    }
}

/// The lines written for a text, bottom line first.
pub open spec fn wrap_placements(text_len: usize, area: Rect, offset: (u16, u16)) -> Seq<Placement> {
    Seq::new(
        lines_drawn(text_len, area, offset) as nat,
        |k: int| wrap_placement(text_len, area, offset, k + 1),
    )
}

/// The number of rows the text took up: all its lines, or one more than the rows left
/// when it did not fit.
pub open spec fn wrap_rows(text_len: usize, area: Rect, offset: (u16, u16)) -> int {
    let lines = wrap_lines(text_len, area, offset.0);
    let h = wrap_height(area, offset.1);
    if lines > h {
        h + 1
    } else {
        lines
    }
}

/// The length of the last line looked at: the first line that did not fit, or else
/// the top line (`0` for an empty text).
pub open spec fn wrap_chars(text_len: usize, area: Rect, offset: (u16, u16)) -> int {
    let lines = wrap_lines(text_len, area, offset.0);
    let h = wrap_height(area, offset.1);
    let k = if lines > h {
        h + 1
    } else {
        lines
    };
    if k == 0 {
        0
    } else {
        line_end(text_len, area, offset.0, k) - line_start(text_len, area, offset.0, k)
    }
}

proof fn lemma_line_bounds(text_len: usize, area: Rect, offset: (u16, u16), k: int)
    requires
        wrap_ok(text_len, area, offset),
        1 <= k <= wrap_lines(text_len, area, offset.0),
    ensures
        0 <= line_start(text_len, area, offset.0, k) <= wrap_len(text_len),
        line_start(text_len, area, offset.0, k) <= line_end(text_len, area, offset.0, k),
        line_end(text_len, area, offset.0, k) - line_start(text_len, area, offset.0, k)
            <= wrap_width(area, offset.0),
        wrap_lines(text_len, area, offset.0) <= wrap_len(text_len),
{
    let w = wrap_width(area, offset.0);
    let l = wrap_len(text_len);
    let q = l / w;
    let r = l % w;
    let ox = offset.0 as int;
    let i = wrap_lines(text_len, area, offset.0) - k;
    vstd::arithmetic::div_mod::lemma_fundamental_div_mod(l, w);
    assert(l == w * q + r);
    assert(0 <= r < w);
    assert(0 <= i);
    assert(i * w <= l) by (nonlinear_arith)
        requires
            l == w * q + r,
            0 <= r < w,
            w > 0,
            0 <= i,
            ox >= 0,
            i <= q - ox + (if r != 0 {
                1int
            } else {
                0int
            }) - 1,
    ;
    assert(q + (if r != 0 {
        1int
    } else {
        0int
    }) <= l) by (nonlinear_arith)
        requires
            l == w * q + r,
            0 <= r,
            w >= 1,
            q >= 0,
    ;
    assert(0 <= i * w) by (nonlinear_arith)
        requires
            0 <= i,
            w > 0,
    ;
    assert(l <= text_len);
}

/// Lays a text of `text_len` bytes out in `area`, its lines `offset.0` cells narrower
/// than the area, with `offset.1` rows of the area counted as taken. Lines are written
/// bottom-up from the area's bottom row until the rows left are used up.
pub fn wrap_text(text_len: usize, area: Rect, offset: (u16, u16)) -> (r: Wrapped)
    requires
        wrap_ok(text_len, area, offset),
    ensures
        r.placements@ == wrap_placements(text_len, area, offset),
        r.lines == wrap_rows(text_len, area, offset),
        r.chars == wrap_chars(text_len, area, offset),
{
    let (ox, oy) = offset;
    let width = area.width - ox;
    let height = area.height - oy;
    let l: u16 = (text_len % 0x1_0000) as u16;
    assert(l == wrap_len(text_len));
    let quotient = l / width;
    let lines: u16 = if l % width != 0 {
        proof {
            vstd::arithmetic::div_mod::lemma_fundamental_div_mod(l as int, width as int);
            assert(quotient + 1 <= l) by (nonlinear_arith)
                requires
                    l == width * quotient + l % width,
                    l % width > 0,
                    width >= 1,
                    quotient >= 0,
            ;
        }
        quotient - ox + 1
    } else {
        quotient - ox
    };
    assert(lines == wrap_lines(text_len, area, ox));
    let mut placements: Vec<Placement> = Vec::new();
    let mut chars: u16 = 0;
    let mut k: u32 = 1;
    while k <= lines as u32
        invariant
            wrap_ok(text_len, area, offset),
            width == wrap_width(area, ox),
            height == wrap_height(area, oy),
            lines == wrap_lines(text_len, area, ox),
            offset == (ox, oy),
            1 <= k <= lines + 1,
            k - 1 <= height,
            placements@ == Seq::new(
                (k - 1) as nat,
                |j: int| wrap_placement(text_len, area, offset, j + 1),
            ),
            k == 1 ==> chars == 0,
            k > 1 ==> chars == line_end(text_len, area, ox, k - 1) - line_start(
                text_len,
                area,
                ox,
                k - 1,
            ),
        decreases lines + 1 - k,
    {
        proof {
            lemma_line_bounds(text_len, area, offset, k as int);
        }
        let i: u16 = lines - k as u16;
        let start: usize = i as usize * width as usize;
        assert(start == line_start(text_len, area, ox, k as int));
        let end: usize = if start + (width as usize) < text_len {
            start + width as usize
        } else {
            text_len
        };
        chars = (end - start) as u16;
        if k > height as u32 {
            assert(lines > height);
            proof {
                assert(placements@ =~= wrap_placements(text_len, area, offset));
            }
            return Wrapped { placements, chars, lines: k as u16 };
        }
        let y = area.y + area.height - k as u16;
        placements.push(Placement { start, end, x: area.x, y });
        proof {
            assert(placements@ =~= Seq::new(
                k as nat,
                |j: int| wrap_placement(text_len, area, offset, j + 1),
            ));
        }
        k = k + 1;
    }
    proof {
        assert(placements@ =~= wrap_placements(text_len, area, offset));
    }
    Wrapped { placements, chars, lines }
}

/// Every line written lies inside the area, no wider than a line, and below the rows
/// counted as taken.
pub proof fn lemma_wrap_inside_area(text_len: usize, area: Rect, offset: (u16, u16))
    requires
        wrap_ok(text_len, area, offset),
    ensures
        forall|j: int|
            0 <= j < wrap_placements(text_len, area, offset).len() ==> {
                let p = #[trigger] wrap_placements(text_len, area, offset)[j];
                &&& area.y + offset.1 <= p.y < area.y + area.height
                &&& p.x == area.x
                &&& p.start <= p.end <= text_len
                &&& p.end - p.start <= wrap_width(area, offset.0)
            },
{
    assert forall|j: int| 0 <= j < wrap_placements(text_len, area, offset).len() implies {
        let p = #[trigger] wrap_placements(text_len, area, offset)[j];
        &&& area.y + offset.1 <= p.y < area.y + area.height
        &&& p.x == area.x
        &&& p.start <= p.end <= text_len
        &&& p.end - p.start <= wrap_width(area, offset.0)
    } by {
        lemma_line_bounds(text_len, area, offset, j + 1);
    }
}

/// A text that fits is written whole: its lines, read top to bottom, are consecutive
/// pieces of the text from its first byte to its last.
pub proof fn lemma_wrap_covers_text(text_len: usize, area: Rect, oy: u16)
    requires
        wrap_ok(text_len, area, (0u16, oy)),
        text_len < 0x1_0000,
        wrap_lines(text_len, area, 0u16) <= wrap_height(area, oy),
    ensures
        ({
            let ps = wrap_placements(text_len, area, (0u16, oy));
            &&& ps.len() == wrap_lines(text_len, area, 0u16)
            &&& text_len > 0 ==> ps.len() > 0 && ps[ps.len() - 1].start == 0 && ps[0].end
                == text_len
            &&& forall|j: int| 0 <= j < ps.len() - 1 ==> #[trigger] ps[j + 1].end == ps[j].start
        }),
{
    let w = wrap_width(area, 0u16);
    let l = wrap_len(text_len);
    let lines = wrap_lines(text_len, area, 0u16);
    let q = l / w;
    let r = l % w;
    vstd::arithmetic::div_mod::lemma_fundamental_div_mod(l, w);
    assert(l == text_len);
    assert(lines * w >= l && (lines > 0 ==> (lines - 1) * w < l)) by (nonlinear_arith)
        requires
            l == w * q + r,
            0 <= r < w,
            w > 0,
            lines == q + (if r != 0 {
                1int
            } else {
                0int
            }),
    ;
    let ps = wrap_placements(text_len, area, (0u16, oy));
    assert forall|j: int| 0 <= j < ps.len() - 1 implies #[trigger] ps[j + 1].end == ps[j].start by {
        let i = lines - j - 2;
        assert((i * w + w) == (lines - j - 1) * w) by (nonlinear_arith)
            requires
                i == lines - j - 2,
        ;
        assert((lines - j - 1) * w <= (lines - 1) * w) by (nonlinear_arith)
            requires
                0 <= j,
                w > 0,
        ;
        assert(0 <= (lines - j - 1) * w) by (nonlinear_arith)
            requires
                j < lines - 1,
                w > 0,
        ;
    }
    if text_len > 0 {
        assert(q > 0 || r > 0) by (nonlinear_arith)
            requires
                l == w * q + r,
                l > 0,
                q >= 0,
                r >= 0,
        ;
        assert(lines >= 1);
        assert(((lines - 1) * w + w) == lines * w) by (nonlinear_arith);
        assert((lines - lines) * w == 0) by (nonlinear_arith);
    }
}

/// The log widget draws only in an area at least 8 cells wide and 1 row high.
pub open spec fn can_draw(area: Rect) -> bool {
    area.width >= 8 && area.height >= 1
}

/// The inputs on which drawing texts of lengths `lens`, newest first, goes through,
/// starting `offset` rows above the bottom: each text can be laid out, and the rows
/// used stay a valid row count.
pub open spec fn render_ok(area: Rect, lens: Seq<usize>, offset: int) -> bool
    decreases lens.len(),
{
    if lens.len() == 0 {
        true
    } else {
        let o = (0u16, offset as u16);
        let next = offset + wrap_rows(lens[0], area, o);
        &&& 0 <= offset <= u16::MAX
        &&& wrap_ok(lens[0], area, o)
        &&& next <= u16::MAX
        &&& next < area.height ==> render_ok(area, lens.drop_first(), next)
    }
}

/// The lines written for each text, newest first, starting `offset` rows above the
/// bottom: each text goes above the rows the texts before it took up, and drawing stops
/// once the area is full.
pub open spec fn render_spec(area: Rect, lens: Seq<usize>, offset: int) -> Seq<Seq<Placement>>
    decreases lens.len(),
{
    if lens.len() == 0 {
        seq![]
    } else {
        let o = (0u16, offset as u16);
        let placed = wrap_placements(lens[0], area, o);
        let next = offset + wrap_rows(lens[0], area, o);
        if next >= area.height {
            seq![placed]
        } else {
            seq![placed] + render_spec(area, lens.drop_first(), next)
        }
    }
}

/// Whether laying a text out goes through (see [`wrap_ok`]); when it does, also the
/// number of rows the text takes up.
pub fn wrap_fits(text_len: usize, area: Rect, offset: (u16, u16)) -> (r: Option<u16>)
    ensures
        r is Some <==> wrap_ok(text_len, area, offset),
        r matches Some(rows) ==> rows == wrap_rows(text_len, area, offset),
{
    let (ox, oy) = offset;
    if ox > area.width || oy > area.height {
        return None;
    }
    let width = area.width - ox;
    if width == 0 {
        return None;
    }
    let l: u16 = (text_len % 0x1_0000) as u16;
    let quotient = l / width;
    if quotient < ox {
        return None;
    }
    proof {
        vstd::arithmetic::div_mod::lemma_fundamental_div_mod(l as int, width as int);
    }
    let lines: u16 = if l % width != 0 {
        assert(quotient + 1 <= l) by (nonlinear_arith)
            requires
                l == width * quotient + l % width,
                l % width > 0,
                width >= 1,
                quotient >= 0,
        ;
        quotient - ox + 1
    } else {
        quotient - ox
    };
    let height = area.height - oy;
    let drawn = if lines < height {
        lines
    } else {
        height
    };
    if drawn >= 1 && area.y as u32 + area.height as u32 > 0xffff {
        return None;
    }
    Some(if lines > height { height + 1 } else { lines })
}

/// Whether the log widget can draw texts of lengths `text_lens` in `area` (see
/// [`render_ok`]); an area it does not draw in is always fine.
pub fn render_fits(area: Rect, text_lens: &Vec<usize>) -> (r: bool)
    ensures
        r == (can_draw(area) ==> render_ok(area, text_lens@, 0)),
{
    if area.width < 8 || area.height < 1 {
        return true;
    }
    let n = text_lens.len();
    let mut offset: u16 = 0;
    let mut i: usize = 0;
    assert(text_lens@.skip(0) =~= text_lens@);
    while i < n
        invariant
            can_draw(area),
            n == text_lens@.len(),
            i <= n,
            offset < area.height,
            render_ok(area, text_lens@, 0) == render_ok(area, text_lens@.skip(i as int), offset as int),
        decreases n - i,
    {
        let ghost rest = text_lens@.skip(i as int);
        assert(rest[0] == text_lens@[i as int]);
        assert(rest.drop_first() =~= text_lens@.skip(i + 1));
        match wrap_fits(text_lens[i], area, (0, offset)) {
            None => {
                return false;
            },
            Some(rows) => {
                if offset as u32 + rows as u32 > 0xffff {
                    return false;
                }
                let next = offset + rows;
                if next >= area.height {
                    return true;
                }
                offset = next;
            },
        }
        i = i + 1;
    }
    assert(text_lens@.skip(i as int) =~= Seq::<usize>::empty());
    true
}

/// The views of the placements of each text.
pub open spec fn plan_view(plan: Seq<Vec<Placement>>) -> Seq<Seq<Placement>> {
    plan.map_values(|v: Vec<Placement>| v@)
}

/// Plans the drawing of the log widget in `area`, given the byte lengths of the texts
/// of its records, newest first: the lines of each text that are written, and where.
pub fn render_plan(area: Rect, text_lens: &Vec<usize>) -> (plan: Vec<Vec<Placement>>)
    requires
        can_draw(area) ==> render_ok(area, text_lens@, 0),
    ensures
        plan_view(plan@) == if can_draw(area) {
            render_spec(area, text_lens@, 0)
        } else {
            seq![]
        },
{
    let mut plan: Vec<Vec<Placement>> = Vec::new();
    if area.width < 8 || area.height < 1 {
        assert(plan_view(plan@) =~= seq![]);
        return plan;
    }
    let n = text_lens.len();
    let mut offset: u16 = 0;
    let mut i: usize = 0;
    let mut stop = false;
    assert(text_lens@.skip(0) =~= text_lens@);
    assert(plan_view(plan@) =~= seq![]);
    while i < n && !stop
        invariant
            can_draw(area),
            n == text_lens@.len(),
            i <= n,
            !stop ==> offset < area.height,
            !stop ==> render_ok(area, text_lens@.skip(i as int), offset as int),
            !stop ==> plan_view(plan@) + render_spec(area, text_lens@.skip(i as int), offset as int)
                == render_spec(area, text_lens@, 0),
            stop ==> plan_view(plan@) == render_spec(area, text_lens@, 0),
        decreases n - i,
    {
        let ghost rest = text_lens@.skip(i as int);
        assert(rest[0] == text_lens@[i as int]);
        assert(rest.drop_first() =~= text_lens@.skip(i + 1));
        let w = wrap_text(text_lens[i], area, (0, offset));
        let ghost before = plan@;
        let next = offset + w.lines;
        plan.push(w.placements);
        assert(plan_view(plan@) =~= plan_view(before) + seq![w.placements@]);
        offset = next;
        i = i + 1;
        if offset >= area.height {
            stop = true;
            assert(plan_view(plan@) =~= render_spec(area, text_lens@, 0));
        } else {
            assert(plan_view(plan@) + render_spec(area, text_lens@.skip(i as int), offset as int)
                =~= render_spec(area, text_lens@, 0));
        }
    }
    if !stop {
        assert(text_lens@.skip(i as int) =~= Seq::<usize>::empty());
        assert(plan_view(plan@) =~= render_spec(area, text_lens@, 0));
    }
    plan
}

} // verus!
