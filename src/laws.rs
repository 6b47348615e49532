use crate::color::ColorCode;
use crate::vga_buffer::{
    blank_row, grid_wf, put, put_all, sanitized, scrolled, supported, Grid, ScreenChar,
    BUFFER_HEIGHT, BUFFER_WIDTH, REPLACEMENT,
};
use vstd::prelude::*;

verus! {

/// Writing bytes that hold no newline and fit in the rest of the bottom row
/// advances the column by their number and places them, in the active
/// colour, from the starting column on; every other cell is left as it was.
pub proof fn lemma_fill_row(g: Grid, col: nat, color: ColorCode, bs: Seq<u8>)
    requires
        grid_wf(g),
        col + bs.len() <= BUFFER_WIDTH,
        forall|i: int| 0 <= i < bs.len() ==> bs[i] != 0x0a,
    ensures
        put_all(g, col, color, bs).1 == col + bs.len(),
        grid_wf(put_all(g, col, color, bs).0),
        forall|r: int| 0 <= r < BUFFER_HEIGHT - 1 ==> #[trigger] put_all(g, col, color, bs).0[r] == g[r],
        forall|i: int|
            0 <= i < bs.len() ==> #[trigger] put_all(g, col, color, bs).0[BUFFER_HEIGHT - 1][col + i]
                == (ScreenChar { character: bs[i], color_code: color }),
        forall|c: int|
            0 <= c < BUFFER_WIDTH && !(col <= c < col + bs.len()) ==> #[trigger] put_all(
                g,
                col,
                color,
                bs,
            ).0[BUFFER_HEIGHT - 1][c] == g[BUFFER_HEIGHT - 1][c],
    decreases bs.len(),
{
    if bs.len() > 0 {
        let front = bs.drop_last();
        lemma_fill_row(g, col, color, front);
        let p = put_all(g, col, color, front);
        let q = put_all(g, col, color, bs);
        assert(q == put(p.0, p.1, color, bs.last()));
        assert forall|i: int| 0 <= i < bs.len() implies #[trigger] q.0[BUFFER_HEIGHT - 1][col + i]
            == (ScreenChar { character: bs[i], color_code: color }) by {
            if i < front.len() {
                assert(front[i] == bs[i]);
                assert(p.0[BUFFER_HEIGHT - 1][col + i] == (ScreenChar { character: bs[i], color_code: color }));
            }
        }
    }
}

/// Filling the bottom row with `BUFFER_WIDTH` bytes and writing one more
/// (none of them a newline) scrolls exactly once: the full row moves one row
/// up, the rows above it move up too, and the last byte lands at column 0 of
/// a new blank bottom row, leaving the column at 1.
pub proof fn lemma_wrap_once(g: Grid, color: ColorCode, bs: Seq<u8>)
    requires
        grid_wf(g),
        bs.len() == BUFFER_WIDTH + 1,
        forall|i: int| 0 <= i < bs.len() ==> bs[i] != 0x0a,
    ensures
        put_all(g, 0, color, bs).1 == 1,
        forall|r: int| 0 <= r < BUFFER_HEIGHT - 2 ==> #[trigger] put_all(g, 0, color, bs).0[r] == g[r + 1],
        forall|c: int|
            0 <= c < BUFFER_WIDTH ==> #[trigger] put_all(g, 0, color, bs).0[BUFFER_HEIGHT - 2][c]
                == (ScreenChar { character: bs[c], color_code: color }),
        put_all(g, 0, color, bs).0[BUFFER_HEIGHT - 1] == blank_row(color).update(
            0,
            ScreenChar { character: bs[BUFFER_WIDTH as int], color_code: color },
        ),
        put_all(g, 0, color, bs).0.len() == BUFFER_HEIGHT,
{
    let front = bs.drop_last();
    lemma_fill_row(g, 0, color, front);
    let p = put_all(g, 0, color, front);
    assert forall|c: int| 0 <= c < BUFFER_WIDTH implies #[trigger] p.0[BUFFER_HEIGHT - 1][0 + c]
        == (ScreenChar { character: bs[c], color_code: color }) by {
        assert(front[c] == bs[c]);
    }
    let q = put_all(g, 0, color, bs);
    assert(q == put(p.0, p.1, color, bs.last()));
    let sc = scrolled(p.0, color);
    assert(sc[BUFFER_HEIGHT - 2] == p.0[BUFFER_HEIGHT - 1]);
    assert(q.0[BUFFER_HEIGHT - 2] == sc[BUFFER_HEIGHT - 2]);
    assert forall|c: int| 0 <= c < BUFFER_WIDTH implies #[trigger] q.0[BUFFER_HEIGHT - 2][c]
        == (ScreenChar { character: bs[c], color_code: color }) by {
        assert(p.0[BUFFER_HEIGHT - 1][0 + c] == (ScreenChar { character: bs[c], color_code: color }));
    }
}

/// A newline scrolls the grid and returns to column 0, whatever the column.
pub proof fn lemma_newline(g: Grid, col: nat, color: ColorCode)
    ensures
        put(g, col, color, 0x0a) == (scrolled(g, color), 0nat),
{
}

/// Cells written between two scrolls keep the colour that was active when
/// each was written, even after the colour is changed.
pub proof fn lemma_color_kept(g: Grid, col: nat, first: ColorCode, a: Seq<u8>, second: ColorCode, b: Seq<u8>)
    requires
        grid_wf(g),
        col + a.len() + b.len() <= BUFFER_WIDTH,
        forall|i: int| 0 <= i < a.len() ==> a[i] != 0x0a,
        forall|i: int| 0 <= i < b.len() ==> b[i] != 0x0a,
    ensures
        ({
            let p = put_all(g, col, first, a);
            let q = put_all(p.0, p.1, second, b);
            &&& forall|i: int| 0 <= i < a.len() ==> (#[trigger] q.0[BUFFER_HEIGHT - 1][col + i]).color_code == first
            &&& forall|j: int|
                0 <= j < b.len() ==> (#[trigger] q.0[BUFFER_HEIGHT - 1][col + a.len() + j]).color_code == second
        }),
{
    lemma_fill_row(g, col, first, a);
    let p = put_all(g, col, first, a);
    lemma_fill_row(p.0, p.1, second, b);
    let q = put_all(p.0, p.1, second, b);
    assert forall|i: int| 0 <= i < a.len() implies (#[trigger] q.0[BUFFER_HEIGHT - 1][col + i]).color_code
        == first by {
        assert(p.0[BUFFER_HEIGHT - 1][col + i].color_code == first);
    }
}

/// Every byte the display receives is printable ASCII, a newline or the
/// replacement code; a byte outside that set always becomes the replacement
/// code, never itself (unless it is the replacement code).
pub proof fn lemma_sanitized(s: Seq<u8>)
    ensures
        sanitized(s).len() == s.len(),
        forall|i: int| 0 <= i < s.len() ==> supported(#[trigger] sanitized(s)[i]) || sanitized(s)[i] == REPLACEMENT,
        forall|i: int| 0 <= i < s.len() && supported(s[i]) ==> #[trigger] sanitized(s)[i] == s[i],
        forall|i: int|
            0 <= i < s.len() && !supported(s[i]) ==> #[trigger] sanitized(s)[i] == REPLACEMENT,
        forall|i: int|
            0 <= i < s.len() && !supported(s[i]) && s[i] != REPLACEMENT ==> #[trigger] sanitized(s)[i] != s[i],
{
}

} // verus!
