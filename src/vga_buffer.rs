use crate::color::{Color, ColorCode};
use volatile::Volatile;
use vstd::prelude::*;
use vstd::string::StringSliceAdditionalSpecFns;

verus! {

/// Rows of the text grid.
pub const BUFFER_HEIGHT: usize = 25;

/// Columns of the text grid.
pub const BUFFER_WIDTH: usize = 80;

/// The code written in place of a byte that the display cannot render.
pub const REPLACEMENT: u8 = 0xfe;

/// One character cell: the character byte followed by its attribute byte.
#[derive(Debug, Clone, Copy, PartialEq, Eq, Structural)]
pub struct ScreenChar {
    pub character: u8,
    pub color_code: ColorCode,
}

#[verifier::external_type_specification]
#[verifier::external_body]
#[verifier::reject_recursive_types(T)]
pub struct ExVolatile<T: Copy>(Volatile<T>);

/// The value that a volatile cell currently holds.
pub uninterp spec fn held(v: Volatile<ScreenChar>) -> ScreenChar;

/// Relies on `volatile::Volatile::new`: the new cell holds `c`.
#[verifier::external_body]
fn cell_new(c: ScreenChar) -> (r: Volatile<ScreenChar>)
    ensures
        held(r) == c,
{
    Volatile::new(c)
}

/// Relies on `volatile::Volatile::read`: a volatile load of the held value.
#[verifier::external_body]
fn cell_read(v: &Volatile<ScreenChar>) -> (r: ScreenChar)
    ensures
        r == held(*v),
{
    v.read()
}

/// Relies on `volatile::Volatile::write`: a volatile store, after which the cell holds `c`.
#[verifier::external_body]
fn cell_write(v: &mut Volatile<ScreenChar>, c: ScreenChar)
    ensures
        held(*final(v)) == c,
{
    v.write(c)
}

/// A grid of cells as rows of columns, top row first.
pub type Grid = Seq<Seq<ScreenChar>>;

/// A blank cell: a space in the given colour.
pub open spec fn blank(color: ColorCode) -> ScreenChar {
    ScreenChar { character: 0x20, color_code: color }
}

/// A row of blank cells.
pub open spec fn blank_row(color: ColorCode) -> Seq<ScreenChar> {
    Seq::new(BUFFER_WIDTH as nat, |c: int| blank(color))
}

/// A grid of blank cells.
pub open spec fn blank_grid(color: ColorCode) -> Grid {
    Seq::new(BUFFER_HEIGHT as nat, |r: int| blank_row(color))
}

/// A grid of the right shape.
pub open spec fn grid_wf(g: Grid) -> bool {
    &&& g.len() == BUFFER_HEIGHT
    &&& forall|r: int| 0 <= r < BUFFER_HEIGHT ==> #[trigger] g[r].len() == BUFFER_WIDTH
}

/// Every row moved up by one, the top row dropped, and a blank bottom row added.
pub open spec fn scrolled(g: Grid, color: ColorCode) -> Grid {
    g.subrange(1, BUFFER_HEIGHT as int).push(blank_row(color))
}

/// `b` is a byte the display shows as itself: printable ASCII or newline.
pub open spec fn supported(b: u8) -> bool {
    (0x20 <= b && b <= 0x7e) || b == 0x0a
}

/// The byte the display receives for `b`.
pub open spec fn sanitize(b: u8) -> u8 {
    if supported(b) {
        b
    } else {
        REPLACEMENT
    }
}

/// The bytes the display receives for `s`.
pub open spec fn sanitized(s: Seq<u8>) -> Seq<u8> {
    s.map_values(|b: u8| sanitize(b))
}

/// Grid and column after writing one byte at column `col` in colour `color`.
pub open spec fn put(g: Grid, col: nat, color: ColorCode, b: u8) -> (Grid, nat) {
    let cell = ScreenChar { character: b, color_code: color };
    if b == 0x0a {
        (scrolled(g, color), 0)
    } else if col >= BUFFER_WIDTH {
        let s = scrolled(g, color);
        (s.update(BUFFER_HEIGHT - 1, s[BUFFER_HEIGHT - 1].update(0, cell)), 1)
    } else {
        (g.update(BUFFER_HEIGHT - 1, g[BUFFER_HEIGHT - 1].update(col as int, cell)), col + 1)
    }
}

/// Grid and column after writing the bytes of `bs` one after another.
pub open spec fn put_all(g: Grid, col: nat, color: ColorCode, bs: Seq<u8>) -> (Grid, nat)
    decreases bs.len(),
{
    if bs.len() == 0 {
        (g, col)
    } else {
        let p = put_all(g, col, color, bs.drop_last());
        put(p.0, p.1, color, bs.last())
    }
}

/// The grid of cells that the hardware scans out.
pub struct Buffer {
    chars: Vec<Vec<Volatile<ScreenChar>>>,
}

impl Buffer {
    /// What the cells hold.
    pub closed spec fn view(&self) -> Grid {
        Seq::new(self.chars@.len(), |r: int| Seq::new(self.chars@[r]@.len(), |c: int| held(self.chars@[r]@[c])))
    }

    /// The buffer has `BUFFER_HEIGHT` rows of `BUFFER_WIDTH` cells.
    pub closed spec fn wf(&self) -> bool {
        &&& self.chars@.len() == BUFFER_HEIGHT
        &&& forall|r: int| 0 <= r < BUFFER_HEIGHT ==> #[trigger] self.chars@[r]@.len() == BUFFER_WIDTH
    }

    /// A buffer whose every cell is `blank(color)`.
    pub fn new_blank(color: ColorCode) -> (r: Buffer)
        ensures
            r.wf(),
            r@ == blank_grid(color),
    {
        let mut chars: Vec<Vec<Volatile<ScreenChar>>> = Vec::new();
        let mut row: usize = 0;
        while row < BUFFER_HEIGHT
            invariant
                row <= BUFFER_HEIGHT,
                chars@.len() == row,
                forall|r: int| 0 <= r < row ==> #[trigger] chars@[r]@.len() == BUFFER_WIDTH,
                forall|r: int, c: int|
                    0 <= r < row && 0 <= c < BUFFER_WIDTH ==> held(#[trigger] chars@[r]@[c]) == blank(color),
            decreases BUFFER_HEIGHT - row,
        {
            let mut line: Vec<Volatile<ScreenChar>> = Vec::new();
            let mut col: usize = 0;
            while col < BUFFER_WIDTH
                invariant
                    col <= BUFFER_WIDTH,
                    line@.len() == col,
                    forall|c: int| 0 <= c < col ==> held(#[trigger] line@[c]) == blank(color),
                decreases BUFFER_WIDTH - col,
            {
                line.push(cell_new(ScreenChar { character: 0x20, color_code: color }));
                col += 1;
            }
            chars.push(line);
            row += 1;
        }
        let r = Buffer { chars };
        assert(r@ =~~= blank_grid(color));
        r
    }

    /// The cell at `row`, `col`, by a volatile read.
    pub fn read_cell(&self, row: usize, col: usize) -> (r: ScreenChar)
        requires
            self.wf(),
            row < BUFFER_HEIGHT,
            col < BUFFER_WIDTH,
        ensures
            r == self@[row as int][col as int],
    {
        cell_read(&self.chars[row][col])
    }

    /// Stores `c` at `row`, `col` by a volatile write; no other cell changes.
    pub fn write_cell(&mut self, row: usize, col: usize, c: ScreenChar)
        requires
            old(self).wf(),
            row < BUFFER_HEIGHT,
            col < BUFFER_WIDTH,
        ensures
            final(self).wf(),
            final(self)@ == old(self)@.update(row as int, old(self)@[row as int].update(col as int, c)),
    {
        cell_write(&mut self.chars[row][col], c);
        assert(self@ =~~= old(self)@.update(row as int, old(self)@[row as int].update(col as int, c)));
    }
}

/// Writes text into the bottom row of a grid, wrapping and scrolling as it fills.
pub struct Writer {
    column_position: usize,
    color_code: ColorCode,
    buffer: Buffer,
}

impl Writer {
    /// What the grid shows.
    pub closed spec fn grid(&self) -> Grid {
        self.buffer@
    }

    /// The next free column of the bottom row.
    pub closed spec fn col(&self) -> nat {
        self.column_position as nat
    }

    /// The attribute given to cells written from now on.
    pub closed spec fn color(&self) -> ColorCode {
        self.color_code
    }

    /// The grid has its shape and the column lies within the row.
    pub closed spec fn wf(&self) -> bool {
        &&& self.buffer.wf()
        &&& self.column_position <= BUFFER_WIDTH
    }

    /// A writer on a blank grid, at the start of the bottom row.
    pub fn new(foreground: Color, background: Color) -> (r: Writer)
        ensures
            r.wf(),
            r.color() == ColorCode(crate::color::attribute(foreground, background)),
            r.grid() == blank_grid(r.color()),
            r.col() == 0,
    {
        let color_code = ColorCode::new(foreground, background);
        Writer { column_position: 0, color_code, buffer: Buffer::new_blank(color_code) }
    }

    /// Overwrites `row` with blank cells in the current colour.
    fn clear_row(&mut self, row: usize)
        requires
            old(self).wf(),
            row < BUFFER_HEIGHT,
        ensures
            final(self).wf(),
            final(self).grid() == old(self).grid().update(row as int, blank_row(old(self).color())),
            final(self).col() == old(self).col(),
            final(self).color() == old(self).color(),
    {
        let blank_cell = ScreenChar { character: 0x20, color_code: self.color_code };
        let ghost g0 = self.grid();
        let mut col: usize = 0;
        while col < BUFFER_WIDTH
            invariant
                col <= BUFFER_WIDTH,
                row < BUFFER_HEIGHT,
                self.wf(),
                self.column_position == old(self).column_position,
                self.color_code == old(self).color_code,
                blank_cell == blank(self.color_code),
                g0 == old(self).grid(),
                grid_wf(g0),
                self.grid().len() == BUFFER_HEIGHT,
                forall|r: int| 0 <= r < BUFFER_HEIGHT && r != row ==> #[trigger] self.grid()[r] == g0[r],
                self.grid()[row as int].len() == BUFFER_WIDTH,
                forall|c: int| 0 <= c < col ==> #[trigger] self.grid()[row as int][c] == blank_cell,
                forall|c: int| col <= c < BUFFER_WIDTH ==> #[trigger] self.grid()[row as int][c] == g0[row as int][c],
            decreases BUFFER_WIDTH - col,
        {
            self.buffer.write_cell(row, col, blank_cell);
            col += 1;
        }
        assert(self.grid() =~~= g0.update(row as int, blank_row(self.color_code)));
    }

    /// Scrolls every row up by one, clears the bottom row and returns to its start.
    fn new_line(&mut self)
        requires
            old(self).wf(),
        ensures
            final(self).wf(),
            final(self).grid() == scrolled(old(self).grid(), old(self).color()),
            final(self).col() == 0,
            final(self).color() == old(self).color(),
    {
        let ghost g0 = self.grid();
        let mut row: usize = 1;
        while row < BUFFER_HEIGHT
            invariant
                1 <= row <= BUFFER_HEIGHT,
                self.wf(),
                self.color_code == old(self).color_code,
                g0 == old(self).grid(),
                grid_wf(g0),
                grid_wf(self.grid()),
                forall|r: int, c: int|
                    0 <= r < row - 1 && 0 <= c < BUFFER_WIDTH ==> #[trigger] self.grid()[r][c] == g0[r + 1][c],
                forall|r: int| row - 1 <= r < BUFFER_HEIGHT ==> #[trigger] self.grid()[r] == g0[r],
            decreases BUFFER_HEIGHT - row,
        {
            let mut col: usize = 0;
            while col < BUFFER_WIDTH
                invariant
                    1 <= row < BUFFER_HEIGHT,
                    col <= BUFFER_WIDTH,
                    self.wf(),
                    self.color_code == old(self).color_code,
                    g0 == old(self).grid(),
                    grid_wf(g0),
                    grid_wf(self.grid()),
                    forall|r: int, c: int|
                        0 <= r < row - 1 && 0 <= c < BUFFER_WIDTH ==> #[trigger] self.grid()[r][c] == g0[r + 1][c],
                    forall|c: int| 0 <= c < col ==> #[trigger] self.grid()[row - 1][c] == g0[row as int][c],
                    forall|c: int| col <= c < BUFFER_WIDTH ==> #[trigger] self.grid()[row - 1][c] == g0[row - 1][c],
                    forall|r: int| row <= r < BUFFER_HEIGHT ==> #[trigger] self.grid()[r] == g0[r],
                decreases BUFFER_WIDTH - col,
            {
                let character = self.buffer.read_cell(row, col);
                self.buffer.write_cell(row - 1, col, character);
                col += 1;
            }
            row += 1;
        }
        self.clear_row(BUFFER_HEIGHT - 1);
        self.column_position = 0;
        assert(self.grid() =~~= scrolled(g0, self.color_code));
    }

    /// Writes one byte: a newline scrolls; any other byte is placed at the
    /// next column of the bottom row, after a scroll if the row is full.
    pub fn write_byte(&mut self, byte: u8)
        requires
            old(self).wf(),
        ensures
            final(self).wf(),
            (final(self).grid(), final(self).col()) == put(old(self).grid(), old(self).col(), old(self).color(), byte),
            final(self).color() == old(self).color(),
    {
        if byte == 0x0a {
            self.new_line();
        } else {
            if self.column_position >= BUFFER_WIDTH {
                self.new_line();
            }
            let row = BUFFER_HEIGHT - 1;
            let col = self.column_position;
            let color_code = self.color_code;
            self.buffer.write_cell(row, col, ScreenChar { character: byte, color_code });
            self.column_position += 1;
        }
    }

    /// Writes the bytes of `string_data` in order, each one the display cannot
    /// render replaced by `REPLACEMENT`.
    pub fn write_string(&mut self, string_data: &str)
        requires
            old(self).wf(),
        ensures
            final(self).wf(),
            (final(self).grid(), final(self).col()) == put_all(
                old(self).grid(),
                old(self).col(),
                old(self).color(),
                sanitized(string_data.spec_bytes()),
            ),
            final(self).color() == old(self).color(),
    {
        let bytes = string_data.as_bytes();
        let ghost g0 = self.grid();
        let ghost c0 = self.col();
        let mut i: usize = 0;
        while i < bytes.len()
            invariant
                i <= bytes@.len(),
                bytes@ == string_data.spec_bytes(),
                self.wf(),
                self.color() == old(self).color(),
                g0 == old(self).grid(),
                c0 == old(self).col(),
                (self.grid(), self.col()) == put_all(g0, c0, self.color(), sanitized(bytes@).subrange(0, i as int)),
            decreases bytes@.len() - i,
        {
            let byte = bytes[i];
            let ghost before = sanitized(bytes@).subrange(0, i as int);
            if (0x20 <= byte && byte <= 0x7e) || byte == 0x0a {
                self.write_byte(byte);
            } else {
                self.write_byte(REPLACEMENT);
            }
            i += 1;
            assert(sanitized(bytes@).subrange(0, i as int).drop_last() =~= before);
        }
        assert(sanitized(bytes@).subrange(0, i as int) =~= sanitized(bytes@));
    }

    /// Writes the bytes of `bs` in order, as they are.
    fn write_bytes(&mut self, bs: &Vec<u8>)
        requires
            old(self).wf(),
        ensures
            final(self).wf(),
            (final(self).grid(), final(self).col()) == put_all(old(self).grid(), old(self).col(), old(self).color(), bs@),
            final(self).color() == old(self).color(),
    {
        let mut i: usize = 0;
        while i < bs.len()
            invariant
                i <= bs@.len(),
                self.wf(),
                self.color() == old(self).color(),
                (self.grid(), self.col()) == put_all(old(self).grid(), old(self).col(), self.color(), bs@.subrange(0, i as int)),
            decreases bs@.len() - i,
        {
            let ghost before = bs@.subrange(0, i as int);
            self.write_byte(bs[i]);
            i += 1;
            assert(bs@.subrange(0, i as int).drop_last() =~= before);
        }
        assert(bs@.subrange(0, i as int) =~= bs@);
    }

    /// Changes the attribute of cells written from now on; the grid keeps its cells.
    pub fn set_color(&mut self, foreground: Color, background: Color)
        requires
            old(self).wf(),
        ensures
            final(self).wf(),
            final(self).color() == ColorCode(crate::color::attribute(foreground, background)),
            final(self).grid() == old(self).grid(),
            final(self).col() == old(self).col(),
    {
        self.color_code = ColorCode::new(foreground, background);
    }

    /// The next free column of the bottom row.
    pub fn column_position(&self) -> (r: usize)
        ensures
            r == self.col(),
    {
        self.column_position
    }

    /// The attribute given to cells written from now on.
    pub fn color_code(&self) -> (r: ColorCode)
        ensures
            r == self.color(),
    {
        self.color_code
    }

    /// The cell at `row`, `col`, top row first.
    pub fn char_at(&self, row: usize, col: usize) -> (r: ScreenChar)
        requires
            self.wf(),
            row < BUFFER_HEIGHT,
            col < BUFFER_WIDTH,
        ensures
            r == self.grid()[row as int][col as int],
    {
        self.buffer.read_cell(row, col)
    }
}

/// The bytes of the greeting `THE POLYGLOT PROGRAMMER OS`.
pub open spec fn greeting() -> Seq<u8> {
    seq![
        84u8, 72, 69, 32, 80, 79, 76, 89, 71, 76, 79, 84, 32,
        80, 82, 79, 71, 82, 65, 77, 77, 69, 82, 32, 79, 83,
    ]
}

/// A writer in yellow on black, on a blank grid, after writing the greeting.
pub fn print_data() -> (r: Writer)
    ensures
        r.wf(),
        r.color() == ColorCode(crate::color::attribute(Color::Yellow, Color::Black)),
        (r.grid(), r.col()) == put_all(blank_grid(r.color()), 0, r.color(), greeting()),
{
    let mut writer = Writer::new(Color::Yellow, Color::Black);
    let message: Vec<u8> = vec![
        84u8, 72, 69, 32, 80, 79, 76, 89, 71, 76, 79, 84, 32,
        80, 82, 79, 71, 82, 65, 77, 77, 69, 82, 32, 79, 83,
    ];
    assert(message@ =~= greeting());
    writer.write_bytes(&message);
    writer
}

} // verus!
