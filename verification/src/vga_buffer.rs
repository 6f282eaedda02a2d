//! The character display: a fixed 25 x 80 grid of two-byte cells backed
//! by hardware memory, and the `Writer` that renders bytes onto its
//! bottom row with line-wrap and scroll.
//!
//! Every cell access goes through a volatile handle, so the hardware sees
//! each read and write; the grid's contents are modelled by the
//! uninterpreted sequence `buffer_chars`, and all wrap and scroll logic is
//! verified against that model.

use vstd::prelude::*;
use vstd::string::StringSliceAdditionalSpecFns;
use volatile::Volatile;

verus! {

/// Number of rows of the character display.
pub const BUFFER_HEIGHT: usize = 25;

/// Number of columns of the character display.
pub const BUFFER_WIDTH: usize = 80;

/// The newline byte, the one control byte the writer interprets.
pub const NEWLINE: u8 = 0x0a;

/// The glyph stored in place of a byte outside the supported range.
pub const FALLBACK_GLYPH: u8 = 0xfe;

/// The sixteen palette entries of the text mode, one nibble each.
#[allow(dead_code)]
#[derive(Debug, Clone, Copy, PartialEq, Eq, Structural)]
pub enum Color {
    Black,
    Blue,
    Green,
    Cyan,
    Red,
    Magenta,
    Brown,
    LightGray,
    DarkGray,
    LightBlue,
    LightGreen,
    LightCyan,
    LightRed,
    Pink,
    Yellow,
    White,
}

impl Color {
    /// The palette index of this color, in the fixed hardware order.
    pub open spec fn spec_nibble(self) -> u8 {
        match self {
            Color::Black => 0,
            Color::Blue => 1,
            Color::Green => 2,
            Color::Cyan => 3,
            Color::Red => 4,
            Color::Magenta => 5,
            Color::Brown => 6,
            Color::LightGray => 7,
            Color::DarkGray => 8,
            Color::LightBlue => 9,
            Color::LightGreen => 10,
            Color::LightCyan => 11,
            Color::LightRed => 12,
            Color::Pink => 13,
            Color::Yellow => 14,
            Color::White => 15,
        }
    }

    /// The palette index of this color as a byte value below sixteen.
    pub fn nibble(self) -> (r: u8)
        ensures
            r == self.spec_nibble(),
            r < 16,
    {
        match self {
            Color::Black => 0,
            Color::Blue => 1,
            Color::Green => 2,
            Color::Cyan => 3,
            Color::Red => 4,
            Color::Magenta => 5,
            Color::Brown => 6,
            Color::LightGray => 7,
            Color::DarkGray => 8,
            Color::LightBlue => 9,
            Color::LightGreen => 10,
            Color::LightCyan => 11,
            Color::LightRed => 12,
            Color::Pink => 13,
            Color::Yellow => 14,
            Color::White => 15,
        }
    }
}

/// A packed color byte: `(background << 4) | foreground`, each nibble a
/// palette index.
#[derive(Debug, Clone, Copy, PartialEq, Eq, Structural)]
pub struct ColorCode(pub u8);

impl ColorCode {
    /// The packed byte for a foreground and a background color.
    pub open spec fn spec_new(foreground: Color, background: Color) -> ColorCode {
        ColorCode((background.spec_nibble() * 16 + foreground.spec_nibble()) as u8)
    }

    /// Packs a foreground and a background palette index into one byte.
    pub fn new(foreground: Color, background: Color) -> (r: ColorCode)
        ensures
            r == ColorCode::spec_new(foreground, background),
    {
        let fg: u8 = foreground.nibble();
        let bg: u8 = background.nibble();
        assert((bg << 4) | fg == bg * 16 + fg) by (bit_vector)
            requires
                fg < 16 && bg < 16,
        ;
        ColorCode((bg << 4) | fg)
    }
}

/// One glyph position of the display: a character byte and a color byte.
#[derive(Debug, Clone, Copy, PartialEq, Eq, Structural)]
pub struct ScreenChar {
    pub ascii_character: u8,
    pub color_code: ColorCode,
}

/// Number of cells of the display grid.
pub open spec fn grid_size() -> int {
    BUFFER_HEIGHT as int * BUFFER_WIDTH as int
}

/// Index of the cell at `row`, `col` in the row-major grid.
pub open spec fn cell_index(row: int, col: int) -> int {
    row * BUFFER_WIDTH as int + col
}

/// The blank cell a scroll leaves on the bottom row: a space in the
/// given color.
pub open spec fn blank_cell(color: ColorCode) -> ScreenChar {
    ScreenChar { ascii_character: 0x20, color_code: color }
}

/// The display grid, held through volatile handles so that the hardware
/// observes every access. Its contents are modelled by `buffer_chars`.
#[verifier::external_body]
pub struct Buffer {
    cells: Vec<Volatile<ScreenChar>>,
}

/// The cells the display holds, row-major. What the trusted volatile
/// accessors below say of it is all that is known about it.
pub uninterp spec fn buffer_chars(buffer: Buffer) -> Seq<ScreenChar>;

impl Buffer {
    /// Relies on `Vec::new`: a buffer handle over no cells yet.
    #[verifier::external_body]
    fn empty() -> (b: Buffer)
        ensures
            buffer_chars(b) == Seq::<ScreenChar>::empty(),
    {
        Buffer { cells: Vec::new() }
    }

    /// Relies on `volatile::Volatile::new` wrapping the given cell; the
    /// new cell is appended to the grid.
    #[verifier::external_body]
    fn push_cell(&mut self, cell: ScreenChar)
        ensures
            buffer_chars(*final(self)) == buffer_chars(*old(self)).push(cell),
    {
        self.cells.push(Volatile::new(cell));
    }

    /// Relies on `volatile::Volatile::read`: a volatile load of the cell,
    /// which returns the value the grid holds there.
    #[verifier::external_body]
    pub(crate) fn read_cell(&self, row: usize, col: usize) -> (r: ScreenChar)
        requires
            buffer_chars(*self).len() == grid_size(),
            row < BUFFER_HEIGHT,
            col < BUFFER_WIDTH,
        ensures
            r == buffer_chars(*self)[cell_index(row as int, col as int)],
    {
        self.cells[row * BUFFER_WIDTH + col].read()
    }

    /// Relies on `volatile::Volatile::write`: a volatile store into one
    /// cell, which leaves every other cell as it was.
    #[verifier::external_body]
    pub(crate) fn write_cell(&mut self, row: usize, col: usize, cell: ScreenChar)
        requires
            buffer_chars(*old(self)).len() == grid_size(),
            row < BUFFER_HEIGHT,
            col < BUFFER_WIDTH,
        ensures
            buffer_chars(*final(self)) == buffer_chars(*old(self)).update(
                cell_index(row as int, col as int),
                cell,
            ),
    {
        self.cells[row * BUFFER_WIDTH + col].write(cell);
    }

    /// A full display grid of blank black-on-black cells, ready to be
    /// handed to a `Writer`.
    pub fn new() -> (b: Buffer)
        ensures
            buffer_chars(b).len() == grid_size(),
            forall|k: int|
                0 <= k < grid_size() ==> buffer_chars(b)[k] == blank_cell(ColorCode(0)),
    {
        let mut b = Buffer::empty();
        let mut k: usize = 0;
        while k < BUFFER_HEIGHT * BUFFER_WIDTH
            invariant
                k <= BUFFER_HEIGHT * BUFFER_WIDTH,
                buffer_chars(b).len() == k,
                forall|j: int| 0 <= j < k ==> buffer_chars(b)[j] == blank_cell(ColorCode(0)),
            decreases BUFFER_HEIGHT * BUFFER_WIDTH - k,
        {
            b.push_cell(ScreenChar { ascii_character: 0x20, color_code: ColorCode(0) });
            k = k + 1;
        }
        b
    }
}

/// The abstract state of a `Writer`: the grid contents, the cursor
/// column, and the active color.
#[verifier::ext_equal]
pub ghost struct WriterView {
    pub grid: Seq<ScreenChar>,
    pub col: int,
    pub color: ColorCode,
}

impl WriterView {
    /// Well-formedness: a full grid and a cursor within the row, the
    /// position one past the last column included.
    pub open spec fn wf(self) -> bool {
        &&& self.grid.len() == grid_size()
        &&& 0 <= self.col <= BUFFER_WIDTH as int
    }
}

/// The grid after one scroll: every row shifted up by one, the bottom
/// row blank in the given color.
pub open spec fn scrolled(grid: Seq<ScreenChar>, color: ColorCode) -> Seq<ScreenChar> {
    Seq::new(
        grid_size() as nat,
        |k: int|
            if k < cell_index(BUFFER_HEIGHT as int - 1, 0) {
                grid[k + BUFFER_WIDTH as int]
            } else {
                blank_cell(color)
            },
    )
}

/// Whether a byte is in the printable range the display supports.
pub open spec fn is_printable(byte: u8) -> bool {
    0x20 <= byte <= 0x7e
}

/// The byte the display receives for an arbitrary input byte: printable
/// bytes and the newline pass through, everything else becomes the
/// fallback glyph.
pub open spec fn normalize_byte(byte: u8) -> u8 {
    if is_printable(byte) || byte == NEWLINE {
        byte
    } else {
        FALLBACK_GLYPH
    }
}

/// One transition of the writer on a raw byte: a newline scrolls; any
/// other byte is placed at the cursor on the bottom row, after a scroll
/// if the row is already full.
pub open spec fn step(v: WriterView, byte: u8) -> WriterView {
    if byte == NEWLINE {
        WriterView { grid: scrolled(v.grid, v.color), col: 0, color: v.color }
    } else if v.col < BUFFER_WIDTH as int {
        WriterView {
            grid: v.grid.update(
                cell_index(BUFFER_HEIGHT as int - 1, v.col),
                ScreenChar { ascii_character: byte, color_code: v.color },
            ),
            col: v.col + 1,
            color: v.color,
        }
    } else {
        WriterView {
            grid: scrolled(v.grid, v.color).update(
                cell_index(BUFFER_HEIGHT as int - 1, 0),
                ScreenChar { ascii_character: byte, color_code: v.color },
            ),
            col: 1,
            color: v.color,
        }
    }
}

/// The writer state after a whole byte sequence, each byte normalized
/// and then stepped, in order.
pub open spec fn write_seq(v: WriterView, bytes: Seq<u8>) -> WriterView
    decreases bytes.len(),
{
    if bytes.len() == 0 {
        v
    } else {
        write_seq(step(v, normalize_byte(bytes[0])), bytes.drop_first())
    }
}

/// The writer that owns the display grid: renders bytes at the cursor on
/// the bottom row, wrapping and scrolling as rows fill.
pub struct Writer {
    buffer: Buffer,
    color_code: ColorCode,
    col_pos: usize,
}

impl View for Writer {
    type V = WriterView;

    closed spec fn view(&self) -> WriterView {
        WriterView {
            grid: buffer_chars(self.buffer),
            col: self.col_pos as int,
            color: self.color_code,
        }
    }
}

impl Writer {
    /// Well-formedness of the writer's state.
    pub open spec fn wf(self) -> bool {
        self@.wf()
    }

    /// A writer over the given grid, cursor at column zero, writing in
    /// the given color.
    pub fn new(buffer: Buffer, color_code: ColorCode) -> (w: Writer)
        requires
            buffer_chars(buffer).len() == grid_size(),
        ensures
            w.wf(),
            w@ == (WriterView { grid: buffer_chars(buffer), col: 0, color: color_code }),
    {
        Writer { buffer, color_code, col_pos: 0 }
    }

    /// Places one byte at the cursor and advances it; the caller has
    /// made room on the row.
    fn put_byte(&mut self, byte: u8)
        requires
            old(self).wf(),
            old(self)@.col < BUFFER_WIDTH as int,
        ensures
            final(self).wf(),
            final(self)@.color == old(self)@.color,
            final(self)@.col == old(self)@.col + 1,
            final(self)@.grid == old(self)@.grid.update(
                cell_index(BUFFER_HEIGHT as int - 1, old(self)@.col),
                ScreenChar { ascii_character: byte, color_code: old(self)@.color },
            ),
    {
        let row: usize = BUFFER_HEIGHT - 1;
        let col: usize = self.col_pos;
        let color_code = self.color_code;
        self.buffer.write_cell(row, col, ScreenChar { ascii_character: byte, color_code });
        self.col_pos = self.col_pos + 1;
    }

    /// Blanks the bottom row from column zero by writing spaces in the
    /// active color.
    fn clean_row(&mut self)
        requires
            old(self).wf(),
            old(self)@.col == 0,
        ensures
            final(self).wf(),
            final(self)@.color == old(self)@.color,
            final(self)@.col == BUFFER_WIDTH as int,
            final(self)@.grid.len() == grid_size(),
            forall|c: int|
                0 <= c < BUFFER_WIDTH as int ==> #[trigger] final(self)@.grid[cell_index(
                    BUFFER_HEIGHT as int - 1,
                    c,
                )] == blank_cell(old(self)@.color),
            forall|k: int|
                0 <= k < cell_index(BUFFER_HEIGHT as int - 1, 0) ==> final(self)@.grid[k] == old(
                    self,
                )@.grid[k],
    {
        let mut c: usize = 0;
        while c < BUFFER_WIDTH
            invariant
                self.wf(),
                self@.color == old(self)@.color,
                c <= BUFFER_WIDTH,
                self@.col == c as int,
                forall|j: int|
                    0 <= j < c as int ==> #[trigger] self@.grid[cell_index(
                        BUFFER_HEIGHT as int - 1,
                        j,
                    )] == blank_cell(old(self)@.color),
                forall|k: int|
                    0 <= k < cell_index(BUFFER_HEIGHT as int - 1, 0) ==> self@.grid[k] == old(
                        self,
                    )@.grid[k],
            decreases BUFFER_WIDTH - c,
        {
            self.put_byte(0x20);
            c = c + 1;
        }
    }

    /// Scrolls the grid one row up, blanks the bottom row, and returns
    /// the cursor to column zero.
    fn new_line(&mut self)
        requires
            old(self).wf(),
        ensures
            final(self).wf(),
            final(self)@ == (WriterView {
                grid: scrolled(old(self)@.grid, old(self)@.color),
                col: 0,
                color: old(self)@.color,
            }),
            forall|r: int|
                0 <= r < BUFFER_HEIGHT as int - 1 ==> #[trigger] row_of(final(self)@.grid, r)
                    == row_of(old(self)@.grid, r + 1),
            forall|c: int|
                0 <= c < BUFFER_WIDTH as int ==> #[trigger] final(self)@.grid[cell_index(
                    BUFFER_HEIGHT as int - 1,
                    c,
                )] == blank_cell(old(self)@.color),
    {
        let ghost g0 = old(self)@.grid;
        let mut i: usize = 0;
        while i < BUFFER_HEIGHT - 1
            invariant
                self.wf(),
                self@.color == old(self)@.color,
                self@.col == old(self)@.col,
                i <= BUFFER_HEIGHT - 1,
                forall|k: int|
                    0 <= k < i as int * BUFFER_WIDTH as int ==> self@.grid[k] == g0[k
                        + BUFFER_WIDTH as int],
                forall|k: int|
                    i as int * BUFFER_WIDTH as int <= k < grid_size() ==> self@.grid[k] == g0[k],
            decreases BUFFER_HEIGHT - 1 - i,
        {
            let mut j: usize = 0;
            while j < BUFFER_WIDTH
                invariant
                    self.wf(),
                    self@.color == old(self)@.color,
                    self@.col == old(self)@.col,
                    i < BUFFER_HEIGHT - 1,
                    j <= BUFFER_WIDTH,
                    forall|k: int|
                        0 <= k < i as int * BUFFER_WIDTH as int + j as int ==> self@.grid[k]
                            == g0[k + BUFFER_WIDTH as int],
                    forall|k: int|
                        i as int * BUFFER_WIDTH as int + j as int <= k < grid_size()
                            ==> self@.grid[k] == g0[k],
                decreases BUFFER_WIDTH - j,
            {
                let moved = self.buffer.read_cell(i + 1, j);
                self.buffer.write_cell(i, j, moved);
                j = j + 1;
            }
            i = i + 1;
        }
        self.col_pos = 0;
        self.clean_row();
        self.col_pos = 0;
        proof {
            let color = old(self)@.color;
            assert forall|k: int| 0 <= k < grid_size() implies self@.grid[k] == scrolled(
                g0,
                color,
            )[k] by {
                let bottom = cell_index(BUFFER_HEIGHT as int - 1, 0);
                if k >= bottom {
                    assert(self@.grid[cell_index(BUFFER_HEIGHT as int - 1, k - bottom)]
                        == blank_cell(color));
                }
            }
            assert(self@.grid =~= scrolled(g0, color));
        }
    }

    /// Renders one raw byte: a newline scrolls, any other byte lands at
    /// the cursor, after a scroll if the row was full.
    pub fn write_byte(&mut self, byte: u8)
        requires
            old(self).wf(),
        ensures
            final(self).wf(),
            final(self)@ == step(old(self)@, byte),
    {
        if byte == NEWLINE {
            self.new_line();
        } else {
            if self.col_pos >= BUFFER_WIDTH {
                self.new_line();
            }
            self.put_byte(byte);
        }
        proof {
            assert(self@ =~= step(old(self)@, byte));
        }
    }

    /// Renders a string byte by byte; bytes outside the printable range
    /// and the newline are first replaced by the fallback glyph, so the
    /// display never receives an unsupported byte.
    pub fn write_string(&mut self, s: &str)
        requires
            old(self).wf(),
        ensures
            final(self).wf(),
            final(self)@ == write_seq(old(self)@, s.spec_bytes()),
    {
        let bytes: &[u8] = s.as_bytes();
        let n: usize = bytes.len();
        let mut k: usize = 0;
        while k < n
            invariant
                self.wf(),
                bytes@ == s.spec_bytes(),
                n == bytes@.len(),
                k <= n,
                self@ == write_seq(old(self)@, bytes@.take(k as int)),
            decreases n - k,
        {
            let byte = bytes[k];
            if (0x20 <= byte && byte <= 0x7e) || byte == NEWLINE {
                self.write_byte(byte);
            } else {
                self.write_byte(FALLBACK_GLYPH);
            }
            proof {
                assert(bytes@.take(k as int + 1) =~= bytes@.take(k as int).push(bytes@[k as int]));
                lemma_write_seq_snoc(old(self)@, bytes@.take(k as int), bytes@[k as int]);
            }
            k = k + 1;
        }
        proof {
            assert(bytes@.take(n as int) =~= bytes@);
        }
    }

    /// The cell the display holds at the given position.
    pub fn cell_at(&self, row: usize, col: usize) -> (r: ScreenChar)
        requires
            self.wf(),
            row < BUFFER_HEIGHT,
            col < BUFFER_WIDTH,
        ensures
            r == self@.grid[cell_index(row as int, col as int)],
    {
        self.buffer.read_cell(row, col)
    }

    /// The cursor column, between zero and the row width inclusive.
    pub fn column(&self) -> (c: usize)
        ensures
            c as int == self@.col,
    {
        self.col_pos
    }

    /// The active color code.
    pub fn color(&self) -> (c: ColorCode)
        ensures
            c == self@.color,
    {
        self.color_code
    }
}

/// One writer transition keeps the state well-formed.
pub proof fn lemma_step_wf(v: WriterView, byte: u8)
    requires
        v.wf(),
    ensures
        step(v, byte).wf(),
{
}

/// A whole byte sequence keeps the writer state well-formed.
pub proof fn lemma_write_seq_wf(v: WriterView, bytes: Seq<u8>)
    requires
        v.wf(),
    ensures
        write_seq(v, bytes).wf(),
    decreases bytes.len(),
{
    if bytes.len() > 0 {
        lemma_step_wf(v, normalize_byte(bytes[0]));
        lemma_write_seq_wf(step(v, normalize_byte(bytes[0])), bytes.drop_first());
    }
}

/// Appending one byte to a written sequence is one more transition on
/// its normalized form.
pub proof fn lemma_write_seq_snoc(v: WriterView, bytes: Seq<u8>, byte: u8)
    ensures
        write_seq(v, bytes.push(byte)) == step(write_seq(v, bytes), normalize_byte(byte)),
    decreases bytes.len(),
{
    let whole = bytes.push(byte);
    if bytes.len() == 0 {
        assert(whole[0] == byte);
        assert(whole.drop_first() =~= Seq::<u8>::empty());
        assert(write_seq(step(v, normalize_byte(byte)), whole.drop_first()) == step(
            v,
            normalize_byte(byte),
        ));
    } else {
        assert(whole[0] == bytes[0]);
        assert(whole.drop_first() =~= bytes.drop_first().push(byte));
        lemma_write_seq_snoc(step(v, normalize_byte(bytes[0])), bytes.drop_first(), byte);
        assert(write_seq(v, whole) == write_seq(
            step(v, normalize_byte(whole[0])),
            whole.drop_first(),
        ));
        assert(write_seq(v, bytes) == write_seq(
            step(v, normalize_byte(bytes[0])),
            bytes.drop_first(),
        ));
    }
}

/// Round trip: writing a printable byte stores exactly that byte, in the
/// active color, at the cell the cursor addressed on the bottom row —
/// at the cursor's column when the row had room, at column zero after
/// the wrap-induced scroll when it did not.
pub proof fn lemma_round_trip(v: WriterView, byte: u8)
    requires
        v.wf(),
        is_printable(byte),
    ensures
        v.col < BUFFER_WIDTH as int ==> step(v, byte).grid[cell_index(
            BUFFER_HEIGHT as int - 1,
            v.col,
        )] == (ScreenChar { ascii_character: byte, color_code: v.color }),
        v.col == BUFFER_WIDTH as int ==> step(v, byte).grid[cell_index(
            BUFFER_HEIGHT as int - 1,
            0,
        )] == (ScreenChar { ascii_character: byte, color_code: v.color }),
{
}

/// Substitution: a byte outside the printable range and different from
/// the newline never reaches the grid; the fallback glyph is stored in
/// its place.
pub proof fn lemma_substitution(v: WriterView, byte: u8)
    requires
        v.wf(),
        !is_printable(byte),
        byte != NEWLINE,
    ensures
        normalize_byte(byte) == FALLBACK_GLYPH,
        write_seq(v, seq![byte]) == step(v, FALLBACK_GLYPH),
        v.col < BUFFER_WIDTH as int ==> write_seq(v, seq![byte]).grid[cell_index(
            BUFFER_HEIGHT as int - 1,
            v.col,
        )] == (ScreenChar { ascii_character: FALLBACK_GLYPH, color_code: v.color }),
{
    let one = seq![byte];
    assert(one.drop_first() =~= Seq::<u8>::empty());
    assert(write_seq(step(v, FALLBACK_GLYPH), one.drop_first()) == step(v, FALLBACK_GLYPH));
}

/// Printable bytes written on a row with room land in order at the
/// cursor, and touch nothing else: afterwards the cursor has advanced by
/// their number, the cells they covered hold them in the active color,
/// and every other cell is unchanged.
pub proof fn lemma_write_printables(v: WriterView, bytes: Seq<u8>)
    requires
        v.wf(),
        forall|i: int| 0 <= i < bytes.len() ==> is_printable(#[trigger] bytes[i]),
        v.col + bytes.len() <= BUFFER_WIDTH as int,
    ensures
        write_seq(v, bytes).wf(),
        write_seq(v, bytes).col == v.col + bytes.len(),
        write_seq(v, bytes).color == v.color,
        forall|c: int|
            v.col <= c < v.col + bytes.len() ==> #[trigger] write_seq(v, bytes).grid[cell_index(
                BUFFER_HEIGHT as int - 1,
                c,
            )] == (ScreenChar { ascii_character: bytes[c - v.col], color_code: v.color }),
        forall|k: int|
            0 <= k < grid_size() && !(cell_index(BUFFER_HEIGHT as int - 1, v.col) <= k
                < cell_index(BUFFER_HEIGHT as int - 1, v.col + bytes.len()))
                ==> #[trigger] write_seq(v, bytes).grid[k] == v.grid[k],
    decreases bytes.len(),
{
    if bytes.len() > 0 {
        let first = bytes[0];
        let rest = bytes.drop_first();
        let v1 = step(v, first);
        assert(normalize_byte(first) == first);
        lemma_write_printables(v1, rest);
        assert(write_seq(v, bytes) == write_seq(v1, rest));
        assert forall|c: int| v.col <= c < v.col + bytes.len() implies #[trigger] write_seq(
            v,
            bytes,
        ).grid[cell_index(BUFFER_HEIGHT as int - 1, c)] == ScreenChar {
            ascii_character: bytes[c - v.col],
            color_code: v.color,
        } by {
            if c == v.col {
                assert(write_seq(v1, rest).grid[cell_index(BUFFER_HEIGHT as int - 1, c)]
                    == v1.grid[cell_index(BUFFER_HEIGHT as int - 1, c)]);
            } else {
                assert(rest[c - v1.col] == bytes[c - v.col]);
            }
        }
    }
}

/// Wrap boundary: from column zero, a full row of printable bytes leaves
/// the cursor exactly at the row width; one more printable byte first
/// scrolls and then lands at column zero, leaving the cursor at one.
pub proof fn lemma_wrap_boundary(v: WriterView, bytes: Seq<u8>, byte: u8)
    requires
        v.wf(),
        v.col == 0,
        bytes.len() == BUFFER_WIDTH as int,
        forall|i: int| 0 <= i < bytes.len() ==> is_printable(#[trigger] bytes[i]),
        is_printable(byte),
    ensures
        write_seq(v, bytes).col == BUFFER_WIDTH as int,
        write_seq(v, bytes.push(byte)).col == 1,
        write_seq(v, bytes.push(byte)).grid == scrolled(
            write_seq(v, bytes).grid,
            v.color,
        ).update(
            cell_index(BUFFER_HEIGHT as int - 1, 0),
            ScreenChar { ascii_character: byte, color_code: v.color },
        ),
        write_seq(v, bytes.push(byte)).grid[cell_index(BUFFER_HEIGHT as int - 1, 0)]
            == (ScreenChar { ascii_character: byte, color_code: v.color }),
{
    lemma_write_printables(v, bytes);
    lemma_write_seq_snoc(v, bytes, byte);
}

/// The cells of one row of the grid, in order.
pub open spec fn row_of(grid: Seq<ScreenChar>, row: int) -> Seq<ScreenChar> {
    grid.subrange(cell_index(row, 0), cell_index(row + 1, 0))
}

/// Scroll correctness: after a scroll each row except the bottom one
/// holds what the row below it held before, and the bottom row is
/// entirely blank in the active color.
pub proof fn lemma_scroll_rows(grid: Seq<ScreenChar>, color: ColorCode, row: int)
    requires
        grid.len() == grid_size(),
        0 <= row < BUFFER_HEIGHT as int - 1,
    ensures
        row_of(scrolled(grid, color), row) == row_of(grid, row + 1),
        forall|c: int|
            0 <= c < BUFFER_WIDTH as int ==> #[trigger] scrolled(grid, color)[cell_index(
                BUFFER_HEIGHT as int - 1,
                c,
            )] == blank_cell(color),
{
    assert(row_of(scrolled(grid, color), row) =~= row_of(grid, row + 1));
}

} // verus!
