//! The character grid and the console writer.
//!
//! The display is `VGA_HEIGHT` rows of `VGA_WIDTH` cells, stored row-major;
//! each cell is a glyph byte followed by a color-attribute byte. The writer
//! appends on the bottom row only: a newline scrolls every row up by one and
//! blanks the bottom row, so earlier output ages upward.
//!
//! Each cell is held in a `volatile::Volatile` wrapper, so every cell access
//! is an individually ordered volatile load or store that an optimizer may
//! not batch, cache or elide — the memory is observed by hardware outside
//! the program's control flow.

use vstd::prelude::*;
use vstd::string::StringSliceAdditionalSpecFns;

use crate::color::Color;
use crate::color::ColorCode;
use crate::color::attr_byte;

verus! {

/// Number of rows in the grid.
pub const VGA_HEIGHT: usize = 25;

/// Number of columns in the grid.
pub const VGA_WIDTH: usize = 80;

/// Number of cells in the whole grid.
pub const VGA_CELLS: usize = VGA_HEIGHT * VGA_WIDTH;

/// One display cell: a glyph byte and its color-attribute byte.
#[derive(Clone, Copy, Debug, PartialEq, Eq, Structural)]
pub struct Kharakter {
    pub kharakter: u8,
    pub color: ColorCode,
}

#[verifier::external_type_specification]
#[verifier::external_body]
#[verifier::reject_recursive_types(T)]
pub struct ExVolatile<T: Copy>(volatile::Volatile<T>);

/// The (glyph, attribute) pair held by a volatile cell.
pub uninterp spec fn vol_cell(v: volatile::Volatile<Kharakter>) -> (u8, u8);

/// Relies on volatile::Volatile::new: the wrapper holds exactly the given value.
#[verifier::external_body]
fn cell_new(k: Kharakter) -> (v: volatile::Volatile<Kharakter>)
    ensures
        vol_cell(v) == (k.kharakter, k.color.0),
{
    volatile::Volatile::new(k)
}

/// Relies on volatile::Volatile::read: a volatile load returning a copy of
/// the held value.
#[verifier::external_body]
fn cell_read(cells: &Vec<volatile::Volatile<Kharakter>>, i: usize) -> (k: Kharakter)
    requires
        i < cells@.len(),
    ensures
        (k.kharakter, k.color.0) == vol_cell(cells@[i as int]),
{
    cells[i].read()
}

/// Relies on volatile::Volatile::write: a volatile store of the given value;
/// no other cell of the vector is touched.
#[verifier::external_body]
fn cell_write(cells: &mut Vec<volatile::Volatile<Kharakter>>, i: usize, k: Kharakter)
    requires
        i < old(cells)@.len(),
    ensures
        final(cells)@.len() == old(cells)@.len(),
        vol_cell(final(cells)@[i as int]) == (k.kharakter, k.color.0),
        forall|j: int|
            0 <= j < old(cells)@.len() && j != i ==> final(cells)@[j] == old(cells)@[j],
{
    cells[i].write(k)
}

/// The grid's backing storage: one volatile cell per position, row-major,
/// exactly as the memory-mapped hardware region is laid out.
pub struct VGABuffer {
    pub cells: Vec<volatile::Volatile<Kharakter>>,
}

/// The abstract state of a console writer: the cursor column, the current
/// attribute byte, and the grid as a row-major sequence of
/// (glyph, attribute) pairs.
#[verifier::ext_equal]
pub ghost struct WState {
    pub col: int,
    pub color: u8,
    pub grid: Seq<(u8, u8)>,
}

/// A well-formed writer state: the column stays in [0, VGA_WIDTH] and the
/// grid has exactly one pair per cell.
pub open spec fn wf_state(s: WState) -> bool {
    0 <= s.col <= VGA_WIDTH && s.grid.len() == VGA_CELLS
}

/// The (glyph, attribute) pair at `row`, `col` of a row-major grid.
pub open spec fn cell_at(g: Seq<(u8, u8)>, row: int, col: int) -> (u8, u8) {
    g[row * VGA_WIDTH + col]
}

/// The blank cell used to clear rows: a space with the default display
/// attribute, light cyan on black.
pub open spec fn blank_pair() -> (u8, u8) {
    (0x20u8, attr_byte(Color::LightCyan, Color::Black))
}

/// An entirely blank grid.
pub open spec fn blank_grid() -> Seq<(u8, u8)> {
    Seq::new(VGA_CELLS as nat, |i: int| blank_pair())
}

/// The writer's state at process start: blank grid, column 0, default
/// attribute.
pub open spec fn initial_state() -> WState {
    WState { col: 0, color: attr_byte(Color::LightCyan, Color::Black), grid: blank_grid() }
}

/// One scroll: every cell moves up one row and the bottom row becomes blank.
pub open spec fn scroll_spec(g: Seq<(u8, u8)>) -> Seq<(u8, u8)> {
    Seq::new(
        VGA_CELLS as nat,
        |i: int|
            if i < VGA_CELLS - VGA_WIDTH {
                g[i + VGA_WIDTH]
            } else {
                blank_pair()
            },
    )
}

/// The state after a scroll: shifted grid, column reset, attribute kept.
pub open spec fn scrolled(s: WState) -> WState {
    WState { col: 0, color: s.color, grid: scroll_spec(s.grid) }
}

/// Bytes the writer renders as themselves: printable ASCII.
pub open spec fn is_printable(b: u8) -> bool {
    0x20 <= b && b <= 0x7e
}

/// The glyph actually stored for an input byte: unsupported bytes are
/// substituted with `?`.
pub open spec fn glyph_of(b: u8) -> u8 {
    if is_printable(b) {
        b
    } else {
        0x3f
    }
}

/// The state after storing the glyph for byte `b` at the cursor: wraps by
/// scrolling first when the row is full, then writes on the bottom row with
/// the current attribute and advances the column.
pub open spec fn put_glyph(s: WState, b: u8) -> WState {
    let base = if s.col >= VGA_WIDTH {
        scrolled(s)
    } else {
        s
    };
    WState {
        col: base.col + 1,
        color: s.color,
        grid: base.grid.update((VGA_HEIGHT - 1) * VGA_WIDTH + base.col, (glyph_of(b), s.color)),
    }
}

/// The writer's byte dispatch: newline scrolls, carriage return rewinds the
/// column, backspace steps the column back, and every other byte is stored
/// as a glyph (substituted when unsupported).
pub open spec fn step(s: WState, b: u8) -> WState {
    if b == 0x0a {
        scrolled(s)
    } else if b == 0x0d {
        WState { col: 0, ..s }
    } else if b == 0x07 {
        WState { col: if s.col > 0 { s.col - 1 } else { 0 }, ..s }
    } else {
        put_glyph(s, b)
    }
}

/// The state after dispatching a whole sequence of bytes, front to back.
pub open spec fn run(s: WState, bs: Seq<u8>) -> WState
    decreases bs.len(),
{
    if bs.len() == 0 {
        s
    } else {
        run(step(s, bs[0]), bs.drop_first())
    }
}

/// The state after replacing the current attribute: only the attribute
/// changes, never the cursor or the grid.
pub open spec fn set_color_spec(s: WState, a: u8) -> WState {
    WState { color: a, ..s }
}

/// The console writer: cursor column, current attribute, and exclusive
/// ownership of the grid storage. All writing happens on the bottom row.
pub struct VGAWriter {
    col: usize,
    color: ColorCode,
    buffer: VGABuffer,
}

impl View for VGAWriter {
    type V = WState;

    closed spec fn view(&self) -> WState {
        WState {
            col: self.col as int,
            color: self.color.0,
            grid: self.buffer.cells@.map(|i: int, c: volatile::Volatile<Kharakter>| vol_cell(c)),
        }
    }
}

impl VGAWriter {
    /// The writer's internal invariant.
    pub closed spec fn wf(self) -> bool {
        self.col <= VGA_WIDTH && self.buffer.cells@.len() == VGA_CELLS
    }

    /// The internal invariant is exactly well-formedness of the abstract state.
    pub proof fn lemma_wf_view(self)
        ensures
            self.wf() <==> wf_state(self@),
    {
    }

    /// A fresh writer: blank grid, column 0, default attribute.
    pub fn new() -> (w: VGAWriter)
        ensures
            w.wf(),
            w@ == initial_state(),
    {
        let blank: Kharakter = Kharakter {
            kharakter: 0x20,
            color: ColorCode::new(Color::LightCyan, Color::Black),
        };
        let mut cells: Vec<volatile::Volatile<Kharakter>> = Vec::new();
        let mut i: usize = 0;
        while i < VGA_CELLS
            invariant
                i <= VGA_CELLS,
                cells@.len() == i,
                blank.kharakter == 0x20u8,
                blank.color.0 == attr_byte(Color::LightCyan, Color::Black),
                forall|j: int| 0 <= j < i ==> vol_cell(#[trigger] cells@[j]) == blank_pair(),
            decreases VGA_CELLS - i,
        {
            cells.push(cell_new(blank));
            i = i + 1;
        }
        let w = VGAWriter {
            col: 0,
            color: ColorCode::new(Color::LightCyan, Color::Black),
            buffer: VGABuffer { cells },
        };
        proof {
            assert(w@.grid =~= blank_grid());
            assert(w@ =~= initial_state());
        }
        w
    }

    /// A writer with no grid storage at all. It exists only as the value
    /// left behind in the console's guard while the real writer is moved
    /// out for one operation; it is never written through.
    pub(crate) fn placeholder() -> (w: VGAWriter)
        ensures
            w@ == (WState { col: 0, color: 0, grid: Seq::<(u8, u8)>::empty() }),
    {
        let w = VGAWriter { col: 0, color: ColorCode(0), buffer: VGABuffer { cells: Vec::new() } };
        proof {
            assert(w@ =~= (WState { col: 0, color: 0, grid: Seq::<(u8, u8)>::empty() }));
        }
        w
    }

    /// The current cursor column.
    pub fn column(&self) -> (c: usize)
        ensures
            c as int == self@.col,
    {
        self.col
    }

    /// The attribute used for subsequent printable writes.
    pub fn current_color(&self) -> (c: ColorCode)
        ensures
            c.0 == self@.color,
    {
        self.color
    }

    /// Replaces the attribute used for subsequent printable writes; already
    /// written cells and the cursor are untouched.
    pub fn set_color(&mut self, color: ColorCode)
        ensures
            final(self).wf() == old(self).wf(),
            final(self)@ == set_color_spec(old(self)@, color.0),
    {
        self.color = color;
        proof {
            assert(final(self)@ =~= set_color_spec(old(self)@, color.0));
        }
    }

    /// Reads one cell back, as a volatile load.
    pub fn read_cell(&self, row: usize, col: usize) -> (k: Kharakter)
        requires
            self.wf(),
            row < VGA_HEIGHT,
            col < VGA_WIDTH,
        ensures
            (k.kharakter, k.color.0) == cell_at(self@.grid, row as int, col as int),
    {
        cell_read(&self.buffer.cells, row * VGA_WIDTH + col)
    }

    /// Blanks one row: every cell of `row` becomes a space with the default
    /// blank attribute; nothing else changes.
    fn clear_row(&mut self, row: usize)
        requires
            old(self).wf(),
            row < VGA_HEIGHT,
        ensures
            final(self).wf(),
            final(self)@.col == old(self)@.col,
            final(self)@.color == old(self)@.color,
            final(self)@.grid.len() == old(self)@.grid.len(),
            forall|i: int|
                row * VGA_WIDTH <= i < row * VGA_WIDTH + VGA_WIDTH
                    ==> final(self)@.grid[i] == blank_pair(),
            forall|i: int|
                0 <= i < VGA_CELLS && !(row * VGA_WIDTH <= i < row * VGA_WIDTH + VGA_WIDTH)
                    ==> final(self)@.grid[i] == old(self)@.grid[i],
    {
        let blank: Kharakter = Kharakter {
            kharakter: 0x20,
            color: ColorCode::new(Color::LightCyan, Color::Black),
        };
        let base: usize = row * VGA_WIDTH;
        let mut col: usize = 0;
        while col < VGA_WIDTH
            invariant
                old(self).wf(),
                row < VGA_HEIGHT,
                base == row * VGA_WIDTH,
                col <= VGA_WIDTH,
                blank.kharakter == 0x20u8,
                blank.color.0 == attr_byte(Color::LightCyan, Color::Black),
                self.col == old(self).col,
                self.color == old(self).color,
                self.buffer.cells@.len() == VGA_CELLS,
                forall|i: int|
                    base <= i < base + col
                        ==> vol_cell(#[trigger] self.buffer.cells@[i]) == blank_pair(),
                forall|i: int|
                    0 <= i < VGA_CELLS && !(base <= i < base + col)
                        ==> self.buffer.cells@[i] == old(self).buffer.cells@[i],
            decreases VGA_WIDTH - col,
        {
            cell_write(&mut self.buffer.cells, base + col, blank);
            col = col + 1;
        }
    }

    /// One scroll, as the newline handler performs it: rows copied up one by
    /// one by volatile cell reads and writes, then the bottom row blanked and
    /// the column reset.
    fn new_line(&mut self)
        requires
            old(self).wf(),
        ensures
            final(self).wf(),
            final(self)@ == scrolled(old(self)@),
    {
        let mut row: usize = 1;
        while row < VGA_HEIGHT
            invariant
                old(self).wf(),
                1 <= row <= VGA_HEIGHT,
                self.col == old(self).col,
                self.color == old(self).color,
                self.buffer.cells@.len() == VGA_CELLS,
                forall|i: int|
                    0 <= i < (row - 1) * VGA_WIDTH
                        ==> vol_cell(#[trigger] self.buffer.cells@[i]) == vol_cell(
                        old(self).buffer.cells@[i + VGA_WIDTH]),
                forall|i: int|
                    (row - 1) * VGA_WIDTH <= i < VGA_CELLS
                        ==> #[trigger] self.buffer.cells@[i] == old(self).buffer.cells@[i],
            decreases VGA_HEIGHT - row,
        {
            let mut col: usize = 0;
            while col < VGA_WIDTH
                invariant
                    old(self).wf(),
                    1 <= row < VGA_HEIGHT,
                    col <= VGA_WIDTH,
                    self.col == old(self).col,
                    self.color == old(self).color,
                    self.buffer.cells@.len() == VGA_CELLS,
                    forall|i: int|
                        0 <= i < (row - 1) * VGA_WIDTH + col
                            ==> vol_cell(#[trigger] self.buffer.cells@[i]) == vol_cell(
                            old(self).buffer.cells@[i + VGA_WIDTH]),
                    forall|i: int|
                        (row - 1) * VGA_WIDTH + col <= i < VGA_CELLS
                            ==> #[trigger] self.buffer.cells@[i] == old(self).buffer.cells@[i],
                decreases VGA_WIDTH - col,
            {
                let k: Kharakter = cell_read(&self.buffer.cells, row * VGA_WIDTH + col);
                cell_write(&mut self.buffer.cells, (row - 1) * VGA_WIDTH + col, k);
                col = col + 1;
            }
            row = row + 1;
        }
        self.clear_row(VGA_HEIGHT - 1);
        self.col = 0;
        proof {
            assert(final(self)@.grid =~= scroll_spec(old(self)@.grid));
            assert(final(self)@ =~= scrolled(old(self)@));
        }
    }

    /// Writes one byte: newline scrolls and rewinds the column, carriage
    /// return rewinds the column, backspace steps it back, and any other
    /// byte is stored on the bottom row with the current attribute — wrapped
    /// onto a fresh line first when the row is full, and substituted with
    /// `?` when unsupported. Never fails.
    pub fn write_byte(&mut self, b: u8)
        requires
            old(self).wf(),
        ensures
            final(self).wf(),
            final(self)@ == step(old(self)@, b),
    {
        match b {
            0x0a => {
                self.new_line();
            },
            0x0d => {
                self.col = 0;
                proof {
                    assert(final(self)@ =~= step(old(self)@, b));
                }
            },
            0x07 => {
                if self.col > 0 {
                    self.col = self.col - 1;
                }
                proof {
                    assert(final(self)@ =~= step(old(self)@, b));
                }
            },
            _ => {
                let glyph: u8 = if 0x20 <= b && b <= 0x7e {
                    b
                } else {
                    0x3f
                };
                if self.col >= VGA_WIDTH {
                    self.new_line();
                }
                let idx: usize = (VGA_HEIGHT - 1) * VGA_WIDTH + self.col;
                cell_write(
                    &mut self.buffer.cells,
                    idx,
                    Kharakter { kharakter: glyph, color: self.color },
                );
                self.col = self.col + 1;
                proof {
                    assert(final(self)@.grid =~= step(old(self)@, b).grid);
                    assert(final(self)@ =~= step(old(self)@, b));
                }
            },
        }
    }

    /// Writes every byte of the text in order through `write_byte`: the
    /// bytes outside printable ASCII and the control set render as `?`.
    pub fn write_string(&mut self, s: &str)
        requires
            old(self).wf(),
        ensures
            final(self).wf(),
            final(self)@ == run(old(self)@, s.spec_bytes()),
    {
        let bytes: &[u8] = s.as_bytes();
        let n: usize = bytes.len();
        let mut i: usize = 0;
        while i < n
            invariant
                old(self).wf(),
                self.wf(),
                i <= n,
                bytes@ == s.spec_bytes(),
                n == bytes@.len(),
                self@ == run(old(self)@, s.spec_bytes().take(i as int)),
            decreases n - i,
        {
            let b: u8 = bytes[i];
            proof {
                assert(s.spec_bytes().take(i + 1) =~= s.spec_bytes().take(i as int).push(
                    s.spec_bytes()[i as int]));
                lemma_run_snoc(old(self)@, s.spec_bytes().take(i as int), s.spec_bytes()[i as int]);
            }
            self.write_byte(b);
            i = i + 1;
        }
        proof {
            assert(s.spec_bytes().take(n as int) =~= s.spec_bytes());
        }
    }
}

/// Running one more byte after a sequence is one dispatch step on the state
/// the sequence reached.
pub proof fn lemma_run_snoc(s: WState, bs: Seq<u8>, b: u8)
    ensures
        run(s, bs.push(b)) == step(run(s, bs), b),
    decreases bs.len(),
{
    if bs.len() == 0 {
        assert(bs.push(b)[0] == b);
        assert(bs.push(b).drop_first() =~= Seq::<u8>::empty());
        assert(run(s, bs.push(b)) == run(step(s, b), bs.push(b).drop_first()));
        assert(run(step(s, b), Seq::<u8>::empty()) == step(s, b));
    } else {
        assert(bs.push(b)[0] == bs[0]);
        assert(bs.push(b).drop_first() =~= bs.drop_first().push(b));
        lemma_run_snoc(step(s, bs[0]), bs.drop_first(), b);
        assert(run(s, bs.push(b)) == run(step(s, bs[0]), bs.drop_first().push(b)));
    }
}

/// One dispatch step keeps the state well formed.
pub proof fn lemma_step_wf(s: WState, b: u8)
    requires
        wf_state(s),
    ensures
        wf_state(step(s, b)),
{
}

/// Column bound invariant: after any sequence of written bytes from a well
/// formed state, the column stays in [0, VGA_WIDTH] and the state stays
/// well formed.
pub proof fn lemma_column_bound(s: WState, bs: Seq<u8>)
    requires
        wf_state(s),
    ensures
        wf_state(run(s, bs)),
        0 <= run(s, bs).col <= VGA_WIDTH,
    decreases bs.len(),
{
    if bs.len() > 0 {
        lemma_step_wf(s, bs[0]);
        lemma_column_bound(step(s, bs[0]), bs.drop_first());
    }
}

/// Scroll content shift: after one scroll, each row holds what the row
/// below it held, and the bottom row is fully blank with the default blank
/// attribute.
pub proof fn lemma_scroll_shift(g: Seq<(u8, u8)>)
    requires
        g.len() == VGA_CELLS,
    ensures
        forall|r: int, c: int|
            0 <= r < VGA_HEIGHT - 1 && 0 <= c < VGA_WIDTH
                ==> #[trigger] cell_at(scroll_spec(g), r, c) == cell_at(g, r + 1, c),
        forall|c: int|
            0 <= c < VGA_WIDTH
                ==> #[trigger] cell_at(scroll_spec(g), VGA_HEIGHT - 1, c) == blank_pair(),
{
    assert forall|r: int, c: int|
        0 <= r < VGA_HEIGHT - 1 && 0 <= c < VGA_WIDTH implies #[trigger] cell_at(
        scroll_spec(g),
        r,
        c,
    ) == cell_at(g, r + 1, c) by {
        assert(r * VGA_WIDTH + c < VGA_CELLS - VGA_WIDTH);
        assert(r * VGA_WIDTH + c + VGA_WIDTH == (r + 1) * VGA_WIDTH + c);
    }
}

/// Scroll content shift at the writer level: dispatching one newline from
/// any well formed state moves each row's content to the row above it,
/// leaves the bottom row fully blank with the default blank attribute (not
/// the writer's current one), resets the column and keeps the attribute.
pub proof fn lemma_newline_scroll_shift(s: WState)
    requires
        wf_state(s),
    ensures
        step(s, 0x0a).col == 0,
        step(s, 0x0a).color == s.color,
        forall|r: int, c: int|
            0 <= r < VGA_HEIGHT - 1 && 0 <= c < VGA_WIDTH
                ==> #[trigger] cell_at(step(s, 0x0a).grid, r, c) == cell_at(s.grid, r + 1, c),
        forall|c: int|
            0 <= c < VGA_WIDTH
                ==> #[trigger] cell_at(step(s, 0x0a).grid, VGA_HEIGHT - 1, c) == blank_pair(),
{
    lemma_scroll_shift(s.grid);
}

/// Substitution policy: a byte outside the permitted set is dispatched
/// exactly as the placeholder `?` would be, and moves the column by at most
/// one.
pub proof fn lemma_substitution(s: WState, b: u8)
    requires
        wf_state(s),
        !is_printable(b),
        b != 0x0a,
        b != 0x0d,
        b != 0x07,
    ensures
        step(s, b) == step(s, 0x3f),
        step(s, b).col <= s.col + 1,
{
}

/// Idempotent color set: replacing the attribute with the same value twice
/// equals doing it once, and it never moves the cursor or touches the grid.
pub proof fn lemma_set_color_idempotent(s: WState, a: u8)
    ensures
        set_color_spec(set_color_spec(s, a), a) == set_color_spec(s, a),
        set_color_spec(s, a).col == s.col,
        set_color_spec(s, a).grid == s.grid,
{
}

/// A scroll of an all-blank grid is the same all-blank grid.
pub proof fn lemma_scroll_blank()
    ensures
        scroll_spec(blank_grid()) == blank_grid(),
{
    assert(scroll_spec(blank_grid()) =~= blank_grid());
}

/// Newline flood: any number of newlines written to a freshly blank console
/// leave it indistinguishable from blank, with the column at 0.
pub proof fn lemma_newline_flood(bs: Seq<u8>)
    requires
        forall|i: int| 0 <= i < bs.len() ==> #[trigger] bs[i] == 0x0a,
    ensures
        run(initial_state(), bs) == initial_state(),
    decreases bs.len(),
{
    if bs.len() > 0 {
        lemma_scroll_blank();
        assert(step(initial_state(), bs[0]) =~= initial_state());
        lemma_newline_flood(bs.drop_first());
    }
}

/// Wrap equivalence: from column 0, writing VGA_WIDTH + 1 printable bytes
/// leaves the same state as writing the first VGA_WIDTH of them, a newline,
/// then the last one.
pub proof fn lemma_wrap_equivalence(s: WState, bs: Seq<u8>)
    requires
        wf_state(s),
        s.col == 0,
        bs.len() == VGA_WIDTH + 1,
        forall|i: int| 0 <= i < bs.len() ==> is_printable(#[trigger] bs[i]),
    ensures
        run(s, bs) == run(s, bs.take(VGA_WIDTH as int).push(0x0a).push(bs[VGA_WIDTH as int])),
{
    let p = bs.take(VGA_WIDTH as int);
    let last = bs[VGA_WIDTH as int];
    assert forall|i: int| 0 <= i < p.len() implies is_printable(#[trigger] p[i]) by {
        assert(p[i] == bs[i]);
    }
    lemma_printable_prefix(s, p);
    let m = run(s, p);
    assert(m.col == VGA_WIDTH);
    assert(bs =~= p.push(last));
    lemma_run_snoc(s, p, last);
    lemma_run_snoc(s, p.push(0x0a), last);
    lemma_run_snoc(s, p, 0x0a);
    assert(step(m, last) =~= step(step(m, 0x0a), last));
}

/// Writing printable bytes that fit on the current row advances the column
/// by exactly their number and keeps the attribute.
proof fn lemma_printable_prefix(s: WState, bs: Seq<u8>)
    requires
        wf_state(s),
        s.col + bs.len() <= VGA_WIDTH,
        forall|i: int| 0 <= i < bs.len() ==> is_printable(#[trigger] bs[i]),
    ensures
        wf_state(run(s, bs)),
        run(s, bs).col == s.col + bs.len(),
        run(s, bs).color == s.color,
    decreases bs.len(),
{
    if bs.len() > 0 {
        let s1 = step(s, bs[0]);
        assert(s1.col == s.col + 1);
        assert forall|i: int| 0 <= i < bs.drop_first().len() implies is_printable(
            #[trigger] bs.drop_first()[i]) by {
            assert(bs.drop_first()[i] == bs[i + 1]);
        }
        lemma_printable_prefix(s1, bs.drop_first());
    }
}

} // verus!
