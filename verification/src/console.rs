//! The guarded console: one shared writer behind a mutual-exclusion guard.
//!
//! Console output is a cross-cutting concern invoked from arbitrary call
//! sites, including a last-resort failure path, so the writer is wrapped in
//! a spinlock and every operation acquires it for the duration of one call
//! and releases it immediately after. At most one caller at a time may
//! mutate the grid or the cursor.
//!
//! Each operation moves the writer out of the guard (leaving a placeholder
//! behind), works on it in verified code, and moves it back, so that the
//! only trusted step is the exchange under the lock itself.

use vstd::prelude::*;
use vstd::string::StringSliceAdditionalSpecFns;

use crate::color::Color;
use crate::color::ColorCode;
use crate::color::attr_byte;
use crate::vga::Kharakter;
use crate::vga::VGAWriter;
use crate::vga::WState;
use crate::vga::VGA_HEIGHT;
use crate::vga::VGA_WIDTH;
use crate::vga::cell_at;
use crate::vga::initial_state;
use crate::vga::run;
use crate::vga::set_color_spec;
use crate::vga::wf_state;

verus! {

#[verifier::external_type_specification]
#[verifier::external_body]
#[verifier::reject_recursive_types(T)]
pub struct ExMutex<T: ?Sized>(spin::Mutex<T>);

/// The abstract state of the writer currently held behind a guard.
pub uninterp spec fn guarded(m: spin::Mutex<VGAWriter>) -> WState;

/// The process-wide console: the single writer, wrapped in a
/// mutual-exclusion guard.
pub struct Console {
    inner: spin::Mutex<VGAWriter>,
}

impl View for Console {
    type V = WState;

    closed spec fn view(&self) -> WState {
        guarded(self.inner)
    }
}

impl Console {
    /// The guarded writer's state is well formed.
    pub closed spec fn wf(self) -> bool {
        wf_state(guarded(self.inner))
    }

    /// A fresh console guarding a blank writer.
    pub fn new() -> (c: Console)
        ensures
            c.wf(),
            c@ == initial_state(),
    {
        Console { inner: mutex_new(VGAWriter::new()) }
    }
}

/// Relies on spin::Mutex::new: the fresh guard holds exactly the given
/// writer.
#[verifier::external_body]
fn mutex_new(w: VGAWriter) -> (m: spin::Mutex<VGAWriter>)
    ensures
        guarded(m) == w@,
{
    spin::Mutex::new(w)
}

/// Relies on spin::Mutex::lock and core::mem::replace: acquires the guard
/// (exclusive access until it drops, released on drop), exchanges the held
/// writer for the given one, and returns the writer that was held.
#[verifier::external_body]
fn swap_writer(c: &mut Console, w: VGAWriter) -> (r: VGAWriter)
    ensures
        r@ == guarded(old(c).inner),
        guarded(final(c).inner) == w@,
{
    core::mem::replace(&mut *c.inner.lock(), w)
}

/// The attribute the shared writer will use for subsequent printable
/// writes. The console itself is left as it was.
pub fn get_color(c: &mut Console) -> (r: ColorCode)
    ensures
        final(c).wf() == old(c).wf(),
        final(c)@ == old(c)@,
        r.0 == old(c)@.color,
{
    let w = swap_writer(c, VGAWriter::placeholder());
    let r = w.current_color();
    let _ = swap_writer(c, w);
    r
}

/// Replaces the shared writer's attribute for subsequent printable writes;
/// already written cells and the cursor are untouched.
pub fn set_color(c: &mut Console, color: ColorCode)
    ensures
        final(c).wf() == old(c).wf(),
        final(c)@ == set_color_spec(old(c)@, color.0),
{
    let mut w = swap_writer(c, VGAWriter::placeholder());
    w.set_color(color);
    let _ = swap_writer(c, w);
}

/// As `set_color`, from a foreground and a background color.
pub fn set_color2(c: &mut Console, fore: Color, back: Color)
    ensures
        final(c).wf() == old(c).wf(),
        final(c)@ == set_color_spec(old(c)@, attr_byte(fore, back)),
{
    set_color(c, ColorCode::new(fore, back))
}

/// As `set_color2`, with the blink flag.
pub fn set_color3(c: &mut Console, fore: Color, back: Color, blink: bool)
    ensures
        final(c).wf() == old(c).wf(),
        final(c)@ == set_color_spec(
            old(c)@,
            if blink {
                attr_byte(fore, back) | 0x80
            } else {
                attr_byte(fore, back)
            },
        ),
{
    set_color(c, ColorCode::with_blink(fore, back, blink))
}

/// The entry point for already formatted text: writes every byte of `s`
/// through the shared writer, under the guard.
pub fn print_intern(c: &mut Console, s: &str)
    requires
        old(c).wf(),
    ensures
        final(c).wf(),
        final(c)@ == run(old(c)@, s.spec_bytes()),
{
    let mut w = swap_writer(c, VGAWriter::placeholder());
    proof {
        w.lemma_wf_view();
    }
    w.write_string(s);
    proof {
        w.lemma_wf_view();
    }
    let _ = swap_writer(c, w);
}

/// Reads one cell of the shared grid back, under the guard. The console
/// itself is left as it was.
pub fn read_cell(c: &mut Console, row: usize, col: usize) -> (k: Kharakter)
    requires
        old(c).wf(),
        row < VGA_HEIGHT,
        col < VGA_WIDTH,
    ensures
        final(c).wf(),
        final(c)@ == old(c)@,
        (k.kharakter, k.color.0) == cell_at(old(c)@.grid, row as int, col as int),
{
    let w = swap_writer(c, VGAWriter::placeholder());
    proof {
        w.lemma_wf_view();
    }
    let k = w.read_cell(row, col);
    let _ = swap_writer(c, w);
    k
}

} // verus!
