use vstd::prelude::*;

verus! {

/// PPUSCROLL ($2005): two successive writes set the X then the Y scroll.
#[derive(Clone, Copy)]
pub struct ScrollRegister {
    pub scroll_x: u8,
    pub scroll_y: u8,
    first_write: bool,
}

/// Abstract state of [`ScrollRegister`].
pub struct ScrollRegisterView {
    pub scroll_x: u8,
    pub scroll_y: u8,
    /// Whether the next write sets the X scroll.
    pub x_next: bool,
}

impl View for ScrollRegister {
    type V = ScrollRegisterView;

    closed spec fn view(&self) -> ScrollRegisterView {
        ScrollRegisterView { scroll_x: self.scroll_x, scroll_y: self.scroll_y, x_next: self.first_write }
    }
}

/// One PPUSCROLL write: X on the first write, Y on the second.
pub open spec fn spec_scroll_update(r: ScrollRegisterView, value: u8) -> ScrollRegisterView {
    if r.x_next {
        ScrollRegisterView { scroll_x: value, scroll_y: r.scroll_y, x_next: false }
    } else {
        ScrollRegisterView { scroll_x: r.scroll_x, scroll_y: value, x_next: true }
    }
}

impl ScrollRegister {
    pub fn new() -> (r: Self)
        ensures
            r@ == (ScrollRegisterView { scroll_x: 0, scroll_y: 0, x_next: true }),
    {
        ScrollRegister { scroll_x: 0, scroll_y: 0, first_write: true }
    }

    pub fn update(&mut self, value: u8)
        ensures
            final(self)@ == spec_scroll_update(old(self)@, value),
    {
        if self.first_write {
            self.scroll_x = value;
        } else {
            self.scroll_y = value;
        }
        self.first_write = !self.first_write;
    }

    pub fn reset_latch(&mut self)
        ensures
            final(self)@ == (ScrollRegisterView { x_next: true, ..old(self)@ }),
    {
        self.first_write = true;
    }
}

/// Law: from a reset latch, two PPUSCROLL writes set the X scroll, then the Y
/// scroll, and leave the latch expecting X again; a third write sets X.
pub proof fn lemma_scroll_writes(r: ScrollRegisterView, x: u8, y: u8, z: u8)
    requires
        r.x_next,
    ensures
        spec_scroll_update(spec_scroll_update(r, x), y) == (ScrollRegisterView {
            scroll_x: x,
            scroll_y: y,
            x_next: true,
        }),
        spec_scroll_update(spec_scroll_update(spec_scroll_update(r, x), y), z).scroll_x == z,
        spec_scroll_update(spec_scroll_update(spec_scroll_update(r, x), y), z).scroll_y == y,
{
}

} // verus!
