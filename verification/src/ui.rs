//! Widgets: what an element of the user interface can do, and the elements.

use vstd::prelude::*;
use crate::colors::Color;
use crate::console::Console;
use crate::message::{ConsoleError, RenderLoopMessage};

pub mod single_select;

pub use self::single_select::SingleSelect;

verus! {

/// An element that draws itself on a console and follows its input.
pub trait UIElement {
    /// Whether every line of the element has a place on the screen when its
    /// first line is at row `y` and lines are `line_height` apart.
    spec fn fits_at(&self, y: int, line_height: int) -> bool;

    /// The row of the element's own position.
    spec fn row(&self) -> int;

    fn set_color(&mut self, color: Color);

    fn set_pos_x(&mut self, x: i32);

    fn set_pos_y(&mut self, y: i32);

    /// Draws the element at its own position: gives the messages to send to the
    /// render loop, in order.
    fn draw(&self, c: &Console) -> (outgoing: Result<Vec<RenderLoopMessage>, ConsoleError>)
        requires
            self.fits_at(self.row(), crate::console::line_height_of(c@.info.font_size)),
    ;

    /// Draws the element at another position.
    fn draw_at(&self, c: &Console, x: i32, y: i32) -> (outgoing: Result<
        Vec<RenderLoopMessage>,
        ConsoleError,
    >)
        requires
            self.fits_at(y as int, crate::console::line_height_of(c@.info.font_size)),
    ;

    /// Lets the element follow the newest input.
    fn update(&mut self, c: &mut Console) -> (done: Result<(), ConsoleError>);

    /// Puts the element back as it was made.
    fn reset(&mut self);
}

/// An element that has one of its items selected.
pub trait IndexedElement<T> {
    /// The items, in order.
    spec fn spec_items(&self) -> Seq<T>;

    /// The index of the selected item.
    spec fn spec_index(&self) -> nat;

    /// The selected item.
    fn current(&self) -> (item: &T)
        requires
            self.spec_index() < self.spec_items().len(),
        ensures
            *item == self.spec_items()[self.spec_index() as int],
    ;

    /// The index of the selected item.
    fn current_index(&self) -> (index: usize)
        ensures
            index == self.spec_index(),
    ;
}

} // verus!
