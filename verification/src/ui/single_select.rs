//! A list of items of which one is selected.

use vstd::prelude::*;
use vstd::string::*;
use crate::colors::{Color, WHITE};
use crate::console::{line_height_of, Console};
use crate::input::{holds_key_event, KeyCode, KeyState};
use crate::message::{ConsoleError, RenderLoopMessage, Text};
use crate::ui::{IndexedElement, UIElement};

verus! {

/// What stands before an item on its line: a marker before the selected one, a
/// blank before the others.
pub open spec fn marker(selected: bool) -> Seq<char> {
    if selected {
        "> "@
    } else {
        " "@
    }
}

/// Whether `msg` draws `item` as one line: at column `x` and row `y`, in `color`,
/// with the marker that `selected` calls for before the item's own text.
pub open spec fn draws_line<T: std::fmt::Display>(
    msg: RenderLoopMessage,
    item: T,
    selected: bool,
    x: int,
    y: int,
    color: Color,
) -> bool {
    &&& msg matches RenderLoopMessage::Add { t }
    &&& t.pos_x == x
    &&& t.pos_y == y
    &&& t.color == color
    &&& exists|label: String| #[trigger]
        to_string_from_display_ensures::<T>(&item, label) && t.content@ == marker(selected)
            + label@
}

/// The index after one update: one up where the up key was pressed and the
/// selection is not at the top, else one down where the down key was pressed and
/// the selection is not at the bottom, else as before.
pub open spec fn next_index(index: nat, len: nat, up: bool, down: bool) -> nat {
    if index > 0 && up {
        (index - 1) as nat
    } else if index + 1 < len && down {
        index + 1
    } else {
        index
    }
}

/// An update moves the selection by one place at most and keeps it among the
/// items: it stays at the top on a press of the up key and at the bottom on a
/// press of the down key.
pub proof fn law_selection_is_clamped(index: nat, len: nat, up: bool, down: bool)
    requires
        index < len,
    ensures
        next_index(index, len, up, down) < len,
        index - 1 <= next_index(index, len, up, down) <= index + 1,
        index == 0 && !down ==> next_index(index, len, up, down) == 0,
        index == len - 1 && !up ==> next_index(index, len, up, down) == len - 1,
        !up && !down ==> next_index(index, len, up, down) == index,
{
}

/// What a selection list is, to its contracts.
pub struct SelectState<T> {
    pub color: Color,
    pub items: Seq<T>,
    pub index: nat,
    pub pos_x: int,
    pub pos_y: int,
}

impl<T> SelectState<T> {
    /// A list as it is made: white, empty, at the origin.
    pub open spec fn fresh() -> SelectState<T> {
        SelectState { color: WHITE, items: Seq::empty(), index: 0, pos_x: 0, pos_y: 0 }
    }

    /// The selection is one of the items; in an empty list it is at zero.
    pub open spec fn wf(self) -> bool {
        self.index < self.items.len() || (self.index == 0 && self.items.len() == 0)
    }

    /// Whether an update looks at the keys: it does not where the selection has
    /// nowhere to go.
    pub open spec fn asks_keys(self) -> bool {
        self.index > 0 || self.index + 1 < self.items.len()
    }
}

/// A list of items, each on a line of its own, of which one is selected.
pub struct SingleSelect<T: std::fmt::Display> {
    color: Color,
    items: Vec<T>,
    index: usize,
    pos_x: i32,
    pos_y: i32,
}

impl<T: std::fmt::Display> View for SingleSelect<T> {
    type V = SelectState<T>;

    closed spec fn view(&self) -> SelectState<T> {
        SelectState {
            color: self.color,
            items: self.items@,
            index: self.index as nat,
            pos_x: self.pos_x as int,
            pos_y: self.pos_y as int,
        }
    }
}

impl<T: std::fmt::Display> SingleSelect<T> {
    /// Makes an empty list.
    pub fn new() -> (select: SingleSelect<T>)
        ensures
            select@ == SelectState::<T>::fresh(),
    {
        SingleSelect { color: WHITE, items: Vec::new(), index: 0, pos_x: 0, pos_y: 0 }
    }

    /// Adds an item below the others.
    pub fn add(&mut self, item: T)
        ensures
            final(self)@ == (SelectState { items: old(self)@.items.push(item), ..old(self)@ }),
    {
        self.items.push(item);
    }

    /// The number of items.
    pub fn len(&self) -> (len: usize)
        ensures
            len == self@.items.len(),
    {
        self.items.len()
    }

    /// The row of the list's own position.
    pub fn pos_y(&self) -> (y: i32)
        ensures
            y == self.row(),
    {
        self.pos_y
    }

    /// Tells whether the list can be drawn on `c` from row `y` down: whether its
    /// last line still has a row.
    pub fn fits_on(&self, c: &Console, y: i32) -> (fits: bool)
        ensures
            fits == self.fits_at(y as int, line_height_of(c@.info.font_size)),
    {
        let len: usize = self.items.len();
        if len == 0 {
            return true;
        }
        if len - 1 > i32::MAX as usize {
            return false;
        }
        let gaps: i64 = (len - 1) as i64;
        let line_height: i64 = c.line_height() as i64;
        assert(0 <= gaps * line_height <= 0x7fff_ffff * 257) by (nonlinear_arith)
            requires
                0 <= gaps <= 0x7fff_ffff,
                0 <= line_height <= 257,
        ;
        y as i64 + gaps * line_height <= i32::MAX as i64
    }
}

impl<T: std::fmt::Display> IndexedElement<T> for SingleSelect<T> {
    open spec fn spec_items(&self) -> Seq<T> {
        self@.items
    }

    open spec fn spec_index(&self) -> nat {
        self@.index
    }

    fn current(&self) -> (item: &T) {
        &self.items[self.index]
    }

    fn current_index(&self) -> (index: usize) {
        self.index
    }
}

impl<T: std::fmt::Display> SingleSelect<T> {
    /// Draws the items from row `y` down at column `x`, one line each.
    fn draw_lines(&self, c: &Console, x: i32, y: i32) -> (outgoing: Result<
        Vec<RenderLoopMessage>,
        ConsoleError,
    >)
        requires
            self.fits_at(y as int, line_height_of(c@.info.font_size)),
        ensures
            self@.items.len() > 0 && !c@.started ==> outgoing == Err::<
                Vec<RenderLoopMessage>,
                ConsoleError,
            >(ConsoleError::NotInitialized),
            self@.items.len() == 0 || c@.started ==> (outgoing matches Ok(msgs) && msgs@.len()
                == self@.items.len() && forall|i: int|
                0 <= i < msgs@.len() ==> draws_line(
                    #[trigger] msgs@[i],
                    self@.items[i],
                    i == self@.index,
                    x as int,
                    y + i * line_height_of(c@.info.font_size),
                    self@.color,
                )),
    {
        let line_count: usize = self.items.len();
        let line_height: i64 = c.line_height() as i64;
        let mut msgs: Vec<RenderLoopMessage> = Vec::new();
        let mut i: usize = 0;
        while i < line_count
            invariant
                line_count == self.items.len(),
                line_height == line_height_of(c@.info.font_size),
                self.fits_at(y as int, line_height as int),
                i <= line_count,
                c@.started || i == 0,
                msgs@.len() == i,
                forall|k: int|
                    0 <= k < i ==> draws_line(
                        #[trigger] msgs@[k],
                        self@.items[k],
                        k == self@.index,
                        x as int,
                        y + k * line_height,
                        self@.color,
                    ),
            decreases line_count - i,
        {
            let label: String = self.items[i].to_string();
            let line: String = if i == self.index {
                String::from_str("> ").concat(label.as_str())
            } else {
                String::from_str(" ").concat(label.as_str())
            };
            assert(0 <= i * line_height <= (line_count - 1) * line_height) by (nonlinear_arith)
                requires
                    0 <= i < line_count,
                    0 <= line_height,
            ;
            let row: i64 = y as i64 + i as i64 * line_height;
            let to_draw = Text { content: line, pos_x: x, pos_y: row as i32, color: self.color };
            match c.draw_text(to_draw) {
                Ok(msg) => {
                    assert(to_string_from_display_ensures::<T>(&self@.items[i as int], label));
                    msgs.push(msg);
                },
                Err(e) => {
                    return Err(e);
                },
            }
            i += 1;
        }
        Ok(msgs)
    }
}

impl<T: std::fmt::Display> UIElement for SingleSelect<T> {
    open spec fn fits_at(&self, y: int, line_height: int) -> bool {
        self@.items.len() > 0 ==> self@.items.len() - 1 <= i32::MAX && y + (self@.items.len() - 1)
            * line_height <= i32::MAX
    }

    open spec fn row(&self) -> int {
        self@.pos_y
    }

    fn set_color(&mut self, color: Color)
        ensures
            final(self)@ == (SelectState { color, ..old(self)@ }),
    {
        self.color = color;
    }

    fn set_pos_x(&mut self, x: i32)
        ensures
            final(self)@ == (SelectState { pos_x: x as int, ..old(self)@ }),
    {
        self.pos_x = x;
    }

    fn set_pos_y(&mut self, y: i32)
        ensures
            final(self)@ == (SelectState { pos_y: y as int, ..old(self)@ }),
    {
        self.pos_y = y;
    }

    /// Draws each item on a line of its own, from the list's own position down,
    /// lines one line height apart, with the marker before the selected item.
    /// An empty list draws nothing; any other needs a started console.
    fn draw(&self, c: &Console) -> (outgoing: Result<Vec<RenderLoopMessage>, ConsoleError>)
        ensures
            self@.items.len() > 0 && !c@.started ==> outgoing == Err::<
                Vec<RenderLoopMessage>,
                ConsoleError,
            >(ConsoleError::NotInitialized),
            self@.items.len() == 0 || c@.started ==> (outgoing matches Ok(msgs) && msgs@.len()
                == self@.items.len() && forall|i: int|
                0 <= i < msgs@.len() ==> draws_line(
                    #[trigger] msgs@[i],
                    self@.items[i],
                    i == self@.index,
                    self@.pos_x,
                    self@.pos_y + i * line_height_of(c@.info.font_size),
                    self@.color,
                )),
    {
        self.draw_lines(c, self.pos_x, self.pos_y)
    }

    /// Draws the list as `draw` does, from column `x` and row `y` down.
    fn draw_at(&self, c: &Console, x: i32, y: i32) -> (outgoing: Result<
        Vec<RenderLoopMessage>,
        ConsoleError,
    >)
        ensures
            self@.items.len() > 0 && !c@.started ==> outgoing == Err::<
                Vec<RenderLoopMessage>,
                ConsoleError,
            >(ConsoleError::NotInitialized),
            self@.items.len() == 0 || c@.started ==> (outgoing matches Ok(msgs) && msgs@.len()
                == self@.items.len() && forall|i: int|
                0 <= i < msgs@.len() ==> draws_line(
                    #[trigger] msgs@[i],
                    self@.items[i],
                    i == self@.index,
                    x as int,
                    y + i * line_height_of(c@.info.font_size),
                    self@.color,
                )),
    {
        self.draw_lines(c, x, y)
    }

    /// Moves the selection by the newest input: one up on a press of the up key,
    /// else one down on a press of the down key, never past either end. The
    /// console's input snapshot is refreshed where the keys are looked at.
    fn update(&mut self, c: &mut Console) -> (done: Result<(), ConsoleError>)
        ensures
            !old(self)@.asks_keys() ==> done == Ok::<(), ConsoleError>(()) && final(self)@ == old(
                self,
            )@ && final(c)@ == old(c)@,
            old(self)@.asks_keys() && !old(c)@.started ==> done == Err::<(), ConsoleError>(
                ConsoleError::NotInitialized,
            ) && final(self)@ == old(self)@ && final(c)@ == old(c)@,
            old(self)@.asks_keys() && old(c)@.started ==> done == Ok::<(), ConsoleError>(())
                && final(c)@ == old(c)@.refreshed() && final(self)@ == (SelectState {
                index: next_index(
                    old(self)@.index,
                    old(self)@.items.len(),
                    holds_key_event(old(c)@.refreshed().cache, KeyState::Pressed, KeyCode::Up),
                    holds_key_event(old(c)@.refreshed().cache, KeyState::Pressed, KeyCode::Down),
                ),
                ..old(self)@
            }),
            old(self)@.wf() ==> final(self)@.wf(),
    {
        if self.index > 0 {
            match c.key_pressed(KeyCode::Up) {
                Ok(true) => {
                    self.index -= 1;
                    return Ok(());
                },
                Ok(false) => {},
                Err(e) => {
                    return Err(e);
                },
            }
        }
        if self.items.len() > 0 && self.index < self.items.len() - 1 {
            match c.key_pressed(KeyCode::Down) {
                Ok(true) => {
                    self.index += 1;
                },
                Ok(false) => {},
                Err(e) => {
                    return Err(e);
                },
            }
        }
        Ok(())
    }

    /// Puts the list back as it was made: white, empty, at the origin.
    fn reset(&mut self)
        ensures
            final(self)@ == SelectState::<T>::fresh(),
    {
        self.color = WHITE;
        self.items = Vec::new();
        self.index = 0;
        self.pos_x = 0;
        self.pos_y = 0;
    }
}

} // verus!
