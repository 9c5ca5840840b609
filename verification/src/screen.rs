//! What the screen shows: which screen is up, the list of recipients with
//! the selected one highlighted, and a `position/count` cursor.

use vstd::prelude::*;
use crate::text::STRING_SIZE;
use crate::lists::{GLOBAL_MAX_ITEMS, item_names, items_len};

verus! {

/// The screens of the device.
#[derive(Debug, Clone, Copy, PartialEq, Eq, Structural)]
pub enum CurrentScreen {
    Starting,
    Messaging,
    MessageSent,
    Alert,
    Error,
}

impl Default for CurrentScreen {
    fn default() -> (r: Self)
        ensures
            r == CurrentScreen::Messaging,
    {
        CurrentScreen::Messaging
    }
}

/// What a screen snapshot holds.
pub struct ScreenView {
    pub items: Seq<Seq<char>>,
    pub selected_item: u8,
    pub align: bool,
    pub current_screen: CurrentScreen,
}

/// A snapshot of what the screen is to show.
#[derive(Debug)]
pub struct ScreenData {
    pub items: heapless::Vec<heapless::String<STRING_SIZE>, GLOBAL_MAX_ITEMS>,
    pub selected_item: u8,
    pub align: bool,
    pub current_screen: CurrentScreen,
}

impl View for ScreenData {
    type V = ScreenView;

    open spec fn view(&self) -> ScreenView {
        ScreenView {
            items: item_names(self.items),
            selected_item: self.selected_item,
            align: self.align,
            current_screen: self.current_screen,
        }
    }
}

/// One line of the recipient list as drawn: which item, its top edge in
/// pixels, and whether it is the highlighted one.
#[derive(Debug, Clone, Copy, PartialEq, Eq, Structural)]
pub struct LayoutRow {
    pub index: u8,
    pub top: i32,
    pub highlighted: bool,
}

/// The messaging screen as drawn: the cursor `position/count`, and the
/// lines from three above the selected one to the end of the list.
#[derive(Debug)]
pub struct MessagingLayout {
    pub position: u8,
    pub count: usize,
    pub rows: Vec<LayoutRow>,
}

/// Height of a line, in pixels.
pub open spec fn line_height() -> int {
    12
}

/// The first item drawn: three above the selected one, or the first.
pub open spec fn first_shown(selected: u8) -> int {
    if selected >= 3 {
        selected - 3
    } else {
        0
    }
}

/// The `k`-th line drawn.
pub open spec fn layout_row(selected: u8, k: int) -> LayoutRow {
    LayoutRow {
        index: (first_shown(selected) + k) as u8,
        top: (1 + line_height() * k) as i32,
        highlighted: first_shown(selected) + k == selected,
    }
}

/// The lines drawn for a list of `count` items.
pub open spec fn shown_rows(selected: u8, count: int) -> Seq<LayoutRow> {
    Seq::new(
        if count > first_shown(selected) {
            (count - first_shown(selected)) as nat
        } else {
            0
        },
        |k: int| layout_row(selected, k),
    )
}

/// Lays out the messaging screen of a snapshot.
pub fn messaging_layout(screen_data: &ScreenData) -> (r: MessagingLayout)
    requires
        screen_data.selected_item < 255,
    ensures
        r.position == screen_data.selected_item + 1,
        r.count == screen_data@.items.len(),
        r.rows@ == shown_rows(screen_data.selected_item, screen_data@.items.len() as int),
{
    let selected = screen_data.selected_item;
    let count = items_len(&screen_data.items);
    let start: u8 = if selected >= 3 {
        selected - 3
    } else {
        0
    };
    let end: u8 = count as u8;
    let mut rows: Vec<LayoutRow> = Vec::new();
    let mut y: i32 = 1;
    let mut i: u8 = start;
    while i < end
        invariant
            start as int == first_shown(selected),
            end as int == count,
            count <= GLOBAL_MAX_ITEMS,
            start <= i,
            i <= end || i == start,
            y == 1 + line_height() * (i - start),
            rows@ == Seq::new((i - start) as nat, |k: int| layout_row(selected, k)),
        decreases end - i,
    {
        let row = LayoutRow { index: i, top: y, highlighted: i == selected };
        assert(row == layout_row(selected, (i - start) as int));
        rows.push(row);
        y = y + 12;
        i = i + 1;
        assert(rows@ =~= Seq::new((i - start) as nat, |k: int| layout_row(selected, k)));
    }
    assert(rows@ =~= shown_rows(selected, count as int));
    MessagingLayout { position: selected + 1, count, rows }
}

/// What the display task draws for a snapshot: the messaging screen, or
/// nothing for the other screens.
pub fn display_layout(screen_data: &ScreenData) -> (r: Option<MessagingLayout>)
    requires
        screen_data.current_screen == CurrentScreen::Messaging ==> screen_data.selected_item < 255,
    ensures
        screen_data.current_screen != CurrentScreen::Messaging ==> r is None,
        screen_data.current_screen == CurrentScreen::Messaging ==> (r matches Some(l) && l.position
            == screen_data.selected_item + 1 && l.count == screen_data@.items.len() && l.rows@
            == shown_rows(screen_data.selected_item, screen_data@.items.len() as int)),
{
    match screen_data.current_screen {
        CurrentScreen::Messaging => Some(messaging_layout(screen_data)),
        _ => None,
    }
}

} // verus!
