//! Hit testing of the card-grid home layout: a row of four page tabs above
//! a two-by-four grid of telemetry cards.

use vstd::prelude::*;
use crate::pages::AssistantPage;

verus! {

/// Left edge of the first tab.
pub const HEADER_X: i32 = 42;
/// Top edge of the tab row.
pub const HEADER_Y: i32 = 58;
/// Height of the tab row.
pub const HEADER_H: i32 = 22;
/// Width of a tab.
pub const TAB_W: i32 = 65;
/// Gap between tabs.
pub const TAB_GAP: i32 = 4;
/// Left edge of the card grid.
pub const GRID_X: i32 = 46;
/// Top edge of the card grid.
pub const GRID_Y: i32 = 92;
/// Gap between the two card columns.
pub const GAP_X: i32 = 10;
/// Gap between card rows.
pub const ROW_GAP: i32 = 8;
/// Width of a card.
pub const CARD_W: i32 = 129;
/// Height of a card.
pub const CARD_H: i32 = 40;

/// The telemetry cards, row by row, left column first.
#[derive(Debug, Clone, Copy, PartialEq, Eq, Structural)]
pub enum CardId {
    Rtc,
    Touch,
    Flash,
    Psram,
    Battery,
    Wifi,
    Sd,
    Backlight,
}

/// The page of tab `idx` (0 to 3): Home, Weather, Music, Settings.
pub open spec fn tab_page(idx: int) -> AssistantPage {
    if idx == 0 {
        AssistantPage::Home
    } else if idx == 1 {
        AssistantPage::Weather
    } else if idx == 2 {
        AssistantPage::Music
    } else {
        AssistantPage::Settings
    }
}

/// Whether `(x, y)` falls on tab `idx`.
pub open spec fn on_tab(x: int, y: int, idx: int) -> bool {
    let tab_x = 42 + idx * 69;
    58 <= y < 80 && tab_x <= x < tab_x + 65
}

/// The card in grid row `row` (0 to 3) and column `col` (0 or 1).
pub open spec fn card_at(row: int, col: int) -> CardId {
    if row == 0 {
        if col == 0 { CardId::Rtc } else { CardId::Touch }
    } else if row == 1 {
        if col == 0 { CardId::Flash } else { CardId::Psram }
    } else if row == 2 {
        if col == 0 { CardId::Battery } else { CardId::Wifi }
    } else {
        if col == 0 { CardId::Sd } else { CardId::Backlight }
    }
}

/// Whether `(x, y)` falls on the card in row `row` and column `col`.
pub open spec fn on_card(x: int, y: int, row: int, col: int) -> bool {
    let cx = 46 + col * 139;
    let cy = 92 + row * 48;
    cx <= x < cx + 129 && cy <= y < cy + 40
}

/// The page whose tab holds the point `(x, y)`, if any.
pub fn page_from_point(x: i32, y: i32) -> (r: Option<AssistantPage>)
    ensures
        match r {
            Some(p) => exists|idx: int| 0 <= idx < 4 && on_tab(x as int, y as int, idx) && p == tab_page(idx),
            None => forall|idx: int| 0 <= idx < 4 ==> !on_tab(x as int, y as int, idx),
        },
{
    if !(y >= 58 && y < 80) {
        return None;
    }
    let mut idx: i32 = 0;
    while idx < 4
        invariant
            0 <= idx <= 4,
            58 <= y < 80,
            forall|k: int| 0 <= k < idx ==> !on_tab(x as int, y as int, k),
        decreases 4 - idx,
    {
        let tab_x: i32 = 42 + idx * 69;
        if x >= tab_x && x < tab_x + 65 {
            let page = if idx == 0 {
                AssistantPage::Home
            } else if idx == 1 {
                AssistantPage::Weather
            } else if idx == 2 {
                AssistantPage::Music
            } else {
                AssistantPage::Settings
            };
            assert(on_tab(x as int, y as int, idx as int) && page == tab_page(idx as int));
            return Some(page);
        }
        idx = idx + 1;
    }
    None
}

/// The card that holds the point `(x, y)`, if any.
pub fn card_from_point(x: i32, y: i32) -> (r: Option<CardId>)
    ensures
        match r {
            Some(c) => exists|row: int, col: int|
                0 <= row < 4 && 0 <= col < 2 && on_card(x as int, y as int, row, col) && c == card_at(row, col),
            None => forall|row: int, col: int|
                0 <= row < 4 && 0 <= col < 2 ==> !on_card(x as int, y as int, row, col),
        },
{
    let mut k: i32 = 0;
    while k < 8
        invariant
            0 <= k <= 8,
            forall|row: int, col: int| 0 <= row < 4 && 0 <= col < 2 && row * 2 + col < k ==> !on_card(x as int, y as int, row, col),
        decreases 8 - k,
    {
        let row = k / 2;
        let col = k % 2;
        let rx: i32 = 46 + col * 139;
        let ry: i32 = 92 + row * 48;
        if x >= rx && x < rx + 129 && y >= ry && y < ry + 40 {
            let id = if k == 0 {
                CardId::Rtc
            } else if k == 1 {
                CardId::Touch
            } else if k == 2 {
                CardId::Flash
            } else if k == 3 {
                CardId::Psram
            } else if k == 4 {
                CardId::Battery
            } else if k == 5 {
                CardId::Wifi
            } else if k == 6 {
                CardId::Sd
            } else {
                CardId::Backlight
            };
            assert(0 <= row < 4 && 0 <= col < 2);
            assert(id == card_at(row as int, col as int));
            assert(on_card(x as int, y as int, row as int, col as int));
            return Some(id);
        }
        assert forall|r2: int, c2: int| 0 <= r2 < 4 && 0 <= c2 < 2 && r2 * 2 + c2 < k + 1 implies !on_card(x as int, y as int, r2, c2) by {
            if r2 * 2 + c2 == k {
                assert(r2 == row && c2 == col);
            }
        }
        k = k + 1;
    }
    None
}

} // verus!
