//! The monitors of a desktop, and which of them the cursor is on.

use vstd::prelude::*;

verus! {

/// The number of monitors a desktop keeps track of.
pub const SCREEN_SLOTS: usize = 9;

/// One monitor: its place in the enumeration, its name and its rectangle on
/// the desktop. The primary monitor has its top left corner at the origin.
#[derive(Debug)]
pub struct Screen {
    pub index: u8,
    pub id: u32,
    pub name: String,
    pub width: u32,
    pub height: u32,
    pub top_x: i32,
    pub top_y: i32,
}

/// What a monitor is.
pub ghost struct ScreenView {
    pub index: int,
    pub id: int,
    pub name: Seq<char>,
    pub width: int,
    pub height: int,
    pub top_x: int,
    pub top_y: int,
}

impl ScreenView {
    /// Whether the point lies on the monitor. The right and the bottom edge
    /// are outside.
    pub open spec fn holds(self, point: (int, int)) -> bool {
        &&& self.top_x <= point.0 < self.top_x + self.width
        &&& self.top_y <= point.1 < self.top_y + self.height
    }
}

impl View for Screen {
    type V = ScreenView;

    open spec fn view(&self) -> ScreenView {
        ScreenView {
            index: self.index as int,
            id: self.id as int,
            name: self.name@,
            width: self.width as int,
            height: self.height as int,
            top_x: self.top_x as int,
            top_y: self.top_y as int,
        }
    }
}

impl Clone for Screen {
    fn clone(&self) -> (out: Screen)
        ensures
            out@ == self@,
    {
        Screen {
            index: self.index,
            id: self.id,
            name: self.name.clone(),
            width: self.width,
            height: self.height,
            top_x: self.top_x,
            top_y: self.top_y,
        }
    }
}

impl Screen {
    /// A monitor of the given place, name and rectangle.
    pub fn new(index: u8, id: u32, name: &str, width: u32, height: u32, top_x: i32, top_y: i32) -> (screen:
        Screen)
        ensures
            screen@ == (ScreenView {
                index: index as int,
                id: id as int,
                name: name@,
                width: width as int,
                height: height as int,
                top_x: top_x as int,
                top_y: top_y as int,
            }),
    {
        Screen { index, id, name: name.to_owned(), width, height, top_x, top_y }
    }

    /// Whether the point lies on this monitor.
    pub fn contains(&self, point: (i32, i32)) -> (inside: bool)
        ensures
            inside == self@.holds((point.0 as int, point.1 as int)),
    {
        let x = point.0 as i64;
        let y = point.1 as i64;
        let left = self.top_x as i64;
        let top = self.top_y as i64;
        x >= left && x < left + self.width as i64 && y >= top && y < top + self.height as i64
    }
}

/// What the monitors of a desktop are.
pub open spec fn screens_view(screens: Seq<Screen>) -> Seq<ScreenView> {
    Seq::new(screens.len(), |slot: int| screens[slot]@)
}

/// The slot that stands in where no monitor was given: an empty rectangle at
/// the origin, numbered and named by its place.
pub open spec fn vacant(slot: int) -> ScreenView {
    ScreenView {
        index: slot,
        id: slot,
        name: seq![(('0' as u8) + slot as u8) as char],
        width: 0,
        height: 0,
        top_x: 0,
        top_y: 0,
    }
}

/// The slot `slot` of a desktop made of `given`: the monitor given for it,
/// numbered by its place, or a vacant slot.
pub open spec fn slot_of(given: Seq<Screen>, slot: int) -> ScreenView {
    if slot < given.len() {
        ScreenView { index: slot, ..given[slot]@ }
    } else {
        vacant(slot)
    }
}

/// The last of the first `count` monitors that holds the point, or
/// `otherwise` if none of them does.
pub open spec fn last_holding(
    screens: Seq<ScreenView>,
    point: (int, int),
    count: int,
    otherwise: int,
) -> int
    decreases count,
{
    if count <= 0 {
        otherwise
    } else if screens[count - 1].holds(point) {
        count - 1
    } else {
        last_holding(screens, point, count - 1, otherwise)
    }
}

/// What a desktop is: where the cursor was last seen, the slot of the
/// monitor it was on, and the monitors.
pub ghost struct DesktopView {
    pub cursor: (int, int),
    pub current: int,
    pub screens: Seq<ScreenView>,
}

/// The monitors of a desktop and the cursor's place among them.
#[derive(Debug)]
pub struct Desktop {
    cursor_position: (i32, i32),
    current_screen: usize,
    screens: Vec<Screen>,
}

impl View for Desktop {
    type V = DesktopView;

    closed spec fn view(&self) -> DesktopView {
        DesktopView {
            cursor: (self.cursor_position.0 as int, self.cursor_position.1 as int),
            current: self.current_screen as int,
            screens: screens_view(self.screens@),
        }
    }
}

/// The name of a vacant slot: its number.
fn slot_name(slot: u8) -> (name: &'static str)
    requires
        slot < SCREEN_SLOTS,
    ensures
        name@ == seq![(('0' as u8) + slot) as char],
{
    proof {
        reveal_strlit("0");
        reveal_strlit("1");
        reveal_strlit("2");
        reveal_strlit("3");
        reveal_strlit("4");
        reveal_strlit("5");
        reveal_strlit("6");
        reveal_strlit("7");
        reveal_strlit("8");
    }
    let name = match slot {
        0 => "0",
        1 => "1",
        2 => "2",
        3 => "3",
        4 => "4",
        5 => "5",
        6 => "6",
        7 => "7",
        _ => "8",
    };
    assert(name@ =~= seq![(('0' as u8) + slot) as char]);
    name
}

impl Desktop {
    #[verifier::type_invariant]
    spec fn sound(self) -> bool {
        &&& self.screens@.len() == SCREEN_SLOTS
        &&& self.current_screen < SCREEN_SLOTS
    }

    /// A desktop of the given monitors, at most nine, in the order given.
    /// Slots left over are vacant. The cursor starts at the origin, on the
    /// first monitor.
    pub fn new(screens: &[Screen]) -> (desktop: Desktop)
        requires
            screens@.len() <= SCREEN_SLOTS,
        ensures
            desktop@.cursor == (0int, 0int),
            desktop@.current == 0,
            desktop@.screens.len() == SCREEN_SLOTS,
            forall|slot: int|
                0 <= slot < SCREEN_SLOTS ==> #[trigger] desktop@.screens[slot] == slot_of(
                    screens@,
                    slot,
                ),
    {
        let mut slots: Vec<Screen> = Vec::new();
        let mut slot: u8 = 0;
        while (slot as usize) < SCREEN_SLOTS
            invariant
                slot <= SCREEN_SLOTS,
                screens@.len() <= SCREEN_SLOTS,
                slots@.len() == slot,
                forall|done: int|
                    0 <= done < slot ==> (#[trigger] slots@[done])@ == slot_of(screens@, done),
            decreases SCREEN_SLOTS - slot,
        {
            if (slot as usize) < screens.len() {
                let given = &screens[slot as usize];
                slots.push(
                    Screen {
                        index: slot,
                        id: given.id,
                        name: given.name.clone(),
                        width: given.width,
                        height: given.height,
                        top_x: given.top_x,
                        top_y: given.top_y,
                    },
                );
            } else {
                slots.push(Screen::new(slot, slot as u32, slot_name(slot), 0, 0, 0, 0));
            }
            slot = slot + 1;
        }
        Desktop { cursor_position: (0, 0), current_screen: 0, screens: slots }
    }

    /// Takes a reading of the cursor and gives the monitor it is on. Of
    /// monitors that overlap, the last one holding the cursor counts. A
    /// cursor on no monitor, or one that could not be read, leaves the
    /// current monitor as it was.
    pub fn update(&mut self, cursor: Option<(i32, i32)>) -> (screen: Screen)
        ensures
            final(self)@.screens == old(self)@.screens,
            final(self)@.screens.len() == SCREEN_SLOTS,
            0 <= final(self)@.current < SCREEN_SLOTS,
            screen@ == final(self)@.screens[final(self)@.current],
            match cursor {
                Some(point) => {
                    &&& final(self)@.cursor == (point.0 as int, point.1 as int)
                    &&& final(self)@.current == last_holding(
                        old(self)@.screens,
                        (point.0 as int, point.1 as int),
                        SCREEN_SLOTS as int,
                        old(self)@.current,
                    )
                },
                None => final(self)@ == old(self)@,
            },
    {
        proof {
            use_type_invariant(&*self);
        }
        match cursor {
            Some(point) => {
                let mut found = self.current_screen;
                let mut slot: usize = 0;
                while slot < SCREEN_SLOTS
                    invariant
                        slot <= SCREEN_SLOTS,
                        self.screens@.len() == SCREEN_SLOTS,
                        self.current_screen < SCREEN_SLOTS,
                        found < SCREEN_SLOTS,
                        found == last_holding(
                            screens_view(self.screens@),
                            (point.0 as int, point.1 as int),
                            slot as int,
                            self.current_screen as int,
                        ),
                    decreases SCREEN_SLOTS - slot,
                {
                    if self.screens[slot].contains(point) {
                        found = slot;
                    }
                    slot = slot + 1;
                }
                let screen = self.screens[found].clone();
                self.cursor_position = point;
                self.current_screen = found;
                screen
            },
            None => self.screens[self.current_screen].clone(),
        }
    }

    /// The monitor that the cursor was last seen on.
    pub fn current_screen(&self) -> (screen: Screen)
        ensures
            self@.screens.len() == SCREEN_SLOTS,
            0 <= self@.current < SCREEN_SLOTS,
            screen@ == self@.screens[self@.current],
    {
        proof {
            use_type_invariant(self);
        }
        self.screens[self.current_screen].clone()
    }
}

} // verus!
