//! Displays, the cursor, and the choice of the display under a point.
use vstd::prelude::*;

verus! {

/// An attached display: origin and size in physical pixels of the virtual
/// screen, and its scale factor in thousandths (a factor of 1.5 is 1500).
#[derive(Clone, Copy, Debug, PartialEq, Eq, Structural)]
pub struct Display {
    pub x: i32,
    pub y: i32,
    pub width: u32,
    pub height: u32,
    pub scale_milli: u32,
}

/// A pointer position in physical pixels of the virtual screen.
#[derive(Clone, Copy, Debug, PartialEq, Eq, Structural)]
pub struct Cursor {
    pub x: i32,
    pub y: i32,
}

impl Display {
    /// The point lies in the display's rectangle, bounds included.
    pub open spec fn holds(self, x: int, y: int) -> bool {
        &&& self.x <= x <= self.x + self.width
        &&& self.y <= y <= self.y + self.height
    }

    /// Whether the point `(x, y)` lies in this display, bounds included.
    pub fn contains(&self, x: i32, y: i32) -> (r: bool)
        ensures
            r == self.holds(x as int, y as int),
    {
        let right: i64 = self.x as i64 + self.width as i64;
        let bottom: i64 = self.y as i64 + self.height as i64;
        self.x <= x && (x as i64) <= right && self.y <= y && (y as i64) <= bottom
    }
}

/// `i` is the first display of `displays` that holds the point.
pub open spec fn first_holding(displays: Seq<Display>, x: int, y: int, i: int) -> bool {
    &&& 0 <= i < displays.len()
    &&& displays[i].holds(x, y)
    &&& forall|j: int| 0 <= j < i ==> !(#[trigger] displays[j]).holds(x, y)
}

/// The display that holds the point: the first such in `displays`, or
/// `primary` when none does.
pub open spec fn display_at(displays: Seq<Display>, primary: Display, x: int, y: int) -> Display
    decreases displays.len(),
{
    if displays.len() == 0 {
        primary
    } else if displays[0].holds(x, y) {
        displays[0]
    } else {
        display_at(displays.drop_first(), primary, x, y)
    }
}

/// Finds the display that holds the point `(x, y)`, bounds included: the
/// first one in enumeration order, or the primary display when the point is
/// off every display.
pub fn get_current_monitor(displays: &Vec<Display>, primary: Display, x: i32, y: i32) -> (r: Display)
    ensures
        r == display_at(displays@, primary, x as int, y as int),
        (exists|i: int| first_holding(displays@, x as int, y as int, i)) ==> (exists|i: int|
            first_holding(displays@, x as int, y as int, i) && r == displays@[i]),
        (forall|i: int| 0 <= i < displays@.len() ==> !(#[trigger] displays@[i]).holds(x as int, y as int))
            ==> r == primary,
{
    let mut k: usize = 0;
    assert(displays@.skip(0) =~= displays@);
    while k < displays.len()
        invariant
            0 <= k <= displays@.len(),
            forall|j: int| 0 <= j < k ==> !(#[trigger] displays@[j]).holds(x as int, y as int),
            display_at(displays@, primary, x as int, y as int) == display_at(
                displays@.skip(k as int),
                primary,
                x as int,
                y as int,
            ),
        decreases displays@.len() - k,
    {
        let d = displays[k];
        if d.contains(x, y) {
            assert(displays@.skip(k as int)[0] == d);
            assert(first_holding(displays@, x as int, y as int, k as int));
            return d;
        }
        assert(displays@.skip(k as int).drop_first() =~= displays@.skip(k + 1));
        k = k + 1;
    }
    assert(displays@.skip(k as int) =~= Seq::<Display>::empty());
    primary
}

/// The cursor reported by the pointer probe, or the origin when the probe
/// could not read it.
pub fn get_mouse_position(probe: Option<Cursor>) -> (r: Cursor)
    ensures
        probe is Some ==> r == probe->0,
        probe is None ==> r == (Cursor { x: 0, y: 0 }),
{
    match probe {
        Some(c) => c,
        None => Cursor { x: 0, y: 0 },
    }
}

} // verus!
