//! Logical to physical conversion, placement next to the cursor, and the
//! stored window geometry with its defaults.
use vstd::prelude::*;

use crate::display::{Cursor, Display};
use crate::role::Role;

verus! {

/// `v` logical units at a scale of `milli` thousandths, in physical pixels,
/// the fraction cut off towards zero.
pub open spec fn physical(v: int, milli: int) -> int {
    if v >= 0 {
        v * milli / 1000
    } else {
        -((-v) * milli / 1000)
    }
}

/// Converts a logical length or coordinate to physical pixels at the scale
/// factor `scale_milli` / 1000, cutting the fraction off towards zero.
pub fn to_physical(v: i64, scale_milli: u32) -> (r: i128)
    ensures
        r == physical(v as int, scale_milli as int),
        -0x1_0000_0000_0000_0000_0000_0000 < r < 0x1_0000_0000_0000_0000_0000_0000,
{
    let neg = v < 0;
    let mag: u128 = if neg { (-(v as i128)) as u128 } else { v as u128 };
    let m: u128 = scale_milli as u128;
    proof {
        assert(mag <= 0x8000_0000_0000_0000);
        assert(m < 0x1_0000_0000);
        assert(mag * m <= 0x8000_0000_0000_0000 * 0x1_0000_0000) by (nonlinear_arith)
            requires
                mag <= 0x8000_0000_0000_0000,
                m < 0x1_0000_0000,
        ;
    }
    let q: u128 = mag * m / 1000;
    proof {
        assert(q <= mag * m) by (nonlinear_arith)
            requires
                q == mag * m / 1000,
                mag * m >= 0,
        ;
    }
    if neg {
        -(q as i128)
    } else {
        q as i128
    }
}

/// Where a window of extent `w` opened at cursor coordinate `c` starts on
/// an axis where the display spans `[o, o + s]`: at the cursor, unless it
/// would pass the far edge; then shifted back by its own extent, but never
/// before the display's near edge.
pub open spec fn axis_position(c: int, w: int, o: int, s: int) -> int {
    if c + w > o + s {
        if c - w < o {
            o
        } else {
            c - w
        }
    } else {
        c
    }
}

/// Places a window of physical size `width` x `height` at the cursor, kept
/// off the right and bottom edges of `display` and then off its left and
/// top edges.
pub fn place_near_cursor(cursor: Cursor, width: i128, height: i128, display: Display) -> (r: (
    i128,
    i128,
))
    requires
        -0x1_0000_0000_0000_0000_0000_0000 < width < 0x1_0000_0000_0000_0000_0000_0000,
        -0x1_0000_0000_0000_0000_0000_0000 < height < 0x1_0000_0000_0000_0000_0000_0000,
    ensures
        r.0 == axis_position(cursor.x as int, width as int, display.x as int, display.width as int),
        r.1 == axis_position(cursor.y as int, height as int, display.y as int, display.height as int),
{
    (
        resolve_axis(cursor.x, width, display.x, display.width),
        resolve_axis(cursor.y, height, display.y, display.height),
    )
}

fn resolve_axis(c: i32, w: i128, o: i32, s: u32) -> (r: i128)
    requires
        -0x1_0000_0000_0000_0000_0000_0000 < w < 0x1_0000_0000_0000_0000_0000_0000,
    ensures
        r == axis_position(c as int, w as int, o as int, s as int),
{
    if c as i128 + w > o as i128 + s as i128 {
        let back = c as i128 - w;
        if back < o as i128 {
            o as i128
        } else {
            back
        }
    } else {
        c as i128
    }
}

/// Which dimension of a window a stored setting holds.
#[derive(Clone, Copy, Debug, PartialEq, Eq, Structural)]
pub enum Dimension {
    Width,
    Height,
    PositionX,
    PositionY,
}

/// The key of a stored geometry setting: a role and a dimension.
#[derive(Clone, Copy, Debug, PartialEq, Eq, Structural)]
pub struct SettingKey {
    pub role: Role,
    pub dimension: Dimension,
}

/// The value that the last entry for `k` in `s` records, if any.
pub open spec fn last_entry(s: Seq<(SettingKey, i64)>, k: SettingKey) -> Option<i64>
    decreases s.len(),
{
    if s.len() == 0 {
        None
    } else if s.last().0 == k {
        Some(s.last().1)
    } else {
        last_entry(s.drop_last(), k)
    }
}

/// Stored integer settings of window geometry. A later entry for a key
/// overrides an earlier one.
pub struct Settings {
    entries: Vec<(SettingKey, i64)>,
}

impl View for Settings {
    type V = Map<SettingKey, i64>;

    closed spec fn view(&self) -> Map<SettingKey, i64> {
        Map::new(
            |k: SettingKey| last_entry(self.entries@, k) is Some,
            |k: SettingKey| last_entry(self.entries@, k)->0,
        )
    }
}

/// What a read with a default gives, and the settings after it: a stored
/// value is returned and nothing changes; an absent one is stored as the
/// default, which is returned.
pub open spec fn read_or_store(m: Map<SettingKey, i64>, k: SettingKey, d: i64) -> (i64, Map<
    SettingKey,
    i64,
>) {
    if m.contains_key(k) {
        (m[k], m)
    } else {
        (d, m.insert(k, d))
    }
}

impl Settings {
    /// No setting stored.
    pub fn new() -> (r: Settings)
        ensures
            r@ == Map::<SettingKey, i64>::empty(),
    {
        let r = Settings { entries: Vec::new() };
        assert(r@ =~= Map::<SettingKey, i64>::empty());
        r
    }

    /// The stored value of `k`.
    pub fn get(&self, k: SettingKey) -> (r: Option<i64>)
        ensures
            r == (if self@.contains_key(k) {
                Some(self@[k])
            } else {
                None
            }),
    {
        let mut i: usize = self.entries.len();
        assert(self.entries@.take(i as int) =~= self.entries@);
        while i > 0
            invariant
                i <= self.entries@.len(),
                last_entry(self.entries@, k) == last_entry(self.entries@.take(i as int), k),
            decreases i,
        {
            let e = self.entries[i - 1];
            assert(self.entries@.take(i as int).drop_last() =~= self.entries@.take(i - 1));
            if e.0 == k {
                return Some(e.1);
            }
            i = i - 1;
        }
        None
    }

    /// Stores `v` under `k`, replacing any earlier value.
    pub fn set(&mut self, k: SettingKey, v: i64)
        ensures
            final(self)@ == old(self)@.insert(k, v),
    {
        self.entries.push((k, v));
        proof {
            let s = final(self).entries@;
            assert(s.drop_last() =~= old(self).entries@);
            assert forall|k2: SettingKey| #[trigger]
                last_entry(s, k2) == (if k2 == k {
                    Some(v)
                } else {
                    last_entry(old(self).entries@, k2)
                }) by {}
            assert(final(self)@ =~= old(self)@.insert(k, v));
        }
    }

    /// The stored value of `k`, or `d` when none is stored; nothing is
    /// written.
    pub fn get_or(&self, k: SettingKey, d: i64) -> (r: i64)
        ensures
            r == (if self@.contains_key(k) {
                self@[k]
            } else {
                d
            }),
    {
        match self.get(k) {
            Some(v) => v,
            None => d,
        }
    }

    /// The stored value of `k`; when none is stored, `d` is stored and
    /// returned.
    pub fn get_or_insert(&mut self, k: SettingKey, d: i64) -> (r: i64)
        ensures
            (r, final(self)@) == read_or_store(old(self)@, k, d),
    {
        match self.get(k) {
            Some(v) => v,
            None => {
                self.set(k, d);
                d
            },
        }
    }
}

/// A stored read twice: the first read of an absent key returns the default
/// and stores it; the second read returns the same value and leaves the
/// settings as the first read left them, whatever default it is given.
pub proof fn lemma_read_twice(m: Map<SettingKey, i64>, k: SettingKey, d1: i64, d2: i64)
    ensures
        ({
            let (v1, m1) = read_or_store(m, k, d1);
            let (v2, m2) = read_or_store(m1, k, d2);
            &&& !m.contains_key(k) ==> v1 == d1 && m1 == m.insert(k, d1)
            &&& m.contains_key(k) ==> v1 == m[k] && m1 == m
            &&& v2 == v1
            &&& m2 == m1
        }),
{
}

/// The stored width and height behind `width_key` and `height_key`; each
/// one absent is stored as its default and returned.
pub fn get_window_size(
    settings: &mut Settings,
    width_key: SettingKey,
    height_key: SettingKey,
    default_width: i64,
    default_height: i64,
) -> (r: (i64, i64))
    ensures
        ({
            let (w, m1) = read_or_store(old(settings)@, width_key, default_width);
            let (h, m2) = read_or_store(m1, height_key, default_height);
            r == (w, h) && final(settings)@ == m2
        }),
{
    let width = settings.get_or_insert(width_key, default_width);
    let height = settings.get_or_insert(height_key, default_height);
    (width, height)
}

} // verus!
