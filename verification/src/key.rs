//! The key of one tile, and the names derived from it: the file under which
//! the tile is cached and the address from which it is fetched.

use crate::text::{
    decimal, decimal_two_wide, lemma_digit_chars, lemma_signed_decimal_unique,
    lemma_split_at_separator, lemma_two_wide, push_decimal, push_decimal_two_wide,
    push_signed_decimal, signed_decimal,
};
use crate::time::{utc_fields, CalendarFields, TimeSlot};
use vstd::prelude::*;
use vstd::string::StringExecFns;

verus! {

/// The zoom level at which tiles are fetched.
pub const ZOOM: u16 = 7;

/// Column of the first corner of the fetched region, in tile coordinates.
pub const TILE_X1: u16 = 41;

/// Row of the first corner of the fetched region.
pub const TILE_Y1: u16 = 61;

/// Column of the second corner of the fetched region.
pub const TILE_X2: u16 = 50;

/// Row of the second corner of the fetched region.
pub const TILE_Y2: u16 = 68;

/// What identifies one cached tile: its snapshot time, down to the minute,
/// the zoom level and the two corners of the region.
#[derive(Clone, Copy, Debug, PartialEq, Eq, Structural)]
pub struct TileKey {
    pub year: i32,
    pub month: u32,
    pub day: u32,
    pub hour: u32,
    pub minute: u32,
    pub zoom: u16,
    pub x1: u16,
    pub y1: u16,
    pub x2: u16,
    pub y2: u16,
}

/// Year, month, day, hour and minute of a key, run together: the year as it
/// is, each of the others two digits wide.
pub open spec fn stamp_text(key: TileKey) -> Seq<char> {
    signed_decimal(key.year as int) + decimal_two_wide(key.month as nat) + decimal_two_wide(
        key.day as nat,
    ) + decimal_two_wide(key.hour as nat) + decimal_two_wide(key.minute as nat)
}

/// The name of the file that caches the tile of a key.
pub open spec fn file_name_text(key: TileKey) -> Seq<char> {
    stamp_text(key) + "_"@ + decimal(key.zoom as nat) + "_"@ + decimal(key.x1 as nat) + "_"@
        + decimal(key.y1 as nat) + "_"@ + decimal(key.x2 as nat) + "_"@ + decimal(key.y2 as nat)
        + ".jpg"@
}

/// The address from which the tile of a key is fetched.
pub open spec fn url_text(key: TileKey) -> Seq<char> {
    "https://imn-rust-lb.infoplaza.io/v4/nowcast/tiles/satellite-europe/"@ + stamp_text(key)
        + "/"@ + decimal(key.zoom as nat) + "/"@ + decimal(key.x1 as nat) + "/"@ + decimal(
        key.y1 as nat,
    ) + "/"@ + decimal(key.x2 as nat) + "/"@ + decimal(key.y2 as nat) + "?outputtype=jpeg"@
}

/// The directory that holds the cached tiles: the directory `nuage` under
/// the cache directory of the environment, or under `.cache` in the home
/// directory of the user where the environment names none.
pub open spec fn cache_directory_text(cache_home: Option<Seq<char>>, user: Seq<char>) -> Seq<char> {
    match cache_home {
        Some(home) => home + "/nuage/"@,
        None => "/home/"@ + user + "/.cache"@ + "/nuage/"@,
    }
}

/// The place of a file in a directory.
pub open spec fn path_text(directory: Seq<char>, file_name: Seq<char>) -> Seq<char> {
    directory + "/"@ + file_name
}

/// The key of the tile of a calendar date and time of day at the fixed zoom
/// level and region.
pub open spec fn key_of_fields(fields: CalendarFields) -> TileKey {
    TileKey {
        year: fields.year,
        month: fields.month,
        day: fields.day,
        hour: fields.hour,
        minute: fields.minute,
        zoom: ZOOM,
        x1: TILE_X1,
        y1: TILE_Y1,
        x2: TILE_X2,
        y2: TILE_Y2,
    }
}

/// The key of the tile of a snapshot time at the fixed zoom level and region.
pub open spec fn key_of_slot(epoch_seconds: int) -> TileKey {
    key_of_fields(utc_fields(epoch_seconds))
}

/// Two keys with valid time fields and the same stamp have the same time
/// fields.
pub proof fn lemma_stamp_unique(a: TileKey, b: TileKey)
    requires
        a.wf(),
        b.wf(),
        stamp_text(a) == stamp_text(b),
    ensures
        a.year == b.year,
        a.month == b.month,
        a.day == b.day,
        a.hour == b.hour,
        a.minute == b.minute,
{
    lemma_two_wide(a.month as nat, b.month as nat);
    lemma_two_wide(a.day as nat, b.day as nat);
    lemma_two_wide(a.hour as nat, b.hour as nat);
    lemma_two_wide(a.minute as nat, b.minute as nat);
    lemma_two_wide(b.month as nat, a.month as nat);
    lemma_two_wide(b.day as nat, a.day as nat);
    lemma_two_wide(b.hour as nat, a.hour as nat);
    lemma_two_wide(b.minute as nat, a.minute as nat);
    let year_a = signed_decimal(a.year as int);
    let year_b = signed_decimal(b.year as int);
    let text_a = stamp_text(a);
    let text_b = stamp_text(b);
    assert(text_a.len() == year_a.len() + 8);
    assert(text_b.len() == year_b.len() + 8);
    let n = year_a.len() as int;
    assert(year_a =~= text_a.subrange(0, n));
    assert(year_b =~= text_b.subrange(0, n));
    assert(decimal_two_wide(a.month as nat) =~= text_a.subrange(n, n + 2));
    assert(decimal_two_wide(b.month as nat) =~= text_b.subrange(n, n + 2));
    assert(decimal_two_wide(a.day as nat) =~= text_a.subrange(n + 2, n + 4));
    assert(decimal_two_wide(b.day as nat) =~= text_b.subrange(n + 2, n + 4));
    assert(decimal_two_wide(a.hour as nat) =~= text_a.subrange(n + 4, n + 6));
    assert(decimal_two_wide(b.hour as nat) =~= text_b.subrange(n + 4, n + 6));
    assert(decimal_two_wide(a.minute as nat) =~= text_a.subrange(n + 6, n + 8));
    assert(decimal_two_wide(b.minute as nat) =~= text_b.subrange(n + 6, n + 8));
    lemma_signed_decimal_unique(a.year as int, b.year as int);
}

/// A key identifies its file: two keys with valid time fields and the same
/// file name are the same key.
pub proof fn lemma_file_name_unique(a: TileKey, b: TileKey)
    requires
        a.wf(),
        b.wf(),
        file_name_text(a) == file_name_text(b),
    ensures
        a == b,
{
    reveal_strlit("_");
    reveal_strlit(".jpg");
    lemma_digit_chars(0, 0);
    let under = '_';
    let a0 = stamp_text(a);
    let a1 = a0.push(under) + decimal(a.zoom as nat);
    let a2 = a1.push(under) + decimal(a.x1 as nat);
    let a3 = a2.push(under) + decimal(a.y1 as nat);
    let a4 = a3.push(under) + decimal(a.x2 as nat);
    let a5 = a4.push(under) + decimal(a.y2 as nat);
    let b0 = stamp_text(b);
    let b1 = b0.push(under) + decimal(b.zoom as nat);
    let b2 = b1.push(under) + decimal(b.x1 as nat);
    let b3 = b2.push(under) + decimal(b.y1 as nat);
    let b4 = b3.push(under) + decimal(b.x2 as nat);
    let b5 = b4.push(under) + decimal(b.y2 as nat);
    assert("_"@ =~= seq![under]);
    assert(a0 + "_"@ =~= a0.push(under));
    assert(a1 + "_"@ =~= a1.push(under));
    assert(a2 + "_"@ =~= a2.push(under));
    assert(a3 + "_"@ =~= a3.push(under));
    assert(a4 + "_"@ =~= a4.push(under));
    assert(b0 + "_"@ =~= b0.push(under));
    assert(b1 + "_"@ =~= b1.push(under));
    assert(b2 + "_"@ =~= b2.push(under));
    assert(b3 + "_"@ =~= b3.push(under));
    assert(b4 + "_"@ =~= b4.push(under));
    assert(file_name_text(a) == a5 + ".jpg"@);
    assert(file_name_text(b) == b5 + ".jpg"@);
    assert(a5 =~= file_name_text(a).subrange(0, file_name_text(a).len() - 4));
    assert(b5 =~= file_name_text(b).subrange(0, file_name_text(b).len() - 4));
    lemma_split_at_separator(a4, a.y2 as nat, b4, b.y2 as nat, under);
    lemma_split_at_separator(a3, a.x2 as nat, b3, b.x2 as nat, under);
    lemma_split_at_separator(a2, a.y1 as nat, b2, b.y1 as nat, under);
    lemma_split_at_separator(a1, a.x1 as nat, b1, b.x1 as nat, under);
    lemma_split_at_separator(a0, a.zoom as nat, b0, b.zoom as nat, under);
    lemma_stamp_unique(a, b);
}

/// Within one cache directory a key identifies the place of its file: two
/// keys with valid time fields and the same place are the same key.
pub proof fn lemma_cache_path_unique(directory: Seq<char>, a: TileKey, b: TileKey)
    requires
        a.wf(),
        b.wf(),
        path_text(directory, file_name_text(a)) == path_text(directory, file_name_text(b)),
    ensures
        a == b,
{
    let head = directory + "/"@;
    let path_a = path_text(directory, file_name_text(a));
    let path_b = path_text(directory, file_name_text(b));
    assert(file_name_text(a) =~= path_a.subrange(head.len() as int, path_a.len() as int));
    assert(file_name_text(b) =~= path_b.subrange(head.len() as int, path_b.len() as int));
    lemma_file_name_unique(a, b);
}

impl TileKey {
    /// The time fields lie in the ranges of a calendar date and a time of
    /// day.
    pub open spec fn wf(&self) -> bool {
        &&& 1 <= self.month <= 12
        &&& 1 <= self.day <= 31
        &&& self.hour < 24
        &&& self.minute < 60
    }

    /// The key of the tile of a calendar date and time of day at the fixed
    /// zoom level and region.
    pub fn from_calendar(fields: CalendarFields) -> (key: TileKey)
        ensures
            key == key_of_fields(fields),
            fields.wf() ==> key.wf(),
    {
        TileKey {
            year: fields.year,
            month: fields.month,
            day: fields.day,
            hour: fields.hour,
            minute: fields.minute,
            zoom: ZOOM,
            x1: TILE_X1,
            y1: TILE_Y1,
            x2: TILE_X2,
            y2: TILE_Y2,
        }
    }

    /// The key of the tile of `slot` at the fixed zoom level and region.
    pub fn for_slot(slot: &TimeSlot) -> (key: TileKey)
        requires
            slot.wf(),
        ensures
            key == key_of_slot(slot@),
            key.wf(),
            key.minute % 5 == 0,
    {
        TileKey::from_calendar(slot.calendar())
    }

    fn push_stamp(&self, out: &mut String)
        ensures
            final(out)@ == old(out)@ + stamp_text(*self),
    {
        push_signed_decimal(out, self.year);
        push_decimal_two_wide(out, self.month as u64);
        push_decimal_two_wide(out, self.day as u64);
        push_decimal_two_wide(out, self.hour as u64);
        push_decimal_two_wide(out, self.minute as u64);
    }

    /// The name of the file that caches the tile.
    pub fn file_name(&self) -> (name: String)
        ensures
            name@ == file_name_text(*self),
    {
        let mut out = String::new();
        self.push_stamp(&mut out);
        out.append("_");
        push_decimal(&mut out, self.zoom as u64);
        out.append("_");
        push_decimal(&mut out, self.x1 as u64);
        out.append("_");
        push_decimal(&mut out, self.y1 as u64);
        out.append("_");
        push_decimal(&mut out, self.x2 as u64);
        out.append("_");
        push_decimal(&mut out, self.y2 as u64);
        out.append(".jpg");
        out
    }

    /// The address from which the tile is fetched.
    pub fn url(&self) -> (address: String)
        ensures
            address@ == url_text(*self),
    {
        let mut out = String::from_str(
            "https://imn-rust-lb.infoplaza.io/v4/nowcast/tiles/satellite-europe/",
        );
        self.push_stamp(&mut out);
        out.append("/");
        push_decimal(&mut out, self.zoom as u64);
        out.append("/");
        push_decimal(&mut out, self.x1 as u64);
        out.append("/");
        push_decimal(&mut out, self.y1 as u64);
        out.append("/");
        push_decimal(&mut out, self.x2 as u64);
        out.append("/");
        push_decimal(&mut out, self.y2 as u64);
        out.append("?outputtype=jpeg");
        out
    }
}

/// The directory that holds the cached tiles, given the cache directory that
/// the environment names, if it names one, and the name of the user.
pub fn cache_directory(cache_home: Option<&str>, user: &str) -> (directory: String)
    ensures
        directory@ == cache_directory_text(
            match cache_home {
                Some(home) => Some(home@),
                None => None,
            },
            user@,
        ),
{
    let mut out = match cache_home {
        Some(home) => String::from_str(home),
        None => {
            let mut fallback = String::from_str("/home/");
            fallback.append(user);
            fallback.append("/.cache");
            fallback
        },
    };
    out.append("/nuage/");
    out
}

/// The place of the file that caches the tile of `key` in `directory`.
pub fn cache_path(directory: &str, key: &TileKey) -> (path: String)
    ensures
        path@ == path_text(directory@, file_name_text(*key)),
{
    let mut out = String::from_str(directory);
    out.append("/");
    let name = key.file_name();
    out.append(name.as_str());
    out
}

} // verus!
