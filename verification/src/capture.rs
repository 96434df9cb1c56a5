//! Recording a region of the screen: reading the region that the user
//! selected and preparing the arguments of the recorder.
//!
//! The selection tool prints the origin of the region, a space, and its size
//! as width, `x`, height. The encoder takes even sizes only, so width and
//! height are rounded down to the next even number.

use vstd::prelude::*;
use vstd::string::*;
use crate::decimal::{decimal, decimal_text, number_of, parse_number};

verus! {

/// A selected region of the screen.
#[derive(Clone, Debug)]
pub struct Region {
    /// The display and the offset of the region, as the recorder takes it.
    pub origin: String,
    pub width: u32,
    pub height: u32,
}

/// A region as contracts speak of it.
pub struct RegionView {
    pub origin: Seq<char>,
    pub width: nat,
    pub height: nat,
}

impl View for Region {
    type V = RegionView;

    open spec fn view(&self) -> RegionView {
        RegionView {
            origin: self.origin@,
            width: self.width as nat,
            height: self.height as nat,
        }
    }
}

/// Where a character first occurs in a text; the length of the text where
/// it does not occur.
pub open spec fn first_index(text: Seq<char>, c: char) -> int
    decreases text.len(),
{
    if text.len() == 0 {
        0
    } else if text[0] == c {
        0
    } else {
        1 + first_index(text.drop_first(), c)
    }
}

/// The largest even number that is at most `n`.
pub open spec fn even_floor(n: nat) -> nat {
    (n - n % 2) as nat
}

/// The size of a region as text: the second piece of the text when it is
/// cut at spaces.
pub open spec fn size_piece(text: Seq<char>) -> Seq<char> {
    let rest = text.subrange(first_index(text, ' ') + 1, text.len() as int);
    rest.subrange(0, first_index(rest, ' '))
}

/// The region that the output of the selection tool describes; nothing where
/// the output has no second piece, the piece has no `x`, or what stands on
/// either side of the first `x` is no number that 32 bits hold.
pub open spec fn spec_region(text: Seq<char>) -> Option<RegionView> {
    let space = first_index(text, ' ');
    if space >= text.len() {
        None
    } else {
        let size = size_piece(text);
        let x = first_index(size, 'x');
        if x >= size.len() {
            None
        } else {
            match (
                number_of(size.subrange(0, x), u32::MAX as nat),
                number_of(size.subrange(x + 1, size.len() as int), u32::MAX as nat),
            ) {
                (Some(width), Some(height)) => Some(
                    RegionView { origin: text.subrange(0, space), width, height },
                ),
                _ => None,
            }
        }
    }
}

/// The size that is recorded, as the recorder takes it: even width, `x`,
/// even height.
pub open spec fn spec_size_text(region: RegionView) -> Seq<char> {
    decimal(even_floor(region.width)) + "x"@ + decimal(even_floor(region.height))
}

/// The arguments of the recorder for a region, a duration in seconds and
/// the file that the recording goes to.
pub open spec fn spec_recording_args(region: RegionView, seconds: u64, path: Seq<char>) -> Seq<
    Seq<char>,
> {
    seq![
        "-f"@,
        "x11grab"@,
        "-s"@,
        spec_size_text(region),
        "-i"@,
        region.origin,
        "-f"@,
        "alsa"@,
        "-i"@,
        "pulse"@,
        "-t"@,
        decimal(seconds as nat),
        "-pix_fmt"@,
        "yuv420p"@,
        "-y"@,
        "-framerate"@,
        "24"@,
        "-probesize"@,
        "64MB"@,
        path,
    ]
}

/// The texts of a list of strings, in order.
pub open spec fn texts(strings: Seq<String>) -> Seq<Seq<char>> {
    Seq::new(strings.len(), |i: int| strings[i]@)
}

proof fn lemma_first_index(text: Seq<char>, c: char, at: int)
    requires
        0 <= at <= text.len(),
        forall|j: int| 0 <= j < at ==> text[j] != c,
        at < text.len() ==> text[at] == c,
    ensures
        first_index(text, c) == at,
    decreases at,
{
    if at > 0 {
        let rest = text.drop_first();
        assert forall|j: int| 0 <= j < at - 1 implies rest[j] != c by {
            assert(rest[j] == text[j + 1]);
        }
        lemma_first_index(rest, c, at - 1);
    }
}

fn find_first(text: &str, c: char) -> (res: usize)
    ensures
        res == first_index(text@, c),
        res <= text@.len(),
{
    let len = text.unicode_len();
    let mut i: usize = 0;
    while i < len
        invariant
            i <= len,
            len == text@.len(),
            forall|j: int| 0 <= j < i ==> text@[j] != c,
        decreases len - i,
    {
        if text.get_char(i) == c {
            proof {
                lemma_first_index(text@, c, i as int);
            }
            return i;
        }
        i += 1;
    }
    proof {
        lemma_first_index(text@, c, i as int);
    }
    i
}

/// Rounds down to an even number.
pub fn even(n: u32) -> (res: u32)
    ensures
        res == even_floor(n as nat),
{
    (n / 2) * 2
}

fn parse_side(text: &str) -> (res: Option<u32>)
    ensures
        match res {
            Some(n) => number_of(text@, u32::MAX as nat) == Some(n as nat),
            None => number_of(text@, u32::MAX as nat) is None,
        },
{
    match parse_number(text, 0xffff_ffff) {
        Some(n) => Some(n as u32),
        None => None,
    }
}

/// Reads the region from the output of the selection tool.
pub fn parse_region(text: &str) -> (res: Option<Region>)
    ensures
        match res {
            Some(region) => spec_region(text@) == Some(region@),
            None => spec_region(text@) is None,
        },
{
    let len = text.unicode_len();
    let space = find_first(text, ' ');
    if space >= len {
        return None;
    }
    let rest = text.substring_char(space + 1, len);
    let size = rest.substring_char(0, find_first(rest, ' '));
    assert(size@ == size_piece(text@));
    let x = find_first(size, 'x');
    let size_len = size.unicode_len();
    if x >= size_len {
        return None;
    }
    let width = parse_side(size.substring_char(0, x));
    let height = parse_side(size.substring_char(x + 1, size_len));
    match (width, height) {
        (Some(width), Some(height)) => Some(
            Region { origin: String::from_str(text.substring_char(0, space)), width, height },
        ),
        _ => None,
    }
}

impl Region {
    /// The size that is recorded, as text.
    pub fn size_text(&self) -> (res: String)
        ensures
            res@ == spec_size_text(self@),
    {
        let width = decimal_text(even(self.width) as u64);
        let height = decimal_text(even(self.height) as u64);
        width.concat("x").concat(height.as_str())
    }

    /// The arguments of the recorder for this region.
    pub fn recording_args(&self, seconds: u64, path: &str) -> (res: Vec<String>)
        ensures
            texts(res@) == spec_recording_args(self@, seconds, path@),
    {
        let res = vec![
            String::from_str("-f"),
            String::from_str("x11grab"),
            String::from_str("-s"),
            self.size_text(),
            String::from_str("-i"),
            self.origin.clone(),
            String::from_str("-f"),
            String::from_str("alsa"),
            String::from_str("-i"),
            String::from_str("pulse"),
            String::from_str("-t"),
            decimal_text(seconds),
            String::from_str("-pix_fmt"),
            String::from_str("yuv420p"),
            String::from_str("-y"),
            String::from_str("-framerate"),
            String::from_str("24"),
            String::from_str("-probesize"),
            String::from_str("64MB"),
            String::from_str(path),
        ];
        assert(texts(res@) =~= spec_recording_args(self@, seconds, path@));
        res
    }
}

/// The recorded size is even, and it is smaller than the selected size by
/// one at most.
pub proof fn lemma_even_floor(n: nat)
    ensures
        even_floor(n) % 2 == 0,
        even_floor(n) <= n,
        n - even_floor(n) <= 1,
{
}

} // verus!
