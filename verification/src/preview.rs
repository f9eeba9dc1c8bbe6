//! The layout of a theme preview: coloured text spans that show what each
//! block of a configuration would look like, with powerline separators.
//! Colours are the library's own; drawing them is left to the caller.

use vstd::prelude::*;

use crate::config::{segment_type_names, Block, OmpConfig, Segment};
use crate::segments::{find_segment, lookup_segment, segment_catalog_spec};
use crate::shell::{opt_str_view, opt_string_view};
use crate::text::{
    chars_of, concat2, concat3, decimal, lowercase, owned, str_eq, string_of, to_lowercase,
    usize_to_string,
};

verus! {

broadcast use vstd::string::group_string_axioms;

/// A terminal colour.
#[derive(Debug, Clone, Copy, PartialEq, Eq, Structural)]
pub enum Color {
    Rgb(u8, u8, u8),
    Black,
    Red,
    Green,
    Yellow,
    Blue,
    Magenta,
    Cyan,
    White,
    DarkGray,
}

/// A piece of styled text.
#[derive(Debug, Clone)]
pub struct PreviewChunk {
    pub text: String,
    pub fg: Option<Color>,
    pub bg: Option<Color>,
    pub bold: bool,
}

/// A span by value: text, foreground, background, bold.
pub open spec fn span_view(s: PreviewChunk) -> (Seq<char>, Option<Color>, Option<Color>, bool) {
    (s.text@, s.fg, s.bg, s.bold)
}

pub open spec fn line_view(l: Vec<PreviewChunk>) -> Seq<(Seq<char>, Option<Color>, Option<Color>, bool)> {
    l@.map_values(|s: PreviewChunk| span_view(s))
}

pub open spec fn lines_view(ls: Seq<Vec<PreviewChunk>>) -> Seq<Seq<(Seq<char>, Option<Color>, Option<Color>, bool)>> {
    ls.map_values(|l: Vec<PreviewChunk>| line_view(l))
}

// ── Colour parsing ───────────────────────────────────────────────────────────

/// The number of bytes UTF-8 uses for `c`.
pub open spec fn utf8_len(c: char) -> nat {
    let u = c as u32;
    if u < 0x80 {
        1
    } else if u < 0x800 {
        2
    } else if u < 0x10000 {
        3
    } else {
        4
    }
}

/// The UTF-8 length of the first `k` characters.
pub open spec fn prefix_bytes(s: Seq<char>, k: int) -> nat
    decreases k,
{
    if k <= 0 || k > s.len() {
        0
    } else {
        prefix_bytes(s, k - 1) + utf8_len(s[k - 1])
    }
}

/// The character index at byte offset `b`, when `b` is a character boundary.
pub open spec fn char_at_byte(s: Seq<char>, b: nat) -> Option<int> {
    if exists|k: int| 0 <= k <= s.len() && #[trigger] prefix_bytes(s, k) == b {
        Some(choose|k: int| 0 <= k <= s.len() && #[trigger] prefix_bytes(s, k) == b)
    } else {
        None
    }
}

pub open spec fn hex_value(c: char) -> Option<nat> {
    let u = c as u32;
    if 0x30 <= u && u <= 0x39 {
        Some((u - 0x30) as nat)
    } else if 0x61 <= u && u <= 0x66 {
        Some((u - 0x61 + 10) as nat)
    } else if 0x41 <= u && u <= 0x46 {
        Some((u - 0x41 + 10) as nat)
    } else {
        None
    }
}

pub open spec fn all_hex(s: Seq<char>) -> bool {
    forall|i: int| 0 <= i < s.len() ==> (#[trigger] hex_value(s[i])) is Some
}

pub open spec fn hex_number(s: Seq<char>) -> nat
    decreases s.len(),
{
    if s.len() == 0 {
        0
    } else {
        hex_number(s.drop_last()) * 16 + hex_value(s.last()).unwrap()
    }
}

/// `u8::from_str_radix(s, 16)`: an optional `'+'`, then one or more hex
/// digits whose value is at most 255.
pub open spec fn strip_plus(s: Seq<char>) -> Seq<char> {
    if s.len() > 0 && s[0] == '+' {
        s.drop_first()
    } else {
        s
    }
}

pub open spec fn parse_hex_u8(s: Seq<char>) -> Option<u8> {
    let t = strip_plus(s);
    if t.len() > 0 && all_hex(t) && hex_number(t) <= 255 {
        Some(hex_number(t) as u8)
    } else {
        None
    }
}

/// `s` without its leading `'#'` characters.
pub open spec fn trim_hashes(s: Seq<char>) -> Seq<char>
    decreases s.len(),
{
    if s.len() > 0 && s[0] == '#' {
        trim_hashes(s.drop_first())
    } else {
        s
    }
}

/// Parsing a colour either panics (a six-byte string cut inside a
/// character) or gives an optional colour.
pub enum ColorParse {
    Panics,
    Value(Option<Color>),
}

/// What the six-byte form parses to: three two-byte hex pairs.
pub open spec fn parse_six_bytes(t: Seq<char>) -> ColorParse {
    match char_at_byte(t, 2) {
        None => ColorParse::Panics,
        Some(k2) => match parse_hex_u8(t.take(k2)) {
            None => ColorParse::Value(None),
            Some(r) => match char_at_byte(t, 4) {
                None => ColorParse::Panics,
                Some(k4) => match parse_hex_u8(t.subrange(k2, k4)) {
                    None => ColorParse::Value(None),
                    Some(g) => match parse_hex_u8(t.skip(k4)) {
                        None => ColorParse::Value(None),
                        Some(b) => ColorParse::Value(Some(Color::Rgb(r, g, b))),
                    },
                },
            },
        },
    }
}

/// A named colour, by its lower-case name.
pub open spec fn named_color(n: Seq<char>) -> Option<Color> {
    if n == "black"@ {
        Some(Color::Black)
    } else if n == "red"@ {
        Some(Color::Red)
    } else if n == "green"@ {
        Some(Color::Green)
    } else if n == "yellow"@ {
        Some(Color::Yellow)
    } else if n == "blue"@ {
        Some(Color::Blue)
    } else if n == "magenta"@ {
        Some(Color::Magenta)
    } else if n == "cyan"@ {
        Some(Color::Cyan)
    } else if n == "white"@ {
        Some(Color::White)
    } else {
        None
    }
}

/// Each of the eight colour names stands for the colour of that name, and
/// for no other: `red` is red, `green` is green, and so on; any other text
/// names no colour.
pub proof fn law_color_names(n: Seq<char>)
    ensures
        named_color(n) == Some(Color::Black) <==> n == "black"@,
        named_color(n) == Some(Color::Red) <==> n == "red"@,
        named_color(n) == Some(Color::Green) <==> n == "green"@,
        named_color(n) == Some(Color::Yellow) <==> n == "yellow"@,
        named_color(n) == Some(Color::Blue) <==> n == "blue"@,
        named_color(n) == Some(Color::Magenta) <==> n == "magenta"@,
        named_color(n) == Some(Color::Cyan) <==> n == "cyan"@,
        named_color(n) == Some(Color::White) <==> n == "white"@,
        named_color(n) is None <==> !(n == "black"@ || n == "red"@ || n == "green"@ || n
            == "yellow"@ || n == "blue"@ || n == "magenta"@ || n == "cyan"@ || n == "white"@),
{
    reveal_strlit("black");
    reveal_strlit("red");
    reveal_strlit("green");
    reveal_strlit("yellow");
    reveal_strlit("blue");
    reveal_strlit("magenta");
    reveal_strlit("cyan");
    reveal_strlit("white");
    assert("black"@[0] == 'b' && "black"@.len() == 5);
    assert("red"@[0] == 'r');
    assert("green"@[0] == 'g');
    assert("yellow"@[0] == 'y');
    assert("blue"@[0] == 'b' && "blue"@.len() == 4);
    assert("magenta"@[0] == 'm');
    assert("cyan"@[0] == 'c');
    assert("white"@[0] == 'w');
}

/// A colour string that is not six bytes long after its leading `#`s names
/// a colour by its name in any case: whatever lower-cases to `red` gives
/// red, to `green` green, and so on.
pub proof fn law_parse_color_by_name(h: Seq<char>, c: Color, name: Seq<char>)
    requires
        prefix_bytes(trim_hashes(h), trim_hashes(h).len() as int) != 6,
        lowercase(trim_hashes(h)) == name,
        (c == Color::Black && name == "black"@) || (c == Color::Red && name == "red"@) || (c
            == Color::Green && name == "green"@) || (c == Color::Yellow && name == "yellow"@) || (
        c == Color::Blue && name == "blue"@) || (c == Color::Magenta && name == "magenta"@) || (c
            == Color::Cyan && name == "cyan"@) || (c == Color::White && name == "white"@),
    ensures
        parse_color_spec(Some(h)) == ColorParse::Value(Some(c)),
{
    law_color_names(name);
}

/// A colour string: `#RRGGBB` (six bytes after the leading `#`s) or one of
/// eight colour names in any case.
pub open spec fn parse_color_spec(hex: Option<Seq<char>>) -> ColorParse {
    match hex {
        None => ColorParse::Value(None),
        Some(h) => {
            let t = trim_hashes(h);
            if prefix_bytes(t, t.len() as int) == 6 {
                parse_six_bytes(t)
            } else {
                ColorParse::Value(named_color(lowercase(t)))
            }
        },
    }
}

pub open spec fn color_is_defined(hex: Option<Seq<char>>) -> bool {
    !(parse_color_spec(hex) is Panics)
}

pub open spec fn parsed_color(hex: Option<Seq<char>>) -> Option<Color> {
    match parse_color_spec(hex) {
        ColorParse::Value(c) => c,
        ColorParse::Panics => None,
    }
}

pub(crate) fn utf8_len_exec(c: char) -> (n: usize)
    ensures
        n == utf8_len(c),
{
    let u = c as u32;
    if u < 0x80 {
        1
    } else if u < 0x800 {
        2
    } else if u < 0x10000 {
        3
    } else {
        4
    }
}

proof fn lemma_prefix_bytes_mono(s: Seq<char>, j: int, k: int)
    requires
        0 <= j <= k <= s.len(),
    ensures
        prefix_bytes(s, j) + (k - j) <= prefix_bytes(s, k),
    decreases k - j,
{
    if j < k {
        lemma_prefix_bytes_mono(s, j, k - 1);
    }
}

proof fn lemma_prefix_bytes_take(s: Seq<char>, k: int, j: int)
    requires
        0 <= j <= k <= s.len(),
    ensures
        prefix_bytes(s.take(k), j) == prefix_bytes(s, j),
    decreases j,
{
    if j > 0 {
        lemma_prefix_bytes_take(s, k, j - 1);
    }
}

/// Byte offsets determine character indices: `prefix_bytes` is strictly increasing.
proof fn lemma_char_at_byte(s: Seq<char>, b: nat, k: int)
    requires
        0 <= k <= s.len(),
        prefix_bytes(s, k) == b,
    ensures
        char_at_byte(s, b) == Some(k),
{
    assert(exists|j: int| 0 <= j <= s.len() && #[trigger] prefix_bytes(s, j) == b);
    let c = choose|j: int| 0 <= j <= s.len() && #[trigger] prefix_bytes(s, j) == b;
    if c < k {
        lemma_prefix_bytes_mono(s, c, k);
    } else if c > k {
        lemma_prefix_bytes_mono(s, k, c);
    }
}

/// Index of the character that starts at byte `b`, scanning `s`.
fn find_byte(s: &Vec<char>, b: usize) -> (r: Option<usize>)
    requires
        b <= 8,
    ensures
        match r {
            Some(k) => k <= s.len() && prefix_bytes(s@, k as int) == b,
            None => !exists|k: int| 0 <= k <= s.len() && #[trigger] prefix_bytes(s@, k) == b,
        },
{
    let mut k: usize = 0;
    let mut acc: usize = 0;
    while k < s.len() && acc < b
        invariant
            k <= s.len(),
            acc == prefix_bytes(s@, k as int),
            b <= 8,
            forall|j: int| 0 <= j < k ==> #[trigger] prefix_bytes(s@, j) < b,
        decreases s.len() - k,
    {
        acc = acc + utf8_len_exec(s[k]);
        k = k + 1;
    }
    if acc == b {
        Some(k)
    } else {
        proof {
            assert forall|j: int| 0 <= j <= s.len() implies #[trigger] prefix_bytes(s@, j) != b by {
                if j > k {
                    lemma_prefix_bytes_mono(s@, k as int, j);
                }
            }
        }
        None
    }
}

fn hex_value_exec(c: char) -> (r: Option<u32>)
    ensures
        match r {
            Some(v) => hex_value(c) == Some(v as nat),
            None => hex_value(c) is None,
        },
{
    let u = c as u32;
    if 0x30 <= u && u <= 0x39 {
        Some(u - 0x30)
    } else if 0x61 <= u && u <= 0x66 {
        Some(u - 0x61 + 10)
    } else if 0x41 <= u && u <= 0x46 {
        Some(u - 0x41 + 10)
    } else {
        None
    }
}

proof fn lemma_hex_number_grows(s: Seq<char>, i: int)
    requires
        0 <= i <= s.len(),
        all_hex(s),
    ensures
        hex_number(s.take(i)) <= hex_number(s),
    decreases s.len() - i,
{
    if i < s.len() {
        lemma_hex_number_grows(s, i + 1);
        assert(s.take(i + 1).drop_last() =~= s.take(i));
    } else {
        assert(s.take(i) =~= s);
    }
}

/// `u8::from_str_radix(s, 16)` on the characters `s[lo..hi]`.
fn parse_hex_u8_exec(s: &Vec<char>, lo: usize, hi: usize) -> (r: Option<u8>)
    requires
        lo <= hi <= s.len(),
    ensures
        r == parse_hex_u8(s@.subrange(lo as int, hi as int)),
{
    let ghost w = s@.subrange(lo as int, hi as int);
    let start: usize = if lo < hi && s[lo] == '+' {
        lo + 1
    } else {
        lo
    };
    let ghost t = strip_plus(w);
    assert(t =~= s@.subrange(start as int, hi as int));
    if start >= hi {
        return None;
    }
    let mut acc: u32 = 0;
    let mut i: usize = start;
    while i < hi
        invariant
            start <= i <= hi,
            hi <= s.len(),
            lo <= hi,
            w == s@.subrange(lo as int, hi as int),
            t == strip_plus(w),
            t == s@.subrange(start as int, hi as int),
            acc <= 255,
            all_hex(t.take(i - start)),
            acc == hex_number(t.take(i - start)),
        decreases hi - i,
    {
        let c = s[i];
        assert(t[i - start] == c);
        assert(t.take(i - start + 1).drop_last() =~= t.take(i - start));
        match hex_value_exec(c) {
            None => {
                assert(!all_hex(t));
                return None;
            },
            Some(v) => {
                let next = acc * 16 + v;
                assert(hex_number(t.take(i - start + 1)) == next);
                if next > 255 {
                    proof {
                        assert forall|k: int| 0 <= k < i - start + 1 implies (#[trigger] hex_value(
                            t.take(i - start + 1)[k],
                        )) is Some by {
                            if k < i - start {
                                assert(t.take(i - start + 1)[k] == t.take(i - start)[k]);
                            }
                        }
                        if all_hex(t) {
                            lemma_hex_number_grows(t, i - start + 1);
                        }
                    }
                    return None;
                }
                acc = next;
                proof {
                    assert forall|k: int| 0 <= k < i - start + 1 implies (#[trigger] hex_value(
                        t.take(i - start + 1)[k],
                    )) is Some by {
                        if k < i - start {
                            assert(t.take(i - start + 1)[k] == t.take(i - start)[k]);
                        }
                    }
                }
            },
        }
        i = i + 1;
    }
    assert(t.take(hi - start) =~= t);
    Some(acc as u8)
}

fn named_color_exec(t: &Vec<char>) -> (r: Option<Color>)
    ensures
        r == named_color(lowercase(t@)),
{
    let s = string_of(t);
    let low = to_lowercase(s.as_str());
    let l = low.as_str();
    if str_eq(l, "black") {
        Some(Color::Black)
    } else if str_eq(l, "red") {
        Some(Color::Red)
    } else if str_eq(l, "green") {
        Some(Color::Green)
    } else if str_eq(l, "yellow") {
        Some(Color::Yellow)
    } else if str_eq(l, "blue") {
        Some(Color::Blue)
    } else if str_eq(l, "magenta") {
        Some(Color::Magenta)
    } else if str_eq(l, "cyan") {
        Some(Color::Cyan)
    } else if str_eq(l, "white") {
        Some(Color::White)
    } else {
        None
    }
}

fn prefix_bytes_exec(s: &Vec<char>) -> (n: u64)
    ensures
        n == prefix_bytes(s@, s.len() as int) || (n > 6 && prefix_bytes(s@, s.len() as int) > 6),
{
    let mut k: usize = 0;
    let mut acc: u64 = 0;
    while k < s.len()
        invariant
            k <= s.len(),
            acc <= 10,
            acc == prefix_bytes(s@, k as int) || (acc > 6 && prefix_bytes(s@, k as int) > 6),
        decreases s.len() - k,
    {
        if acc <= 6 {
            acc = acc + utf8_len_exec(s[k]) as u64;
        }
        k = k + 1;
    }
    acc
}

/// Whether parsing the colour string would fail outright (see
/// [`parse_color_spec`]); such colours cannot be previewed.
pub fn color_is_defined_exec(hex: Option<&str>) -> (b: bool)
    ensures
        b == color_is_defined(opt_str_view(hex)),
{
    match parse_color_inner(hex) {
        Some(_) => true,
        None => false,
    }
}

fn parse_color_inner(hex: Option<&str>) -> (r: Option<Option<Color>>)
    ensures
        match r {
            Some(c) => parse_color_spec(opt_str_view(hex)) == ColorParse::Value(c),
            None => parse_color_spec(opt_str_view(hex)) is Panics,
        },
{
    match hex {
        None => Some(None),
        Some(h) => {
            let v = chars_of(h);
            let mut start: usize = 0;
            assert(v@.skip(0) =~= v@);
            while start < v.len() && v[start] == '#'
                invariant
                    start <= v.len(),
                    trim_hashes(v@) == trim_hashes(v@.skip(start as int)),
                decreases v.len() - start,
            {
                assert(v@.skip(start as int).drop_first() =~= v@.skip(start + 1));
                start = start + 1;
            }
            let mut t: Vec<char> = Vec::new();
            let mut k: usize = start;
            while k < v.len()
                invariant
                    start <= k <= v.len(),
                    t@ == v@.subrange(start as int, k as int),
                decreases v.len() - k,
            {
                t.push(v[k]);
                k = k + 1;
                assert(t@ =~= v@.subrange(start as int, k as int));
            }
            assert(t@ =~= v@.skip(start as int));
            proof {
                if start < v.len() {
                    assert(v@.skip(start as int)[0] == v@[start as int]);
                }
                assert(trim_hashes(v@.skip(start as int)) == v@.skip(start as int));
            }
            if prefix_bytes_exec(&t) == 6 {
                match find_byte(&t, 2) {
                    None => None,
                    Some(k2) => {
                        proof {
                            lemma_char_at_byte(t@, 2, k2 as int);
                            assert(t@.take(k2 as int) =~= t@.subrange(0, k2 as int));
                        }
                        match parse_hex_u8_exec(&t, 0, k2) {
                            None => Some(None),
                            Some(r) => match find_byte(&t, 4) {
                                None => None,
                                Some(k4) => {
                                    proof {
                                        lemma_char_at_byte(t@, 4, k4 as int);
                                    }
                                    if k4 < k2 {
                                        proof {
                                            lemma_prefix_bytes_mono(t@, k4 as int, k2 as int);
                                        }
                                    }
                                    match parse_hex_u8_exec(&t, k2, k4) {
                                        None => Some(None),
                                        Some(g) => {
                                            assert(t@.skip(k4 as int) =~= t@.subrange(
                                                k4 as int,
                                                t.len() as int,
                                            ));
                                            match parse_hex_u8_exec(&t, k4, t.len()) {
                                                None => Some(None),
                                                Some(b) => Some(Some(Color::Rgb(r, g, b))),
                                            }
                                        },
                                    }
                                },
                            },
                        }
                    },
                }
            } else {
                Some(named_color_exec(&t))
            }
        },
    }
}

/// Parse a colour string like `"#61AFEF"` or `"Cyan"`.
pub fn parse_color(hex: Option<&str>) -> (r: Option<Color>)
    requires
        color_is_defined(opt_str_view(hex)),
    ensures
        r == parsed_color(opt_str_view(hex)),
{
    match parse_color_inner(hex) {
        Some(c) => c,
        None => None,
    }
}

// ── Preview layout ───────────────────────────────────────────────────────────

/// The fallback palette for segments without a usable background.
pub open spec fn palette_spec() -> Seq<Color> {
    seq![
        Color::Rgb(97, 175, 239),
        Color::Rgb(152, 195, 121),
        Color::Rgb(229, 192, 123),
        Color::Rgb(198, 120, 221),
        Color::Rgb(224, 108, 117),
        Color::Rgb(86, 182, 194),
    ]
}

fn palette_color(i: usize) -> (c: Color)
    ensures
        c == palette_spec()[(i % 6) as int],
{
    let k = i % 6;
    if k == 0 {
        Color::Rgb(97, 175, 239)
    } else if k == 1 {
        Color::Rgb(152, 195, 121)
    } else if k == 2 {
        Color::Rgb(229, 192, 123)
    } else if k == 3 {
        Color::Rgb(198, 120, 221)
    } else if k == 4 {
        Color::Rgb(224, 108, 117)
    } else {
        Color::Rgb(86, 182, 194)
    }
}

/// The muted blue-grey used for labels.
pub open spec fn dim_spec() -> Color {
    Color::Rgb(128, 148, 174)
}

/// The background of the `si`-th segment.
pub open spec fn seg_bg(seg: Segment, si: int) -> Color {
    match parsed_color(opt_string_view(seg.background)) {
        Some(c) => c,
        None => palette_spec()[si % 6],
    }
}

pub open spec fn seg_fg(seg: Segment) -> Color {
    match parsed_color(opt_string_view(seg.foreground)) {
        Some(c) => c,
        None => Color::White,
    }
}

/// A segment's text: the catalog's icon and example, or its type name.
pub open spec fn seg_label(seg: Segment) -> Seq<char> {
    match find_segment(segment_catalog_spec(), seg.seg_type@) {
        Some(info) => " "@ + info.icon@ + " "@ + info.example@ + " "@,
        None => " "@ + seg.seg_type@ + " "@,
    }
}

pub open spec fn arrow() -> Seq<char> {
    "\u{e0b0}"@
}

/// The spans of segment `si`: a powerline arrow from the previous segment
/// (for powerline segments after the first), then its label.
pub open spec fn seg_spans(segs: Seq<Segment>, si: int) -> Seq<(Seq<char>, Option<Color>, Option<Color>, bool)> {
    let seg = segs[si];
    let bg = seg_bg(seg, si);
    let label = (seg_label(seg), Some(seg_fg(seg)), Some(bg), false);
    if si > 0 && seg.style@ == "powerline"@ {
        seq![(arrow(), Some(seg_bg(segs[si - 1], si - 1)), Some(bg), false), label]
    } else {
        seq![label]
    }
}

pub open spec fn spans_upto(segs: Seq<Segment>, n: int) -> Seq<(Seq<char>, Option<Color>, Option<Color>, bool)>
    decreases n,
{
    if n <= 0 {
        Seq::empty()
    } else {
        spans_upto(segs, n - 1) + seg_spans(segs, n - 1)
    }
}

/// The spans of a block's prompt line: its segments, a closing arrow into
/// the panel background, and a marker for right-aligned blocks.
pub open spec fn block_spans(b: Block, panel_bg: Color) -> Seq<(Seq<char>, Option<Color>, Option<Color>, bool)> {
    let segs = b.segments@;
    let body = spans_upto(segs, segs.len() as int);
    let closed = if segs.len() > 0 {
        body.push(
            (arrow(), Some(seg_bg(segs.last(), segs.len() - 1)), Some(panel_bg), false),
        )
    } else {
        body
    };
    if b.alignment@ == "right"@ {
        closed.push(("  (right)"@, Some(Color::DarkGray), None, false))
    } else {
        closed
    }
}

/// The lines for block `bi`: an empty line for a newline block; otherwise
/// a heading, the prompt line and an empty line.
pub open spec fn block_lines(b: Block, bi: int, panel_bg: Color) -> Seq<Seq<(Seq<char>, Option<Color>, Option<Color>, bool)>> {
    if b.block_type@ == "newline"@ {
        seq![Seq::empty()]
    } else {
        seq![
            seq![
                (
                    "Block "@ + decimal((bi + 1) as nat) + " ("@ + b.block_type@ + " "@
                        + b.alignment@ + "):"@,
                    Some(dim_spec()),
                    None,
                    false,
                ),
            ],
            block_spans(b, panel_bg),
            Seq::empty(),
        ]
    }
}

pub open spec fn blocks_lines_upto(blocks: Seq<Block>, n: int, panel_bg: Color) -> Seq<Seq<(Seq<char>, Option<Color>, Option<Color>, bool)>>
    decreases n,
{
    if n <= 0 {
        Seq::empty()
    } else {
        blocks_lines_upto(blocks, n - 1, panel_bg) + block_lines(blocks[n - 1], n - 1, panel_bg)
    }
}

/// `ls` joined with `sep` between items.
pub open spec fn join_sep(ls: Seq<Seq<char>>, sep: Seq<char>) -> Seq<char>
    decreases ls.len(),
{
    if ls.len() == 0 {
        Seq::empty()
    } else if ls.len() == 1 {
        ls[0]
    } else {
        join_sep(ls.drop_last(), sep) + sep + ls.last()
    }
}

/// The whole preview of a configuration.
pub open spec fn preview_spec(config: OmpConfig, panel_bg: Color) -> Seq<Seq<(Seq<char>, Option<Color>, Option<Color>, bool)>> {
    let blocks = config.blocks@;
    if blocks.len() == 0 {
        seq![seq![("  (empty config - no blocks)"@, Some(Color::DarkGray), None, false)]]
    } else {
        let body = blocks_lines_upto(blocks, blocks.len() as int, panel_bg);
        let with_transient = match config.transient_prompt {
            Some(tp) => body.push(
                seq![
                    (
                        "Transient: "@ + match tp.template {
                            Some(t) => t@,
                            None => "❯ "@,
                        },
                        Some(dim_spec()),
                        None,
                        false,
                    ),
                ],
            ),
            None => body,
        };
        let types = segment_type_names(blocks);
        if types.len() > 0 {
            with_transient.push(Seq::empty()).push(
                seq![("Segments: "@ + join_sep(types, ", "@), Some(dim_spec()), None, false)],
            )
        } else {
            with_transient
        }
    }
}

/// Every segment colour of the configuration can be parsed.
pub open spec fn preview_is_defined(config: OmpConfig) -> bool {
    forall|bi: int, si: int|
        0 <= bi < config.blocks@.len() && config.blocks@[bi].block_type@ != "newline"@ && 0 <= si
            < config.blocks@[bi].segments@.len() ==> color_is_defined(
            opt_string_view(config.blocks@[bi].segments@[si].background),
        ) && color_is_defined(opt_string_view(config.blocks@[bi].segments@[si].foreground))
}

/// Whether every colour the preview of `config` parses can be parsed (see
/// [`preview_is_defined`]).
pub fn preview_is_defined_exec(config: &OmpConfig) -> (b: bool)
    ensures
        b == preview_is_defined(*config),
{
    let mut bi: usize = 0;
    while bi < config.blocks.len()
        invariant
            bi <= config.blocks.len(),
            forall|b: int, si: int|
                0 <= b < bi && config.blocks@[b].block_type@ != "newline"@ && 0 <= si
                    < config.blocks@[b].segments@.len() ==> color_is_defined(
                    opt_string_view(config.blocks@[b].segments@[si].background),
                ) && color_is_defined(opt_string_view(config.blocks@[b].segments@[si].foreground)),
        decreases config.blocks.len() - bi,
    {
        let blk = &config.blocks[bi];
        if !str_eq(blk.block_type.as_str(), "newline") {
            let mut si: usize = 0;
            while si < blk.segments.len()
                invariant
                    si <= blk.segments.len(),
                    bi < config.blocks.len(),
                    *blk == config.blocks@[bi as int],
                    blk.block_type@ != "newline"@,
                    forall|k: int|
                        0 <= k < si ==> color_is_defined(
                            opt_string_view(#[trigger] blk.segments@[k].background),
                        ) && color_is_defined(opt_string_view(blk.segments@[k].foreground)),
                decreases blk.segments.len() - si,
            {
                let seg = &blk.segments[si];
                let bg = match &seg.background {
                    Some(s) => Some(s.as_str()),
                    None => None,
                };
                let fg = match &seg.foreground {
                    Some(s) => Some(s.as_str()),
                    None => None,
                };
                proof {
                    assert(opt_str_view(bg) == opt_string_view(seg.background));
                    assert(opt_str_view(fg) == opt_string_view(seg.foreground));
                }
                if !color_is_defined_exec(bg) || !color_is_defined_exec(fg) {
                    proof {
                        assert(config.blocks@[bi as int].segments@[si as int] == *seg);
                        assert(config.blocks@[bi as int].block_type@ != "newline"@);
                    }
                    return false;
                }
                si = si + 1;
            }
        }
        bi = bi + 1;
    }
    true
}

fn span(text: String, fg: Option<Color>, bg: Option<Color>) -> (s: PreviewChunk)
    ensures
        span_view(s) == (text@, fg, bg, false),
{
    PreviewChunk { text, fg, bg, bold: false }
}

fn opt_as_str(o: &Option<String>) -> (r: Option<&str>)
    ensures
        opt_str_view(r) == opt_string_view(*o),
{
    match o {
        Some(s) => Some(s.as_str()),
        None => None,
    }
}

fn segment_label(seg: &Segment) -> (r: String)
    ensures
        r@ == seg_label(*seg),
{
    match lookup_segment(seg.seg_type.as_str()) {
        Some(info) => {
            let mut r = concat3(" ", info.icon, " ");
            r.append(info.example);
            r.append(" ");
            r
        },
        None => concat3(" ", seg.seg_type.as_str(), " "),
    }
}

fn segment_bg(seg: &Segment, si: usize) -> (c: Color)
    requires
        color_is_defined(opt_string_view(seg.background)),
    ensures
        c == seg_bg(*seg, si as int),
{
    match parse_color(opt_as_str(&seg.background)) {
        Some(c) => c,
        None => palette_color(si),
    }
}

fn block_line(b: &Block, panel_bg: Color) -> (r: Vec<PreviewChunk>)
    requires
        forall|si: int|
            0 <= si < b.segments@.len() ==> color_is_defined(
                opt_string_view(#[trigger] b.segments@[si].background),
            ) && color_is_defined(opt_string_view(b.segments@[si].foreground)),
    ensures
        line_view(r) == block_spans(*b, panel_bg),
{
    let segs = &b.segments;
    let mut spans: Vec<PreviewChunk> = Vec::new();
    let mut prev_bg = panel_bg;
    let mut si: usize = 0;
    while si < segs.len()
        invariant
            si <= segs.len(),
            *segs == b.segments,
            forall|k: int|
                0 <= k < segs@.len() ==> color_is_defined(
                    opt_string_view(#[trigger] segs@[k].background),
                ) && color_is_defined(opt_string_view(segs@[k].foreground)),
            line_view(spans) == spans_upto(segs@, si as int),
            si > 0 ==> prev_bg == seg_bg(segs@[si - 1], si - 1),
        decreases segs.len() - si,
    {
        let seg = &segs[si];
        let bg = segment_bg(seg, si);
        let fg = match parse_color(opt_as_str(&seg.foreground)) {
            Some(c) => c,
            None => Color::White,
        };
        let ghost before = line_view(spans);
        if si > 0 && str_eq(seg.style.as_str(), "powerline") {
            spans.push(span(owned("\u{e0b0}"), Some(prev_bg), Some(bg)));
        }
        let label = segment_label(seg);
        spans.push(span(label, Some(fg), Some(bg)));
        assert(line_view(spans) =~= before + seg_spans(segs@, si as int));
        prev_bg = bg;
        si = si + 1;
    }
    if segs.len() > 0 {
        spans.push(span(owned("\u{e0b0}"), Some(prev_bg), Some(panel_bg)));
    }
    if str_eq(b.alignment.as_str(), "right") {
        spans.push(span(owned("  (right)"), Some(Color::DarkGray), None));
    }
    assert(line_view(spans) =~= block_spans(*b, panel_bg));
    spans
}

pub(crate) fn join_with_comma(ls: &Vec<String>) -> (r: String)
    ensures
        r@ == join_sep(ls@.map_values(|s: String| s@), ", "@),
{
    let ghost v = ls@.map_values(|s: String| s@);
    let mut r = String::new();
    let mut i: usize = 0;
    while i < ls.len()
        invariant
            i <= ls.len(),
            v == ls@.map_values(|s: String| s@),
            r@ == join_sep(v.take(i as int), ", "@),
        decreases ls.len() - i,
    {
        proof {
            assert(v.take(i + 1).drop_last() =~= v.take(i as int));
        }
        if i > 0 {
            r.append(", ");
        }
        r.append(ls[i].as_str());
        proof {
            if i == 0 {
                assert(r@ =~= v.take(1)[0]);
            }
        }
        i = i + 1;
    }
    assert(v.take(i as int) =~= v);
    r
}

/// Lay out a full preview of a theme configuration as lines of spans;
/// `panel_bg` is the background the prompt ends on.
pub fn render_preview(config: &OmpConfig, panel_bg: Color) -> (r: Vec<Vec<PreviewChunk>>)
    requires
        preview_is_defined(*config),
    ensures
        lines_view(r@) == preview_spec(*config, panel_bg),
{
    let mut lines: Vec<Vec<PreviewChunk>> = Vec::new();
    let blocks = &config.blocks;
    if blocks.len() == 0 {
        lines.push(vec![span(owned("  (empty config - no blocks)"), Some(Color::DarkGray), None)]);
        assert(lines_view(lines@) =~~= preview_spec(*config, panel_bg));
        return lines;
    }
    let mut bi: usize = 0;
    while bi < blocks.len()
        invariant
            bi <= blocks.len(),
            *blocks == config.blocks,
            preview_is_defined(*config),
            lines_view(lines@) == blocks_lines_upto(blocks@, bi as int, panel_bg),
        decreases blocks.len() - bi,
    {
        let b = &blocks[bi];
        let ghost before = lines_view(lines@);
        if str_eq(b.block_type.as_str(), "newline") {
            lines.push(Vec::new());
        } else {
            assert forall|si: int| 0 <= si < b.segments@.len() implies color_is_defined(
                opt_string_view(#[trigger] b.segments@[si].background),
            ) && color_is_defined(opt_string_view(b.segments@[si].foreground)) by {
                assert(b.segments@[si] == config.blocks@[bi as int].segments@[si]);
            }
            let spans = block_line(b, panel_bg);
            let n = usize_to_string(bi + 1);
            let mut heading = concat3("Block ", n.as_str(), " (");
            heading.append(b.block_type.as_str());
            heading.append(" ");
            heading.append(b.alignment.as_str());
            heading.append("):");
            lines.push(vec![span(heading, Some(Color::Rgb(128, 148, 174)), None)]);
            lines.push(spans);
            lines.push(Vec::new());
        }
        proof {
            assert(lines_view(lines@) =~~= before + block_lines(blocks@[bi as int], bi as int, panel_bg));
        }
        bi = bi + 1;
    }
    let ghost body = lines_view(lines@);
    assert(body == blocks_lines_upto(blocks@, blocks@.len() as int, panel_bg));
    match &config.transient_prompt {
        Some(tp) => {
            let t = match &tp.template {
                Some(t) => concat2("Transient: ", t.as_str()),
                None => concat2("Transient: ", "❯ "),
            };
            let ghost before = lines_view(lines@);
            lines.push(vec![span(t, Some(Color::Rgb(128, 148, 174)), None)]);
            assert(lines_view(lines@) =~~= before.push(lines_view(lines@).last()));
        },
        None => {},
    }
    let types = config.segment_types();
    if types.len() > 0 {
        let joined = join_with_comma(&types);
        let ghost before = lines_view(lines@);
        lines.push(Vec::new());
        lines.push(vec![span(concat2("Segments: ", joined.as_str()), Some(Color::Rgb(128, 148, 174)), None)]);
        assert(lines_view(lines@) =~~= before.push(Seq::empty()).push(lines_view(lines@).last()));
    }
    assert(types@.map_values(|s: String| s@).len() == types.len());
    assert(lines_view(lines@) =~~= preview_spec(*config, panel_bg));
    lines
}

/// The placeholder lines: the theme's name (bold), its description, and a
/// hint that installing Oh My Posh gives a live preview.
pub open spec fn placeholder_spec(name: Seq<char>, description: Seq<char>) -> Seq<Seq<(Seq<char>, Option<Color>, Option<Color>, bool)>> {
    seq![
        Seq::empty(),
        seq![("  "@ + name, Some(Color::White), None, true)],
        Seq::empty(),
        seq![("  "@ + description, Some(Color::Rgb(160, 160, 160)), None, false)],
        Seq::empty(),
        seq![("  Install Oh My Posh to see a live preview"@, Some(Color::DarkGray), None, false)],
    ]
}

/// The preview shown while a theme's file is not available.
pub fn render_placeholder(name: &str, description: &str) -> (r: Vec<Vec<PreviewChunk>>)
    ensures
        lines_view(r@) == placeholder_spec(name@, description@),
{
    let r = vec![
        Vec::new(),
        vec![PreviewChunk { text: concat2("  ", name), fg: Some(Color::White), bg: None, bold: true }],
        Vec::new(),
        vec![span(concat2("  ", description), Some(Color::Rgb(160, 160, 160)), None)],
        Vec::new(),
        vec![span(owned("  Install Oh My Posh to see a live preview"), Some(Color::DarkGray), None)],
    ];
    assert(lines_view(r@) =~~= placeholder_spec(name@, description@));
    r
}

} // verus!
