use vstd::prelude::*;

use crate::text::chars_of;
use crate::text::equals_str;
use crate::text::trim_chars;
use crate::text::trim_spec;

verus! {

// The taskbar appearance is computed here and applied elsewhere: a mode
// word and a `#RRGGBB` color become an accent state and a packed ABGR
// color for the compositor call, or an accent name and `#RRGGBBAA`
// color for a TranslucentTB settings file.

pub const ACCENT_DISABLED: i32 = 0;

pub const ACCENT_ENABLE_GRADIENT: i32 = 1;

pub const ACCENT_ENABLE_TRANSPARENTGRADIENT: i32 = 2;

pub const ACCENT_ENABLE_BLURBEHIND: i32 = 3;

pub const ACCENT_ENABLE_ACRYLICBLURBEHIND: i32 = 4;

pub const ACCENT_ENABLE_HOSTBACKDROP: i32 = 5;

/// The value of one hex digit, or -1 for any other character.
pub open spec fn hex_val(c: char) -> int {
    if '0' <= c && c <= '9' {
        c as int - '0' as int
    } else if 'a' <= c && c <= 'f' {
        10 + (c as int - 'a' as int)
    } else if 'A' <= c && c <= 'F' {
        10 + (c as int - 'A' as int)
    } else {
        -1
    }
}

/// The channel value of one doubled hex digit (`f` stands for `ff`);
/// a non-digit yields 0.
pub open spec fn single_digit_channel(c: char) -> u8 {
    if hex_val(c) >= 0 {
        (17 * hex_val(c)) as u8
    } else {
        0
    }
}

/// The channel value of a two-digit hex pair; any non-digit yields 0.
pub open spec fn pair_channel(a: char, b: char) -> u8 {
    if hex_val(a) >= 0 && hex_val(b) >= 0 {
        (16 * hex_val(a) + hex_val(b)) as u8
    } else {
        0
    }
}

/// `s` with every leading `#` removed.
pub open spec fn strip_hashes(s: Seq<char>) -> Seq<char>
    decreases s.len(),
{
    if s.len() > 0 && s[0] == '#' {
        strip_hashes(s.drop_first())
    } else {
        s
    }
}

/// The red, green and blue channels a color string denotes: a trimmed
/// `#RGB` form doubles each digit, a `#RRGGBB` (or longer) form reads
/// three pairs, and anything else is black.
pub open spec fn color_channels(raw: Seq<char>) -> (u8, u8, u8) {
    let h = strip_hashes(trim_spec(raw));
    if h.len() == 3 {
        (single_digit_channel(h[0]), single_digit_channel(h[1]), single_digit_channel(h[2]))
    } else if h.len() >= 6 {
        (pair_channel(h[0], h[1]), pair_channel(h[2], h[3]), pair_channel(h[4], h[5]))
    } else {
        (0, 0, 0)
    }
}

fn hex_digit(c: char) -> (v: i32)
    ensures
        v == hex_val(c),
{
    if c >= '0' && c <= '9' {
        (c as u32 as i32) - ('0' as u32 as i32)
    } else if c >= 'a' && c <= 'f' {
        10 + ((c as u32 as i32) - ('a' as u32 as i32))
    } else if c >= 'A' && c <= 'F' {
        10 + ((c as u32 as i32) - ('A' as u32 as i32))
    } else {
        -1
    }
}

proof fn lemma_strip_hashes_skip(s: Seq<char>, k: int)
    requires
        0 <= k <= s.len(),
        forall|j: int| 0 <= j < k ==> s[j] == '#',
    ensures
        strip_hashes(s) == strip_hashes(s.subrange(k, s.len() as int)),
    decreases k,
{
    if k > 0 {
        let rest = s.drop_first();
        assert(rest =~= s.subrange(1, s.len() as int));
        lemma_strip_hashes_skip(rest, k - 1);
        assert(rest.subrange(k - 1, rest.len() as int) =~= s.subrange(k, s.len() as int));
    } else {
        assert(s.subrange(0, s.len() as int) =~= s);
    }
}

/// Reads the red, green and blue channels from a color string.
pub fn parse_hex_color(color: &str) -> (rgb: (u8, u8, u8))
    ensures
        rgb == color_channels(color@),
{
    let raw = chars_of(color);
    let t = trim_chars(&raw);
    let n = t.len();
    let mut lo: usize = 0;
    while lo < n && t[lo] == '#'
        invariant
            lo <= n,
            n == t@.len(),
            t@ == trim_spec(color@),
            forall|j: int| 0 <= j < lo ==> t@[j] == '#',
        decreases n - lo,
    {
        lo = lo + 1;
    }
    proof {
        lemma_strip_hashes_skip(t@, lo as int);
    }
    let mut h: Vec<char> = Vec::new();
    let mut i: usize = lo;
    while i < n
        invariant
            lo <= i <= n,
            n == t@.len(),
            h@ == t@.subrange(lo as int, i as int),
        decreases n - i,
    {
        h.push(t[i]);
        proof {
            assert(t@.subrange(lo as int, i as int + 1) =~= t@.subrange(lo as int, i as int).push(
                t@[i as int],
            ));
        }
        i = i + 1;
    }
    if h.len() == 3 {
        let r = single_channel(h[0]);
        let g = single_channel(h[1]);
        let b = single_channel(h[2]);
        (r, g, b)
    } else if h.len() >= 6 {
        let r = pair_channel_exec(h[0], h[1]);
        let g = pair_channel_exec(h[2], h[3]);
        let b = pair_channel_exec(h[4], h[5]);
        (r, g, b)
    } else {
        (0, 0, 0)
    }
}

fn single_channel(c: char) -> (v: u8)
    ensures
        v == single_digit_channel(c),
{
    let d = hex_digit(c);
    if d >= 0 {
        (17 * d) as u8
    } else {
        0
    }
}

fn pair_channel_exec(a: char, b: char) -> (v: u8)
    ensures
        v == pair_channel(a, b),
{
    let da = hex_digit(a);
    let db = hex_digit(b);
    if da >= 0 && db >= 0 {
        (16 * da + db) as u8
    } else {
        0
    }
}

/// The alpha channel an opacity percentage denotes: rounded to the
/// nearest of 255 parts and capped, or fully opaque when forced.
pub open spec fn alpha_channel(opacity: u8, force_opaque: bool) -> u8 {
    if force_opaque {
        255
    } else if (opacity as int * 255 + 50) / 100 >= 255 {
        255
    } else {
        ((opacity as int * 255 + 50) / 100) as u8
    }
}

/// Packs a color string and an opacity percentage into the ABGR word
/// the composition attribute call takes.
pub fn to_abgr(color: &str, opacity: u8, force_opaque: bool) -> (v: u32)
    ensures
        ({
            let rgb = color_channels(color@);
            let a = alpha_channel(opacity, force_opaque);
            v == (a as u32) | ((rgb.2 as u32) << 8) | ((rgb.1 as u32) << 16) | ((
            rgb.0 as u32) << 24)
        }),
{
    let (r, g, b) = parse_hex_color(color);
    let a: u8 = if force_opaque {
        255
    } else {
        let scaled = (opacity as u32) * 255 + 50;
        let rounded = scaled / 100;
        if rounded >= 255 {
            255
        } else {
            rounded as u8
        }
    };
    (a as u32) | ((b as u32) << 8) | ((g as u32) << 16) | ((r as u32) << 24)
}

/// The accent state a mode word denotes; `transparent` needs the host
/// backdrop on Windows 11 and the transparent gradient before it.
pub open spec fn accent_state_spec(mode: Seq<char>, windows11: bool) -> i32 {
    if mode == "opaque"@ {
        ACCENT_ENABLE_GRADIENT
    } else if mode == "transparent"@ {
        if windows11 {
            ACCENT_ENABLE_HOSTBACKDROP
        } else {
            ACCENT_ENABLE_TRANSPARENTGRADIENT
        }
    } else if mode == "blur"@ {
        ACCENT_ENABLE_BLURBEHIND
    } else if mode == "acrylic"@ {
        ACCENT_ENABLE_ACRYLICBLURBEHIND
    } else {
        ACCENT_DISABLED
    }
}

/// Resolves a mode word to the accent state the composition call takes.
pub fn resolve_accent_state(mode: &str, windows11: bool) -> (r: i32)
    ensures
        r == accent_state_spec(mode@, windows11),
{
    let v = chars_of(mode);
    if equals_str(&v, "opaque") {
        ACCENT_ENABLE_GRADIENT
    } else if equals_str(&v, "transparent") {
        if windows11 {
            ACCENT_ENABLE_HOSTBACKDROP
        } else {
            ACCENT_ENABLE_TRANSPARENTGRADIENT
        }
    } else if equals_str(&v, "blur") {
        ACCENT_ENABLE_BLURBEHIND
    } else if equals_str(&v, "acrylic") {
        ACCENT_ENABLE_ACRYLICBLURBEHIND
    } else {
        ACCENT_DISABLED
    }
}

/// The opacity actually applied: fully transparent acrylic flickers, so
/// it is nudged to the first visible step.
pub open spec fn effective_opacity(accent: i32, opacity: u8) -> u8 {
    if accent == ACCENT_ENABLE_ACRYLICBLURBEHIND && opacity == 0 {
        1
    } else {
        opacity
    }
}

/// The accent state and packed ABGR color for one appearance request:
/// the pure half of applying a taskbar appearance, ready for the
/// composition call.
pub fn appearance_params(mode: &str, color: &str, opacity: u8, windows11: bool) -> (p: (i32, u32))
    ensures
        ({
            let accent = accent_state_spec(mode@, windows11);
            let eff = effective_opacity(accent, opacity);
            let rgb = color_channels(color@);
            let a = alpha_channel(eff, accent == ACCENT_ENABLE_GRADIENT);
            &&& p.0 == accent
            &&& p.1 == ((a as u32) | ((rgb.2 as u32) << 8) | ((rgb.1 as u32) << 16) | ((
            rgb.0 as u32) << 24))
        }),
{
    let accent = resolve_accent_state(mode, windows11);
    let opacity = if accent == ACCENT_ENABLE_ACRYLICBLURBEHIND && opacity == 0 {
        1
    } else {
        opacity
    };
    let force_opaque = accent == ACCENT_ENABLE_GRADIENT;
    let abgr = to_abgr(color, opacity, force_opaque);
    (accent, abgr)
}

/// The accent name a TranslucentTB settings file takes for a mode word.
pub open spec fn translucenttb_accent_spec(mode: Seq<char>) -> Seq<char> {
    if mode == "opaque"@ {
        "opaque"@
    } else if mode == "transparent"@ {
        "clear"@
    } else if mode == "blur"@ {
        "blur"@
    } else if mode == "acrylic"@ {
        "acrylic"@
    } else {
        "normal"@
    }
}

/// Maps a mode word to the accent name a TranslucentTB settings file
/// takes.
pub fn translucenttb_accent(mode: &str) -> (r: String)
    ensures
        r@ == translucenttb_accent_spec(mode@),
{
    let v = chars_of(mode);
    if equals_str(&v, "opaque") {
        String::from_str("opaque")
    } else if equals_str(&v, "transparent") {
        String::from_str("clear")
    } else if equals_str(&v, "blur") {
        String::from_str("blur")
    } else if equals_str(&v, "acrylic") {
        String::from_str("acrylic")
    } else {
        String::from_str("normal")
    }
}

/// The two uppercase hex digits of one byte.
pub open spec fn byte_hex_upper(b: u8) -> Seq<char> {
    seq!["0123456789ABCDEF"@[b as int / 16], "0123456789ABCDEF"@[b as int % 16]]
}

/// The `#RRGGBBAA` color a TranslucentTB settings file takes.
pub open spec fn rgba_hex_spec(raw: Seq<char>, opacity: u8) -> Seq<char> {
    let rgb = color_channels(raw);
    let a = alpha_channel(opacity, false);
    seq!['#'] + byte_hex_upper(rgb.0) + byte_hex_upper(rgb.1) + byte_hex_upper(rgb.2)
        + byte_hex_upper(a)
}

fn push_byte_hex(out: &mut Vec<char>, b: u8)
    ensures
        final(out)@ == old(out)@ + byte_hex_upper(b),
{
    let digits = chars_of("0123456789ABCDEF");
    proof {
        reveal_strlit("0123456789ABCDEF");
    }
    out.push(digits[(b / 16) as usize]);
    out.push(digits[(b % 16) as usize]);
    proof {
        assert(out@ =~= old(out)@ + byte_hex_upper(b));
    }
}

/// Renders a color string and opacity percentage as the `#RRGGBBAA`
/// text a TranslucentTB settings file takes.
pub fn rgba_hex_string(color: &str, opacity: u8) -> (r: String)
    ensures
        r@ == rgba_hex_spec(color@, opacity),
{
    let (cr, cg, cb) = parse_hex_color(color);
    let a: u8 = {
        let scaled = (opacity as u32) * 255 + 50;
        let rounded = scaled / 100;
        if rounded >= 255 {
            255
        } else {
            rounded as u8
        }
    };
    let mut out: Vec<char> = Vec::new();
    out.push('#');
    push_byte_hex(&mut out, cr);
    push_byte_hex(&mut out, cg);
    push_byte_hex(&mut out, cb);
    push_byte_hex(&mut out, a);
    proof {
        assert(out@ =~= rgba_hex_spec(color@, opacity));
    }
    crate::text::string_from_chars(&out)
}

} // verus!
