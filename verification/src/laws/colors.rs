//! What themes are painted in.
use vstd::prelude::*;

use crate::text::{is_space, trim_end_spec, trim_start_spec, trimmed};
use crate::theme::{
    default_bg_hex, default_fg_hex, grey, neutral, oklch, context_ramp, default_anchors_parse,
    hex_color, hex_of, hex_round_trip, hex_value, lightness, mix, palette, paint_lightness,
    parse_hex, ramp_is_ordered, wash, white_alpha, without_signs, ColorScheme, Paint, Platform, Rgb,
    SchemeMirror, Theme, ThemeConfig, ThemePreference, WindowAppearance,
};

verus! {

/// Whether a character is the hexadecimal digit of a value, of either case.
pub open spec fn is_digit_of(c: char, v: int) -> bool {
    ||| 0 <= v < 10 && c as int == '0' as int + v
    ||| 10 <= v < 16 && c as int == 'a' as int + v - 10
    ||| 10 <= v < 16 && c as int == 'A' as int + v - 10
}

/// Whether a character is no hexadecimal digit.
pub open spec fn is_no_digit(c: char) -> bool {
    forall|v: int| !(#[trigger] is_digit_of(c, v))
}

proof fn plain_text_stays(s: Seq<char>)
    requires
        s.len() > 0,
        !is_space(s[0]),
        !is_space(s[s.len() - 1]),
    ensures
        trimmed(s) == s,
{
    assert(trim_start_spec(s) == s);
    assert(trim_end_spec(s) == s);
}

/// Six hexadecimal digits are a color, two for each of red, green and blue, with
/// or without a number sign before them.
pub proof fn six_digits_are_a_color(text: &str, h: Seq<char>, v: Seq<int>, r: Option<Rgb>)
    requires
        h.len() == 6,
        v.len() == 6,
        forall|i: int| 0 <= i < 6 ==> is_digit_of(#[trigger] h[i], v[i]),
        text@ == h || text@ == seq!['#'] + h,
        call_ensures(parse_hex, (text,), r),
    ensures
        r is Some,
        r->0.r == 16 * v[0] + v[1],
        r->0.g == 16 * v[2] + v[3],
        r->0.b == 16 * v[4] + v[5],
{
    assert forall|i: int| 0 <= i < 6 implies hex_value(#[trigger] h[i]) == Some(v[i]) && h[i] != '#'
        && !is_space(h[i]) by {
        assert(is_digit_of(h[i], v[i]));
    }
    assert(hex_value(h[0]) == Some(v[0]) && hex_value(h[1]) == Some(v[1]));
    assert(hex_value(h[2]) == Some(v[2]) && hex_value(h[3]) == Some(v[3]));
    assert(hex_value(h[4]) == Some(v[4]) && hex_value(h[5]) == Some(v[5]));
    assert(0 <= v[0] < 16 && 0 <= v[1] < 16 && 0 <= v[2] < 16);
    assert(0 <= v[3] < 16 && 0 <= v[4] < 16 && 0 <= v[5] < 16);
    if text@ == h {
        plain_text_stays(h);
        assert(without_signs(h) == h);
    } else {
        let s = seq!['#'] + h;
        assert(s[0] == '#' && s[6] == h[5]);
        plain_text_stays(s);
        assert(s.subrange(1, 7) =~= h);
        assert(without_signs(h) == h);
        assert(without_signs(s) == h);
    }
}

/// A text without white space or number signs at its front is no color unless it
/// is six digits.
pub proof fn other_texts_are_no_color(text: &str, r: Option<Rgb>)
    requires
        call_ensures(parse_hex, (text,), r),
        text@.len() > 0,
        !is_space(text@[0]),
        text@[0] != '#',
        !is_space(text@[text@.len() - 1]),
        text@.len() != 6 || exists|i: int| 0 <= i < 6 && is_no_digit(#[trigger] text@[i]),
    ensures
        r is None,
{
    plain_text_stays(text@);
    assert(without_signs(text@) == text@);
    if text@.len() == 6 {
        let i = choose|i: int| 0 <= i < 6 && is_no_digit(#[trigger] text@[i]);
        if hex_value(text@[i]) is Some {
            assert(is_digit_of(text@[i], hex_value(text@[i])->0));
        }
    }
}

/// A color is shown as a number sign and six digits, and reads back as itself.
pub proof fn a_color_reads_back(c: Rgb, s: String, text: &str, r: Option<Rgb>)
    requires
        call_ensures(hex_of, (c,), s),
        text@ == s@,
        call_ensures(parse_hex, (text,), r),
    ensures
        s@.len() == 7 && s@[0] == '#',
        r == Some(c),
{
    hex_round_trip(c);
}

/// A preference for a scheme is that scheme; the system's preference is the
/// system's.
pub proof fn a_preference_is_followed(
    p: ThemePreference,
    system: ColorScheme,
    s: ColorScheme,
    a: WindowAppearance,
    w: ColorScheme,
)
    requires
        call_ensures(ThemePreference::resolved, (p, system), s),
        call_ensures(ColorScheme::of_appearance, (a,), w),
    ensures
        p is System ==> s == system,
        p is Light ==> s is Light,
        p is Dark ==> s is Dark,
        w is Dark <==> a is Dark || a is VibrantDark,
{
}

/// Whether a paint is the scheme's own background.
pub open spec fn own_background(scheme: ColorScheme, p: Paint) -> bool {
    match scheme {
        ColorScheme::Dark => p == Paint::Solid(Rgb { r: 0x06, g: 0x06, b: 0x06 }),
        ColorScheme::Light => p == Paint::Solid(Rgb { r: 0xfa, g: 0xfa, b: 0xfa }),
    }
}

/// Whether a paint is the scheme's own text.
pub open spec fn own_text(scheme: ColorScheme, p: Paint) -> bool {
    match scheme {
        ColorScheme::Dark => p == Paint::Solid(Rgb { r: 0xe5, g: 0xe5, b: 0xe5 }),
        ColorScheme::Light => p == Paint::Solid(Rgb { r: 0x16, g: 0x16, b: 0x16 }),
    }
}

/// A theme stands between its background and its text: both are as written, or
/// the scheme's own where nothing legible is; surfaces rise from the background,
/// muted texts sink from the text, in this order. Its accents have their hues.
pub proof fn a_theme_stands_between_its_anchors(
    scheme: ColorScheme,
    bg: &str,
    fg: &str,
    contrast: i64,
    platform: Platform,
    t: Theme,
    b: Option<Rgb>,
    f: Option<Rgb>,
)
    requires
        call_ensures(Theme::custom, (scheme, bg, fg, contrast, platform), t),
        call_ensures(parse_hex, (bg,), b),
        call_ensures(parse_hex, (fg,), f),
    ensures
        t.scheme == scheme,
        b matches Some(c) ==> t.bg == Paint::Solid(c),
        f matches Some(c) ==> t.text == Paint::Solid(c),
        b is None ==> own_background(scheme, t.bg),
        f is None ==> own_text(scheme, t.text),
        t.surface is Blend && t.surface_raised is Blend && t.text_muted is Blend
            && t.text_faint is Blend,
        contrast > 0 && paint_lightness(t.bg) < paint_lightness(t.text) ==> paint_lightness(t.bg)
            < paint_lightness(t.surface) < paint_lightness(t.surface_raised) < paint_lightness(
            t.text_faint,
        ) < paint_lightness(t.text_muted) < paint_lightness(t.text),
        contrast > 0 && paint_lightness(t.text) < paint_lightness(t.bg) ==> paint_lightness(t.text)
            < paint_lightness(t.text_muted) < paint_lightness(t.text_faint) < paint_lightness(
            t.surface_raised,
        ) < paint_lightness(t.surface) < paint_lightness(t.bg),
        t.accent is Oklch && 270_000 <= t.accent->h <= 280_000,
        t.accent_strong is Oklch && 270_000 <= t.accent_strong->h <= 280_000,
        t.danger is Oklch && 20_000 <= t.danger->h <= 30_000,
        t.warning is Oklch && 45_000 <= t.warning->h <= 90_000,
        t.border is Tint && t.border_strong is Tint && t.element_hover is Tint
            && t.element_active is Tint,
        contrast > 0 ==> t.border->Tint_alpha < t.border_strong->Tint_alpha && t.element_hover->Tint_alpha
            < t.element_active->Tint_alpha,
        scheme is Dark ==> t.border->lightness > 500 && t.element_hover->lightness > 500,
        scheme is Light ==> t.border->lightness < 500 && t.element_hover->lightness < 500,
        t.font_sans@ == "Geist"@ && t.font_mono@ == "Geist Mono"@,
{
    default_anchors_parse();
    let p = palette(scheme, bg@, fg@, contrast as int, platform);
    assert(t@.bg == t.bg && t@.text == t.text && t@.surface == t.surface);
    assert(t@.surface_raised == t.surface_raised && t@.text_muted == t.text_muted);
    assert(t@.text_faint == t.text_faint && t@.scheme == t.scheme);
    assert(t@.border == t.border && t@.element_hover == t.element_hover);
    assert(t@.accent == t.accent && t@.danger == t.danger && t@.warning == t.warning);
    if contrast > 0 {
        ramp_is_ordered(scheme, bg@, fg@, contrast as int, platform);
    }
}

/// A recipe makes the theme of its colors under its preference, in its fonts.
pub proof fn a_recipe_makes_its_theme(
    c: &ThemeConfig,
    system: ColorScheme,
    platform: Platform,
    t: Theme,
    scheme: ColorScheme,
    bg: &str,
    fg: &str,
    plain: Theme,
    ui: String,
    code: String,
    dressed: Theme,
)
    requires
        call_ensures(ThemeConfig::build, (c, system, platform), t),
        call_ensures(ThemePreference::resolved, (c.preference, system), scheme),
        c.bg_hex matches Some(x) ==> bg@ == x@,
        c.bg_hex is None ==> bg@ == ""@,
        c.fg_hex matches Some(x) ==> fg@ == x@,
        c.fg_hex is None ==> fg@ == ""@,
        call_ensures(Theme::custom, (scheme, bg, fg, c.contrast, platform), plain),
        ui@ == c.ui_font@,
        code@ == c.code_font@,
        call_ensures(Theme::with_fonts, (plain, ui, code), dressed),
    ensures
        t@ == dressed@,
        t.font_sans@ == c.ui_font@ && t.font_mono@ == c.code_font@,
        t.bg == plain.bg && t.text == plain.text && t.scheme == scheme,
{
    assert(t@.bg == t.bg && t@.text == t.text && t@.scheme == t.scheme);
    assert(plain@.bg == plain.bg && plain@.text == plain.text);
    assert(t@.font_sans == t.font_sans@ && t@.font_mono == t.font_mono@);
}

/// The schemes in their own colors.
pub proof fn the_schemes_have_their_colors(platform: Platform, d: Theme, l: Theme)
    requires
        call_ensures(Theme::dark, (platform,), d),
        call_ensures(Theme::light, (platform,), l),
    ensures
        d.scheme is Dark && l.scheme is Light,
        own_background(ColorScheme::Dark, d.bg) && own_text(ColorScheme::Dark, d.text),
        own_background(ColorScheme::Light, l.bg) && own_text(ColorScheme::Light, l.text),
{
    default_anchors_parse();
    reveal_strlit("");
    assert(trimmed(""@) =~= Seq::<char>::empty());
    assert(without_signs(trimmed(""@)).len() == 0);
    assert(hex_color(""@) is None);
    assert(d@.bg == d.bg && d@.text == d.text && d@.scheme == d.scheme);
    assert(l@.bg == l.bg && l@.text == l.text && l@.scheme == l.scheme);
}

/// Surfaces of the terminal, of cards and of inputs: a light theme keeps its
/// background for all three, a dark one has a plane of its own for each.
pub proof fn planes_follow_the_scheme(
    t: &Theme,
    platform: Platform,
    glass: Paint,
    card: Paint,
    input: Paint,
    term: Paint,
    cursor: (Paint, u64),
)
    requires
        call_ensures(Theme::glass, (t, platform), glass),
        call_ensures(Theme::glass_card, (t, platform), card),
        call_ensures(Theme::input_bg, (t,), input),
        call_ensures(Theme::terminal_bg, (t,), term),
        call_ensures(Theme::terminal_cursor, (t,), cursor),
    ensures
        t.scheme is Light ==> card == t.bg && input == t.bg && term == t.bg && glass == t.surface,
        t.scheme is Dark ==> term == Paint::Solid(Rgb { r: 9, g: 9, b: 9 }) && input is Tint,
        t.scheme is Dark && platform is MacOs ==> glass is Veil && card is Veil,
        t.scheme is Dark && !(platform is MacOs) ==> glass == t.surface && card is Solid,
        cursor.0 == t.text && 0 < cursor.1 < 1_000_000_000,
{
}

/// The mirror shows the installed theme: washes are light in the dark and dark in
/// the light, of the strength asked for.
pub proof fn the_mirror_shows_the_theme(
    m: &mut SchemeMirror,
    t: &Theme,
    now: &SchemeMirror,
    alpha: u64,
    a: Paint,
    b: Paint,
    c: Paint,
)
    requires
        call_ensures(Theme::install, (m, t), ()),
        *now == *final(m),
        call_ensures(wash, (now, alpha), a),
        call_ensures(white_alpha, (now, alpha), b),
        call_ensures(Theme::wash, (t, alpha), c),
    ensures
        final(m).scheme == t.scheme && final(m).text == t.text,
        a is Tint && a->Tint_alpha == alpha && b is Tint && b->Tint_alpha == alpha,
        a == c,
        t.scheme is Dark ==> a->lightness > 500 && b->lightness == 1000,
        t.scheme is Light ==> a->lightness < 500 && b->lightness == 0,
{
}

/// The gauge goes from red to green: with each cell more its hue rises.
pub proof fn the_gauge_goes_from_red_to_green(a: u8, b: u8, p: Paint, q: Paint)
    requires
        call_ensures(context_ramp, (a,), p),
        call_ensures(context_ramp, (b,), q),
    ensures
        p is Oklch && q is Oklch,
        1 <= a < b <= 5 ==> p->h < q->h,
        a == 0 || a > 5 ==> p->h <= 30_000,
{
}

/// A mix begins at the one color and ends at the other, and its lightness lies
/// between theirs, in proportion.
pub proof fn a_mix_lies_between(
    a: Rgb,
    b: Rgb,
    part: u64,
    p: Paint,
    la: Option<u64>,
    lb: Option<u64>,
    lp: Option<u64>,
)
    requires
        call_ensures(mix, (a, b, part), p),
        call_ensures(lightness, (Paint::Solid(a),), la),
        call_ensures(lightness, (Paint::Solid(b),), lb),
        call_ensures(lightness, (p,), lp),
        part <= 1_000_000_000,
    ensures
        la is Some && lb is Some && lp is Some,
        part == 0 ==> p == Paint::Solid(a),
        part == 1_000_000_000 ==> p == Paint::Solid(b),
        0 < part < 1_000_000_000 ==> p == (Paint::Blend { from: a, to: b, part }),
        lp->0 * 1_000_000_000 == la->0 * (1_000_000_000 - part) + lb->0 * part,
{
    let x = crate::theme::color_lightness(a);
    let y = crate::theme::color_lightness(b);
    let n = part as int;
    assert(0 <= x <= 510 && 0 <= y <= 510);
    assert(paint_lightness(Paint::Solid(a)) == x * 1_000_000_000);
    assert(paint_lightness(Paint::Solid(b)) == y * 1_000_000_000);
    assert(la->0 == x * 1_000_000_000);
    assert(lb->0 == y * 1_000_000_000);
    let z = x * (1_000_000_000 - n) + y * n;
    assert(0 <= z <= 510 * 1_000_000_000) by (nonlinear_arith)
        requires
            z == x * (1_000_000_000 - n) + y * n,
            0 <= x <= 510,
            0 <= y <= 510,
            0 <= n <= 1_000_000_000,
    ;
    assert(n == 0 ==> z == x * 1_000_000_000) by (nonlinear_arith)
        requires
            z == x * (1_000_000_000 - n) + y * n,
    ;
    assert(n == 1_000_000_000 ==> z == y * 1_000_000_000) by (nonlinear_arith)
        requires
            z == x * (1_000_000_000 - n) + y * n,
    ;
    assert(paint_lightness(p) == z);
    assert(lp->0 == z);
    assert(z * 1_000_000_000 == (x * 1_000_000_000) * (1_000_000_000 - n) + (y * 1_000_000_000) * n)
        by (nonlinear_arith)
        requires
            z == x * (1_000_000_000 - n) + y * n,
    ;
}

/// How far the roles stand from their anchor: in proportion to the contrast, and
/// all the way of their full measure at a hundred percent and beyond. On light,
/// hairlines take a third more ink and a bit.
pub proof fn roles_keep_their_measure(
    scheme: ColorScheme,
    bg: &str,
    fg: &str,
    contrast: i64,
    platform: Platform,
    t: Theme,
)
    requires
        call_ensures(Theme::custom, (scheme, bg, fg, contrast, platform), t),
    ensures
        ({
            let s = if contrast < 0 {
                0int
            } else if contrast > 100_000 {
                100_000int
            } else {
                contrast as int
            };
            let ink = if scheme is Dark {
                100int
            } else {
                135int
            };
            &&& t.surface->part == 314 * s
            &&& t.surface_raised->part == 1_076 * s
            &&& t.text_muted->part == 3_049 * s
            &&& t.text_faint->part == 5_112 * s
            &&& t.element_hover->Tint_alpha == 1_400 * s
            &&& t.element_active->Tint_alpha == 1_600 * s
            &&& t.border->Tint_alpha == 8 * s * ink
            &&& t.border_strong->Tint_alpha == 14 * s * ink
            &&& Paint::Solid(t.surface->from) == t.bg && Paint::Solid(t.surface->to) == t.text
            &&& Paint::Solid(t.text_muted->from) == t.text && Paint::Solid(t.text_muted->to) == t.bg
            &&& Paint::Solid(t.text_faint->from) == t.text && Paint::Solid(t.text_faint->to) == t.bg
        }),
{
    assert(t@.surface == t.surface && t@.surface_raised == t.surface_raised);
    assert(t@.text_muted == t.text_muted && t@.text_faint == t.text_faint);
    assert(t@.element_hover == t.element_hover && t@.element_active == t.element_active);
    assert(t@.border == t.border && t@.border_strong == t.border_strong);
    assert(t@.bg == t.bg && t@.text == t.text);
}

/// A color is written in small digits.
pub proof fn colors_are_written_small(c: Rgb, s: String, i: int)
    requires
        call_ensures(hex_of, (c,), s),
        1 <= i < 7,
    ensures
        s@.len() == 7,
        ('0' <= s@[i] <= '9') || ('a' <= s@[i] <= 'f'),
{
}

/// The anchors that are shown are those that were written, or else the scheme's
/// own.
pub proof fn anchors_are_shown(
    c: &ThemeConfig,
    scheme: ColorScheme,
    b: String,
    f: String,
    own_b: &'static str,
    own_f: &'static str,
)
    requires
        call_ensures(ThemeConfig::effective_bg_hex, (c, scheme), b),
        call_ensures(ThemeConfig::effective_fg_hex, (c, scheme), f),
        call_ensures(default_bg_hex, (scheme,), own_b),
        call_ensures(default_fg_hex, (scheme,), own_f),
    ensures
        c.bg_hex matches Some(x) ==> b@ == x@,
        c.bg_hex is None ==> b@ == own_b@,
        c.fg_hex matches Some(x) ==> f@ == x@,
        c.fg_hex is None ==> f@ == own_f@,
        scheme is Dark ==> own_b@ == "#060606"@ && own_f@ == "#e5e5e5"@,
        scheme is Light ==> own_b@ == "#fafafa"@ && own_f@ == "#161616"@,
{
}

/// Paints by number: a grey has three equal parts, a neutral has no chroma, and an
/// oklch color has its three coordinates.
pub proof fn paints_by_number(v: u8, g: Paint, l: u64, n: Paint, c: u64, h: u64, p: Paint)
    requires
        call_ensures(grey, (v,), g),
        call_ensures(neutral, (l,), n),
        call_ensures(oklch, (l, c, h), p),
    ensures
        g == Paint::Solid(Rgb { r: v, g: v, b: v }),
        n is Oklch && n->l == l && n->c == 0,
        p is Oklch && p->l == l && p->c == c && p->h == h,
{
}

}
