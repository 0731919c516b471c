//! Monochrome theme engine: light and dark schemes derived from a background
//! and foreground pair and a contrast percentage.
//!
//! A paint is kept symbolic and exact, in integers: the anchors are 8-bit
//! colors, a derived role is a fixed fraction of the way between them, and
//! accents are oklch coordinates. Turning a paint into floating-point screen
//! components is left to whoever draws.
use vstd::prelude::*;
use vstd::string::*;

use crate::text::{chars_of, code_point, is_space, trim, trimmed};

verus! {

/// One whole, in the unit that fractions and alphas are counted in.
pub const WHOLE: u64 = 1_000_000_000;

/// The contrast that keeps the full tonal spread: 100 percent, counted in
/// thousandths of a percent.
pub const DEFAULT_CONTRAST: i64 = 100_000;

pub const DEFAULT_BG_DARK: &'static str = "#060606";

pub const DEFAULT_FG_DARK: &'static str = "#e5e5e5";

pub const DEFAULT_BG_LIGHT: &'static str = "#fafafa";

pub const DEFAULT_FG_LIGHT: &'static str = "#161616";

/// Layout, in pixels: the header inside a card, the window's title bar and the
/// shift of its content, the status strip, and corner radii and spacing steps.
pub const HEADER_HEIGHT: u32 = 44;

pub const TITLEBAR_HEIGHT: u32 = 38;

pub const TITLEBAR_TOP_PAD: u32 = 2;

pub const STATUS_STRIP_HEIGHT: u32 = 24;

pub const BUBBLE_RADIUS: u32 = 16;

pub const PANEL_RADIUS: u32 = 10;

pub const CONTROL_RADIUS: u32 = 6;

pub const SPACE_XS: u32 = 4;

pub const SPACE_SM: u32 = 8;

pub const SPACE_MD: u32 = 12;

pub const SPACE_LG: u32 = 16;

/// How far the panel surface lifts off the background, in ten-thousandths.
pub const SURFACE_LIFT: u64 = 314;

/// How far a raised surface lifts off the background, in ten-thousandths.
pub const RAISED_LIFT: u64 = 1076;

/// How far muted text sinks toward the background, in ten-thousandths.
pub const MUTED_SINK: u64 = 3049;

/// How far faint text sinks toward the background, in ten-thousandths.
pub const FAINT_SINK: u64 = 5112;

/// The persisted theme preference. `System` follows the appearance of the
/// operating system.
#[derive(Debug, Clone, Copy, PartialEq, Eq, Structural)]
pub enum ThemePreference {
    System,
    Light,
    Dark,
}

/// A concrete scheme: light surfaces with dark text, or the reverse.
#[derive(Debug, Clone, Copy, PartialEq, Eq, Structural)]
pub enum ColorScheme {
    Light,
    Dark,
}

/// The window appearance that the platform reports.
#[derive(Debug, Clone, Copy, PartialEq, Eq, Structural)]
pub enum WindowAppearance {
    Light,
    VibrantLight,
    Dark,
    VibrantDark,
}

/// The platforms that the theme tells apart.
#[derive(Debug, Clone, Copy, PartialEq, Eq, Structural)]
pub enum Platform {
    MacOs,
    Windows,
    Other,
}

/// An 8-bit color.
#[derive(Debug, Clone, Copy, PartialEq, Eq, Structural)]
pub struct Rgb {
    pub r: u8,
    pub g: u8,
    pub b: u8,
}

/// What to paint.
#[derive(Debug, Clone, Copy, PartialEq, Eq, Structural)]
pub enum Paint {
    /// An opaque color.
    Solid(Rgb),
    /// The opaque color that lies `part / WHOLE` of the way from one to the
    /// other, component by component.
    Blend { from: Rgb, to: Rgb, part: u64 },
    /// A grey of the given lightness, in thousandths, at `alpha / WHOLE`.
    Tint { lightness: u64, alpha: u64 },
    /// A color at `alpha / WHOLE`.
    Veil { color: Rgb, alpha: u64 },
    /// An opaque oklch color: lightness and chroma in thousandths, hue in
    /// thousandths of a degree.
    Oklch { l: u64, c: u64, h: u64 },
}

impl Default for ThemePreference {
    fn default() -> (p: Self)
        ensures
            p == ThemePreference::System,
    {
        ThemePreference::System
    }
}

impl Default for ColorScheme {
    fn default() -> (s: Self)
        ensures
            s == ColorScheme::Dark,
    {
        ColorScheme::Dark
    }
}

impl ThemePreference {
    /// The text shown for the preference.
    pub open spec fn label_spec(self) -> Seq<char> {
        match self {
            ThemePreference::System => "System"@,
            ThemePreference::Light => "Light"@,
            ThemePreference::Dark => "Dark"@,
        }
    }

    pub fn label(self) -> (s: &'static str)
        ensures
            s@ == self.label_spec(),
    {
        match self {
            ThemePreference::System => "System",
            ThemePreference::Light => "Light",
            ThemePreference::Dark => "Dark",
        }
    }

    pub open spec fn resolved_spec(self, system: ColorScheme) -> ColorScheme {
        match self {
            ThemePreference::System => system,
            ThemePreference::Light => ColorScheme::Light,
            ThemePreference::Dark => ColorScheme::Dark,
        }
    }

    /// The scheme that the preference stands for under the given appearance of
    /// the operating system.
    pub fn resolved(self, system: ColorScheme) -> (scheme: ColorScheme)
        ensures
            scheme == self.resolved_spec(system),
    {
        match self {
            ThemePreference::System => system,
            ThemePreference::Light => ColorScheme::Light,
            ThemePreference::Dark => ColorScheme::Dark,
        }
    }
}

impl ColorScheme {
    pub fn is_dark(self) -> (r: bool)
        ensures
            r == (self == ColorScheme::Dark),
    {
        match self {
            ColorScheme::Dark => true,
            ColorScheme::Light => false,
        }
    }

    /// The scheme of a window appearance, vibrant or not.
    pub fn of_appearance(appearance: WindowAppearance) -> (scheme: ColorScheme)
        ensures
            (scheme == ColorScheme::Dark) == (appearance == WindowAppearance::Dark || appearance
                == WindowAppearance::VibrantDark),
    {
        match appearance {
            WindowAppearance::Dark | WindowAppearance::VibrantDark => ColorScheme::Dark,
            WindowAppearance::Light | WindowAppearance::VibrantLight => ColorScheme::Light,
        }
    }
}

pub open spec fn default_bg(scheme: ColorScheme) -> Seq<char> {
    match scheme {
        ColorScheme::Light => DEFAULT_BG_LIGHT@,
        ColorScheme::Dark => DEFAULT_BG_DARK@,
    }
}

pub open spec fn default_fg(scheme: ColorScheme) -> Seq<char> {
    match scheme {
        ColorScheme::Light => DEFAULT_FG_LIGHT@,
        ColorScheme::Dark => DEFAULT_FG_DARK@,
    }
}

/// The background of a scheme that nobody customised.
pub fn default_bg_hex(scheme: ColorScheme) -> (s: &'static str)
    ensures
        s@ == default_bg(scheme),
{
    match scheme {
        ColorScheme::Light => DEFAULT_BG_LIGHT,
        ColorScheme::Dark => DEFAULT_BG_DARK,
    }
}

/// The foreground of a scheme that nobody customised.
pub fn default_fg_hex(scheme: ColorScheme) -> (s: &'static str)
    ensures
        s@ == default_fg(scheme),
{
    match scheme {
        ColorScheme::Light => DEFAULT_FG_LIGHT,
        ColorScheme::Dark => DEFAULT_FG_DARK,
    }
}

/// The sans-serif family that a platform falls back to.
pub fn system_sans(platform: Platform) -> (s: &'static str)
    ensures
        s@ == (match platform {
            Platform::MacOs => "Helvetica"@,
            Platform::Windows => "Segoe UI"@,
            Platform::Other => "DejaVu Sans"@,
        }),
{
    match platform {
        Platform::MacOs => "Helvetica",
        Platform::Windows => "Segoe UI",
        Platform::Other => "DejaVu Sans",
    }
}

/// The monospace family that a platform falls back to.
pub fn system_mono(platform: Platform) -> (s: &'static str)
    ensures
        s@ == (match platform {
            Platform::MacOs => "Menlo"@,
            Platform::Windows => "Consolas"@,
            Platform::Other => "DejaVu Sans Mono"@,
        }),
{
    match platform {
        Platform::MacOs => "Menlo",
        Platform::Windows => "Consolas",
        Platform::Other => "DejaVu Sans Mono",
    }
}

/// The value of a hexadecimal digit of either case.
pub open spec fn hex_value(c: char) -> Option<int> {
    if '0' <= c && c <= '9' {
        Some(c as int - '0' as int)
    } else if 'a' <= c && c <= 'f' {
        Some(c as int - 'a' as int + 10)
    } else if 'A' <= c && c <= 'F' {
        Some(c as int - 'A' as int + 10)
    } else {
        None
    }
}

/// `s` without the number signs that it begins with.
pub open spec fn without_signs(s: Seq<char>) -> Seq<char>
    decreases s.len(),
{
    if s.len() > 0 && s[0] == '#' {
        without_signs(s.subrange(1, s.len() as int))
    } else {
        s
    }
}

/// The color written as six hexadecimal digits, behind any number of number
/// signs and with white space around it.
pub open spec fn hex_color(text: Seq<char>) -> Option<Rgb> {
    let h = without_signs(trimmed(text));
    if h.len() == 6 && (forall|i: int| 0 <= i < 6 ==> hex_value(#[trigger] h[i]) is Some) {
        Some(
            Rgb {
                r: (16 * hex_value(h[0])->0 + hex_value(h[1])->0) as u8,
                g: (16 * hex_value(h[2])->0 + hex_value(h[3])->0) as u8,
                b: (16 * hex_value(h[4])->0 + hex_value(h[5])->0) as u8,
            },
        )
    } else {
        None
    }
}

fn hex_digit(c: char) -> (v: Option<u8>)
    ensures
        match v {
            Some(d) => hex_value(c) == Some(d as int) && d < 16,
            None => hex_value(c) is None,
        },
{
    let u: u32 = code_point(c);
    if 48 <= u && u <= 57 {
        Some((u - 48) as u8)
    } else if 97 <= u && u <= 102 {
        Some((u - 87) as u8)
    } else if 65 <= u && u <= 70 {
        Some((u - 55) as u8)
    } else {
        None
    }
}

/// Reads a `#RRGGBB` color; the sign is optional and the case does not matter.
pub fn parse_hex(text: &str) -> (color: Option<Rgb>)
    ensures
        color == hex_color(text@),
{
    let bare: String = trim(text);
    let cs: Vec<char> = chars_of(bare.as_str());
    let n: usize = cs.len();
    let mut from: usize = 0;
    assert(cs@.subrange(0, n as int) =~= cs@);
    while from < n && cs[from] == '#'
        invariant
            from <= n == cs@.len(),
            without_signs(cs@) == without_signs(cs@.subrange(from as int, n as int)),
        decreases n - from,
    {
        proof {
            let rest = cs@.subrange(from as int, n as int);
            assert(rest.subrange(1, rest.len() as int) =~= cs@.subrange(from + 1, n as int));
        }
        from += 1;
    }
    let ghost h = without_signs(cs@);
    assert(h == cs@.subrange(from as int, n as int));
    if n - from != 6 {
        return None;
    }
    let mut digits: Vec<u8> = Vec::new();
    let mut i: usize = 0;
    while i < 6
        invariant
            i <= 6,
            from + 6 == n == cs@.len(),
            h == cs@.subrange(from as int, n as int),
            h == without_signs(trimmed(text@)),
            digits@.len() == i,
            forall|j: int|
                0 <= j < i ==> hex_value(#[trigger] h[j]) == Some(digits@[j] as int) && digits@[j]
                    < 16,
        decreases 6 - i,
    {
        match hex_digit(cs[from + i]) {
            Some(d) => {
                assert(h[i as int] == cs@[from + i]);
                digits.push(d);
            },
            None => {
                assert(h[i as int] == cs@[from + i]);
                return None;
            },
        }
        i += 1;
    }
    assert(hex_value(h[0]) == Some(digits@[0] as int));
    assert(hex_value(h[1]) == Some(digits@[1] as int));
    assert(hex_value(h[2]) == Some(digits@[2] as int));
    assert(hex_value(h[3]) == Some(digits@[3] as int));
    assert(hex_value(h[4]) == Some(digits@[4] as int));
    assert(hex_value(h[5]) == Some(digits@[5] as int));
    Some(
        Rgb {
            r: 16 * digits[0] + digits[1],
            g: 16 * digits[2] + digits[3],
            b: 16 * digits[4] + digits[5],
        },
    )
}

/// One lower-case hexadecimal digit.
pub open spec fn hex_char(d: int) -> char {
    if d == 0 {
        '0'
    } else if d == 1 {
        '1'
    } else if d == 2 {
        '2'
    } else if d == 3 {
        '3'
    } else if d == 4 {
        '4'
    } else if d == 5 {
        '5'
    } else if d == 6 {
        '6'
    } else if d == 7 {
        '7'
    } else if d == 8 {
        '8'
    } else if d == 9 {
        '9'
    } else if d == 10 {
        'a'
    } else if d == 11 {
        'b'
    } else if d == 12 {
        'c'
    } else if d == 13 {
        'd'
    } else if d == 14 {
        'e'
    } else {
        'f'
    }
}

/// `#rrggbb`.
pub open spec fn hex_text(c: Rgb) -> Seq<char> {
    seq![
        '#',
        hex_char(c.r as int / 16),
        hex_char(c.r as int % 16),
        hex_char(c.g as int / 16),
        hex_char(c.g as int % 16),
        hex_char(c.b as int / 16),
        hex_char(c.b as int % 16),
    ]
}

fn hex_letter(d: u8) -> (c: char)
    requires
        d < 16,
    ensures
        c == hex_char(d as int),
{
    let table: [char; 16] = [
        '0',
        '1',
        '2',
        '3',
        '4',
        '5',
        '6',
        '7',
        '8',
        '9',
        'a',
        'b',
        'c',
        'd',
        'e',
        'f',
    ];
    table[d as usize]
}

/// The form in which a color is shown: `#rrggbb`, lower case.
pub fn hex_of(color: Rgb) -> (s: String)
    ensures
        s@ == hex_text(color),
{
    let mut s: String = String::new();
    s.push('#');
    s.push(hex_letter(color.r / 16));
    s.push(hex_letter(color.r % 16));
    s.push(hex_letter(color.g / 16));
    s.push(hex_letter(color.g % 16));
    s.push(hex_letter(color.b / 16));
    s.push(hex_letter(color.b % 16));
    assert(s@ =~= hex_text(color));
    s
}

/// The color that an anchor text stands for, with the scheme's own when the
/// text is not a color.
pub open spec fn anchor(text: Seq<char>, fallback: Seq<char>) -> Rgb {
    match hex_color(text) {
        Some(c) => c,
        None => hex_color(fallback)->0,
    }
}

/// The part of the full tonal spread that a contrast keeps, in
/// hundred-thousandths.
pub open spec fn spread(contrast: int) -> int {
    if contrast < 0 {
        0
    } else if contrast > 100_000 {
        100_000
    } else {
        contrast
    }
}

/// The smaller of two numbers.
pub open spec fn lesser(a: int, b: int) -> int {
    if a < b {
        a
    } else {
        b
    }
}

/// The alpha of a hairline that is `percent` strong on a dark surface. One
/// pixel needs more ink on white: light schemes take 1.35 times as much, and
/// no hairline is more than half opaque.
pub open spec fn hairline_alpha(scheme: ColorScheme, percent: int, spread: int) -> int {
    lesser(percent * spread * (if scheme == ColorScheme::Dark { 100int } else { 135int }), 500_000_000)
}

/// The lightness of washes, in thousandths: soft white in dark, soft black in
/// light.
pub open spec fn wash_lightness(scheme: ColorScheme) -> u64 {
    match scheme {
        ColorScheme::Dark => 920,
        ColorScheme::Light => 100,
    }
}

/// The lightness of hairlines, in thousandths: white in dark, black in light.
pub open spec fn hairline_lightness(scheme: ColorScheme) -> u64 {
    match scheme {
        ColorScheme::Dark => 1000,
        ColorScheme::Light => 0,
    }
}

/// The accent hues of a scheme: accent, strong accent, danger, warning.
pub open spec fn accents(scheme: ColorScheme) -> (Paint, Paint, Paint, Paint) {
    match scheme {
        ColorScheme::Dark => (
            Paint::Oklch { l: 673, c: 182, h: 276_935 },
            Paint::Oklch { l: 585, c: 233, h: 277_117 },
            Paint::Oklch { l: 704, c: 191, h: 22_216 },
            Paint::Oklch { l: 828, c: 189, h: 84_429 },
        ),
        ColorScheme::Light => (
            Paint::Oklch { l: 511, c: 262, h: 276_966 },
            Paint::Oklch { l: 511, c: 262, h: 276_966 },
            Paint::Oklch { l: 577, c: 245, h: 27_325 },
            Paint::Oklch { l: 555, c: 163, h: 48_998 },
        ),
    }
}

/// What a theme paints each role with, and its font families.
pub ghost struct Palette {
    pub scheme: ColorScheme,
    pub bg: Paint,
    pub surface: Paint,
    pub surface_raised: Paint,
    pub element_hover: Paint,
    pub element_active: Paint,
    pub border: Paint,
    pub border_strong: Paint,
    pub text: Paint,
    pub text_muted: Paint,
    pub text_faint: Paint,
    pub accent: Paint,
    pub accent_strong: Paint,
    pub danger: Paint,
    pub warning: Paint,
    pub font_sans: Seq<char>,
    pub font_mono: Seq<char>,
    pub font_sans_fallback: Seq<char>,
    pub font_mono_fallback: Seq<char>,
}

/// The palette of two anchor texts and a contrast.
pub open spec fn palette(
    scheme: ColorScheme,
    bg_hex: Seq<char>,
    fg_hex: Seq<char>,
    contrast: int,
    platform: Platform,
) -> Palette {
    let bg = anchor(bg_hex, default_bg(scheme));
    let fg = anchor(fg_hex, default_fg(scheme));
    let s = spread(contrast);
    let hues = accents(scheme);
    Palette {
        scheme,
        bg: Paint::Solid(bg),
        surface: Paint::Blend { from: bg, to: fg, part: (SURFACE_LIFT * s) as u64 },
        surface_raised: Paint::Blend { from: bg, to: fg, part: (RAISED_LIFT * s) as u64 },
        element_hover: Paint::Tint { lightness: wash_lightness(scheme), alpha: (1400 * s) as u64 },
        element_active: Paint::Tint { lightness: wash_lightness(scheme), alpha: (1600 * s) as u64 },
        border: Paint::Tint {
            lightness: hairline_lightness(scheme),
            alpha: hairline_alpha(scheme, 8, s) as u64,
        },
        border_strong: Paint::Tint {
            lightness: hairline_lightness(scheme),
            alpha: hairline_alpha(scheme, 14, s) as u64,
        },
        text: Paint::Solid(fg),
        text_muted: Paint::Blend { from: fg, to: bg, part: (MUTED_SINK * s) as u64 },
        text_faint: Paint::Blend { from: fg, to: bg, part: (FAINT_SINK * s) as u64 },
        accent: hues.0,
        accent_strong: hues.1,
        danger: hues.2,
        warning: hues.3,
        font_sans: "Geist"@,
        font_mono: "Geist Mono"@,
        font_sans_fallback: match platform {
            Platform::MacOs => "Helvetica"@,
            Platform::Windows => "Segoe UI"@,
            Platform::Other => "DejaVu Sans"@,
        },
        font_mono_fallback: match platform {
            Platform::MacOs => "Menlo"@,
            Platform::Windows => "Consolas"@,
            Platform::Other => "DejaVu Sans Mono"@,
        },
    }
}

/// The app theme: one instance per scheme, rebuilt when the appearance changes.
#[derive(Debug, Clone, PartialEq, Eq)]
pub struct Theme {
    pub scheme: ColorScheme,
    /// App background.
    pub bg: Paint,
    /// Panel and sidebar surface.
    pub surface: Paint,
    /// Popovers, dialogs, cards.
    pub surface_raised: Paint,
    pub element_hover: Paint,
    pub element_active: Paint,
    /// Hairline border.
    pub border: Paint,
    pub border_strong: Paint,
    pub text: Paint,
    pub text_muted: Paint,
    pub text_faint: Paint,
    pub accent: Paint,
    pub accent_strong: Paint,
    pub danger: Paint,
    pub warning: Paint,
    pub font_sans: String,
    pub font_mono: String,
    pub font_sans_fallback: String,
    pub font_mono_fallback: String,
}

impl View for Theme {
    type V = Palette;

    open spec fn view(&self) -> Palette {
        Palette {
            scheme: self.scheme,
            bg: self.bg,
            surface: self.surface,
            surface_raised: self.surface_raised,
            element_hover: self.element_hover,
            element_active: self.element_active,
            border: self.border,
            border_strong: self.border_strong,
            text: self.text,
            text_muted: self.text_muted,
            text_faint: self.text_faint,
            accent: self.accent,
            accent_strong: self.accent_strong,
            danger: self.danger,
            warning: self.warning,
            font_sans: self.font_sans@,
            font_mono: self.font_mono@,
            font_sans_fallback: self.font_sans_fallback@,
            font_mono_fallback: self.font_mono_fallback@,
        }
    }
}

/// The default anchors of both schemes are colors.
pub proof fn default_anchors_parse()
    ensures
        hex_color(default_bg(ColorScheme::Dark)) == Some(Rgb { r: 0x06, g: 0x06, b: 0x06 }),
        hex_color(default_fg(ColorScheme::Dark)) == Some(Rgb { r: 0xe5, g: 0xe5, b: 0xe5 }),
        hex_color(default_bg(ColorScheme::Light)) == Some(Rgb { r: 0xfa, g: 0xfa, b: 0xfa }),
        hex_color(default_fg(ColorScheme::Light)) == Some(Rgb { r: 0x16, g: 0x16, b: 0x16 }),
{
    reveal_strlit("#060606");
    reveal_strlit("#e5e5e5");
    reveal_strlit("#fafafa");
    reveal_strlit("#161616");
    signed_hex(DEFAULT_BG_DARK@);
    signed_hex(DEFAULT_FG_DARK@);
    signed_hex(DEFAULT_BG_LIGHT@);
    signed_hex(DEFAULT_FG_LIGHT@);
}

/// Trimming leaves a sign and six digits as they are, and the digits are what
/// follows the sign.
proof fn signed_hex(s: Seq<char>)
    requires
        s.len() == 7,
        s[0] == '#',
        s[1] != '#',
        !is_space(s[6]),
    ensures
        without_signs(trimmed(s)) == s.subrange(1, 7),
{
    reveal_with_fuel(without_signs, 3);
    assert(crate::text::trim_start_spec(s) == s);
    assert(crate::text::trim_end_spec(s) == s);
    assert(s.subrange(1, 7)[0] == s[1]);
}

/// Reading back the shown form of a color gives the color.
pub proof fn hex_round_trip(c: Rgb)
    ensures
        hex_color(hex_text(c)) == Some(c),
{
    let s = hex_text(c);
    signed_hex(s);
    let h = s.subrange(1, 7);
    assert(h[0] == hex_char(c.r as int / 16) && h[1] == hex_char(c.r as int % 16));
    assert(h[2] == hex_char(c.g as int / 16) && h[3] == hex_char(c.g as int % 16));
    assert(h[4] == hex_char(c.b as int / 16) && h[5] == hex_char(c.b as int % 16));
    assert(forall|d: int| 0 <= d < 16 ==> hex_value(#[trigger] hex_char(d)) == Some(d));
}

/// Two texts whose digits have the same values are the same color: the case of
/// a digit does not matter.
pub proof fn hex_case_does_not_matter(a: Seq<char>, b: Seq<char>)
    requires
        without_signs(trimmed(a)).len() == without_signs(trimmed(b)).len(),
        forall|i: int|
            0 <= i < without_signs(trimmed(a)).len() ==> hex_value(
                #[trigger] without_signs(trimmed(a))[i],
            ) == hex_value(without_signs(trimmed(b))[i]),
    ensures
        hex_color(a) == hex_color(b),
{
    let x = without_signs(trimmed(a));
    let y = without_signs(trimmed(b));
    if x.len() == 6 {
        assert forall|i: int| 0 <= i < 6 implies hex_value(#[trigger] y[i]) == hex_value(x[i]) by {
            assert(hex_value(x[i]) == hex_value(y[i]));
        }
        if forall|i: int| 0 <= i < 6 ==> hex_value(#[trigger] x[i]) is Some {
        } else {
            let i = choose|i: int| 0 <= i < 6 && hex_value(#[trigger] x[i]) is None;
            assert(hex_value(y[i]) is None);
        }
    }
}

fn blend(from: Rgb, to: Rgb, lift: u64, s: u64) -> (p: Paint)
    requires
        lift <= 10_000,
        s <= 100_000,
    ensures
        p == (Paint::Blend { from, to, part: (lift * s) as u64 }),
{
    assert(lift * s <= 10_000 * 100_000) by (nonlinear_arith)
        requires
            lift <= 10_000,
            s <= 100_000,
    ;
    Paint::Blend { from, to, part: lift * s }
}

fn hairline(scheme: ColorScheme, percent: u64, s: u64) -> (p: Paint)
    requires
        percent <= 100,
        s <= 100_000,
    ensures
        p == (Paint::Tint {
            lightness: hairline_lightness(scheme),
            alpha: hairline_alpha(scheme, percent as int, s as int) as u64,
        }),
{
    assert(percent * s <= 100 * 100_000) by (nonlinear_arith)
        requires
            percent <= 100,
            s <= 100_000,
    ;
    let ink: u64 = percent * s;
    let (lightness, alpha): (u64, u64) = match scheme {
        ColorScheme::Dark => (1000, ink * 100),
        ColorScheme::Light => (0, ink * 135),
    };
    if alpha < 500_000_000 {
        Paint::Tint { lightness, alpha }
    } else {
        Paint::Tint { lightness, alpha: 500_000_000 }
    }
}

impl Theme {
    /// Builds a theme from two anchor texts and a contrast in thousandths of a
    /// percent. Every role between the anchors is a fixed fraction of the way,
    /// scaled by the contrast; an anchor that is not a color gives way to the
    /// scheme's own.
    pub fn custom(
        scheme: ColorScheme,
        bg_hex: &str,
        fg_hex: &str,
        contrast: i64,
        platform: Platform,
    ) -> (t: Theme)
        ensures
            t@ == palette(scheme, bg_hex@, fg_hex@, contrast as int, platform),
    {
        proof {
            default_anchors_parse();
        }
        let s: u64 = if contrast < 0 {
            0
        } else if contrast > 100_000 {
            100_000
        } else {
            contrast as u64
        };
        let bg: Rgb = match parse_hex(bg_hex) {
            Some(c) => c,
            None => match parse_hex(default_bg_hex(scheme)) {
                Some(c) => c,
                None => Rgb { r: 0, g: 0, b: 0 },
            },
        };
        let fg: Rgb = match parse_hex(fg_hex) {
            Some(c) => c,
            None => match parse_hex(default_fg_hex(scheme)) {
                Some(c) => c,
                None => Rgb { r: 255, g: 255, b: 255 },
            },
        };
        let wash: u64 = match scheme {
            ColorScheme::Dark => 920,
            ColorScheme::Light => 100,
        };
        let (accent, accent_strong, danger, warning) = match scheme {
            ColorScheme::Dark => (
                Paint::Oklch { l: 673, c: 182, h: 276_935 },
                Paint::Oklch { l: 585, c: 233, h: 277_117 },
                Paint::Oklch { l: 704, c: 191, h: 22_216 },
                Paint::Oklch { l: 828, c: 189, h: 84_429 },
            ),
            ColorScheme::Light => (
                Paint::Oklch { l: 511, c: 262, h: 276_966 },
                Paint::Oklch { l: 511, c: 262, h: 276_966 },
                Paint::Oklch { l: 577, c: 245, h: 27_325 },
                Paint::Oklch { l: 555, c: 163, h: 48_998 },
            ),
        };
        Theme {
            scheme,
            bg: Paint::Solid(bg),
            surface: blend(bg, fg, SURFACE_LIFT, s),
            surface_raised: blend(bg, fg, RAISED_LIFT, s),
            element_hover: Paint::Tint { lightness: wash, alpha: 1400 * s },
            element_active: Paint::Tint { lightness: wash, alpha: 1600 * s },
            border: hairline(scheme, 8, s),
            border_strong: hairline(scheme, 14, s),
            text: Paint::Solid(fg),
            text_muted: blend(fg, bg, MUTED_SINK, s),
            text_faint: blend(fg, bg, FAINT_SINK, s),
            accent,
            accent_strong,
            danger,
            warning,
            font_sans: "Geist".to_owned(),
            font_mono: "Geist Mono".to_owned(),
            font_sans_fallback: system_sans(platform).to_owned(),
            font_mono_fallback: system_mono(platform).to_owned(),
        }
    }

    /// The dark theme.
    pub fn dark(platform: Platform) -> (t: Theme)
        ensures
            t@ == palette(ColorScheme::Dark, ""@, ""@, 100_000, platform),
    {
        Theme::custom(ColorScheme::Dark, "", "", DEFAULT_CONTRAST, platform)
    }

    /// The light theme.
    pub fn light(platform: Platform) -> (t: Theme)
        ensures
            t@ == palette(ColorScheme::Light, ""@, ""@, 100_000, platform),
    {
        Theme::custom(ColorScheme::Light, "", "", DEFAULT_CONTRAST, platform)
    }

    /// The same paints with other font families.
    pub fn with_fonts(self, ui_font: String, code_font: String) -> (t: Theme)
        ensures
            t@ == (Palette { font_sans: ui_font@, font_mono: code_font@, ..self@ }),
    {
        let mut t: Theme = self;
        t.font_sans = ui_font;
        t.font_mono = code_font;
        t
    }

    /// The frost tint over the window background: translucent near-black where
    /// the platform blurs behind a dark window, the panel surface elsewhere.
    pub fn glass(&self, platform: Platform) -> (p: Paint)
        ensures
            p == (if self.scheme == ColorScheme::Dark && platform == Platform::MacOs {
                Paint::Veil { color: Rgb { r: 8, g: 8, b: 8 }, alpha: 900_000_000 }
            } else {
                self.surface
            }),
    {
        match (self.scheme, platform) {
            (ColorScheme::Dark, Platform::MacOs) => Paint::Veil {
                color: Rgb { r: 8, g: 8, b: 8 },
                alpha: 900_000_000,
            },
            _ => self.surface,
        }
    }

    /// The tint of a floating card: glass in dark, an opaque plate in light.
    pub fn glass_card(&self, platform: Platform) -> (p: Paint)
        ensures
            p == (match (self.scheme, platform) {
                (ColorScheme::Dark, Platform::MacOs) => Paint::Veil {
                    color: Rgb { r: 0x16, g: 0x16, b: 0x16 },
                    alpha: 650_000_000,
                },
                (ColorScheme::Dark, _) => Paint::Solid(Rgb { r: 0x16, g: 0x16, b: 0x16 }),
                (ColorScheme::Light, _) => self.bg,
            }),
    {
        match (self.scheme, platform) {
            (ColorScheme::Dark, Platform::MacOs) => Paint::Veil {
                color: Rgb { r: 0x16, g: 0x16, b: 0x16 },
                alpha: 650_000_000,
            },
            (ColorScheme::Dark, _) => grey(0x16),
            (ColorScheme::Light, _) => self.bg,
        }
    }

    /// The plate of the composer and of text inputs.
    pub fn input_bg(&self) -> (p: Paint)
        ensures
            p == (match self.scheme {
                ColorScheme::Dark => Paint::Tint { lightness: 1000, alpha: 30_000_000 },
                ColorScheme::Light => self.bg,
            }),
    {
        match self.scheme {
            ColorScheme::Dark => Paint::Tint { lightness: 1000, alpha: 30_000_000 },
            ColorScheme::Light => self.bg,
        }
    }

    pub open spec fn terminal_bg_spec(self) -> Paint {
        match self.scheme {
            ColorScheme::Dark => Paint::Solid(Rgb { r: 9, g: 9, b: 9 }),
            ColorScheme::Light => self.bg,
        }
    }

    /// The terminal surface.
    pub fn terminal_bg(&self) -> (p: Paint)
        ensures
            p == self.terminal_bg_spec(),
    {
        match self.scheme {
            ColorScheme::Dark => grey(9),
            ColorScheme::Light => self.bg,
        }
    }

    /// The cursor block: the text paint and the alpha it is laid on with.
    pub fn terminal_cursor(&self) -> (p: (Paint, u64))
        ensures
            p.0 == self.text,
            p.1 == (if self.scheme == ColorScheme::Dark { 350_000_000u64 } else { 550_000_000u64 }),
    {
        (self.text, if self.scheme.is_dark() { 350_000_000 } else { 550_000_000 })
    }

    /// The wash of this theme, whichever is installed.
    pub fn wash(&self, alpha: u64) -> (p: Paint)
        ensures
            p == (Paint::Tint { lightness: wash_lightness(self.scheme), alpha }),
    {
        wash_of(self.scheme, alpha)
    }

    /// Makes this the installed theme, and the mirror follow it.
    pub fn install(mirror: &mut SchemeMirror, theme: &Theme)
        ensures
            final(mirror).scheme == theme.scheme,
            final(mirror).text == theme.text,
    {
        mirror.scheme = theme.scheme;
        mirror.text = theme.text;
    }
}

impl Default for Theme {
    /// The dark theme, with the fonts of no platform in particular.
    fn default() -> (t: Self)
        ensures
            t@ == palette(ColorScheme::Dark, ""@, ""@, 100_000, Platform::Other),
    {
        Theme::dark(Platform::Other)
    }
}

/// The scheme and text paint of the installed theme, for builders that have no
/// theme at hand.
#[derive(Debug, Clone, Copy, PartialEq, Eq, Structural)]
pub struct SchemeMirror {
    pub scheme: ColorScheme,
    pub text: Paint,
}

impl Default for SchemeMirror {
    /// Before a theme is installed: dark, with text of lightness 0.898.
    fn default() -> (m: Self)
        ensures
            m.scheme == ColorScheme::Dark,
            m.text == (Paint::Tint { lightness: 898, alpha: WHOLE }),
    {
        SchemeMirror {
            scheme: ColorScheme::Dark,
            text: Paint::Tint { lightness: 898, alpha: WHOLE },
        }
    }
}

fn wash_of(scheme: ColorScheme, alpha: u64) -> (p: Paint)
    ensures
        p == (Paint::Tint { lightness: wash_lightness(scheme), alpha }),
{
    match scheme {
        ColorScheme::Dark => Paint::Tint { lightness: 920, alpha },
        ColorScheme::Light => Paint::Tint { lightness: 100, alpha },
    }
}

/// The translucent wash of interactive states: soft white in dark, soft black
/// in light, by the installed theme.
pub fn wash(mirror: &SchemeMirror, alpha: u64) -> (p: Paint)
    ensures
        p == (Paint::Tint { lightness: wash_lightness(mirror.scheme), alpha }),
{
    wash_of(mirror.scheme, alpha)
}

/// The pole of hairlines: white in dark, black in light.
pub fn white_alpha(mirror: &SchemeMirror, alpha: u64) -> (p: Paint)
    ensures
        p == (Paint::Tint { lightness: hairline_lightness(mirror.scheme), alpha }),
{
    match mirror.scheme {
        ColorScheme::Dark => Paint::Tint { lightness: 1000, alpha },
        ColorScheme::Light => Paint::Tint { lightness: 0, alpha },
    }
}

/// The text paint of the installed theme.
pub fn current_text(mirror: &SchemeMirror) -> (p: Paint)
    ensures
        p == mirror.text,
{
    mirror.text
}

/// The scheme of the installed theme.
pub fn current_scheme(mirror: &SchemeMirror) -> (s: ColorScheme)
    ensures
        s == mirror.scheme,
{
    mirror.scheme
}

/// The lift of a selected row.
pub fn glass_selected_bg(mirror: &SchemeMirror) -> (p: Paint)
    ensures
        p == (Paint::Tint { lightness: wash_lightness(mirror.scheme), alpha: 70_000_000 }),
{
    wash(mirror, 70_000_000)
}

/// An edge painted inside an element, `spread` pixels wide.
#[derive(Debug, Clone, Copy, PartialEq, Eq, Structural)]
pub struct InsetEdge {
    pub color: Paint,
    pub spread: u32,
    pub blur: u32,
}

/// The edges of a selected row.
pub fn glass_selected_shadows(mirror: &SchemeMirror) -> (edges: Vec<InsetEdge>)
    ensures
        edges@ == seq![
            InsetEdge {
                color: Paint::Tint {
                    lightness: hairline_lightness(mirror.scheme),
                    alpha: 40_000_000,
                },
                spread: 1,
                blur: 0,
            },
        ],
{
    let mut edges: Vec<InsetEdge> = Vec::new();
    edges.push(InsetEdge { color: white_alpha(mirror, 40_000_000), spread: 1, blur: 0 });
    assert(edges@ =~= seq![edges@[0]]);
    edges
}

/// The color of the context gauge by the number of lit cells.
pub open spec fn ramp(level: u8) -> Paint {
    if level == 5 {
        Paint::Oklch { l: 792, c: 209, h: 151_711 }
    } else if level == 4 {
        Paint::Oklch { l: 841, c: 238, h: 128_850 }
    } else if level == 3 {
        Paint::Oklch { l: 828, c: 189, h: 84_429 }
    } else if level == 2 {
        Paint::Oklch { l: 750, c: 183, h: 55_934 }
    } else {
        Paint::Oklch { l: 704, c: 191, h: 22_216 }
    }
}

/// The color of the context gauge: green for five lit cells down to red.
pub fn context_ramp(level: u8) -> (p: Paint)
    ensures
        p == ramp(level),
{
    match level {
        5 => Paint::Oklch { l: 792, c: 209, h: 151_711 },
        4 => Paint::Oklch { l: 841, c: 238, h: 128_850 },
        3 => Paint::Oklch { l: 828, c: 189, h: 84_429 },
        2 => Paint::Oklch { l: 750, c: 183, h: 55_934 },
        _ => Paint::Oklch { l: 704, c: 191, h: 22_216 },
    }
}

/// An exact grey.
pub fn grey(value: u8) -> (p: Paint)
    ensures
        p == Paint::Solid(Rgb { r: value, g: value, b: value }),
{
    Paint::Solid(Rgb { r: value, g: value, b: value })
}

/// A neutral oklch tone.
pub fn neutral(lightness: u64) -> (p: Paint)
    ensures
        p == (Paint::Oklch { l: lightness, c: 0, h: 0 }),
{
    Paint::Oklch { l: lightness, c: 0, h: 0 }
}

/// An oklch color.
pub fn oklch(l: u64, c: u64, h: u64) -> (p: Paint)
    ensures
        p == (Paint::Oklch { l, c, h }),
{
    Paint::Oklch { l, c, h }
}

/// The color `part / WHOLE` of the way from `a` to `b`; beyond `b` it is `b`.
pub open spec fn mixed(a: Rgb, b: Rgb, part: int) -> Paint {
    if part <= 0 {
        Paint::Solid(a)
    } else if part >= WHOLE {
        Paint::Solid(b)
    } else {
        Paint::Blend { from: a, to: b, part: part as u64 }
    }
}

/// The color `part / WHOLE` of the way from `a` to `b`; beyond `b` it is `b`.
pub fn mix(a: Rgb, b: Rgb, part: u64) -> (p: Paint)
    ensures
        p == mixed(a, b, part as int),
{
    if part == 0 {
        Paint::Solid(a)
    } else if part >= WHOLE {
        Paint::Solid(b)
    } else {
        Paint::Blend { from: a, to: b, part }
    }
}

/// The persisted recipe of a theme.
#[derive(Debug, Clone, PartialEq, Eq)]
pub struct ThemeConfig {
    pub preference: ThemePreference,
    /// Custom background; none uses the scheme's own.
    pub bg_hex: Option<String>,
    /// Custom foreground; none uses the scheme's own.
    pub fg_hex: Option<String>,
    /// Contrast in thousandths of a percent.
    pub contrast: i64,
    pub ui_font: String,
    pub code_font: String,
}

/// The text of `o`, or nothing.
pub open spec fn text_or_empty(o: Option<String>) -> Seq<char> {
    match o {
        Some(s) => s@,
        None => ""@,
    }
}

impl ThemeConfig {
    /// The theme of the recipe under the given system scheme.
    pub fn build(&self, system: ColorScheme, platform: Platform) -> (t: Theme)
        ensures
            t@ == (Palette {
                font_sans: self.ui_font@,
                font_mono: self.code_font@,
                ..palette(
                    self.preference.resolved_spec(system),
                    text_or_empty(self.bg_hex),
                    text_or_empty(self.fg_hex),
                    self.contrast as int,
                    platform,
                )
            }),
    {
        let bg: &str = match &self.bg_hex {
            Some(s) => s.as_str(),
            None => "",
        };
        let fg: &str = match &self.fg_hex {
            Some(s) => s.as_str(),
            None => "",
        };
        Theme::custom(self.preference.resolved(system), bg, fg, self.contrast, platform).with_fonts(
            self.ui_font.clone(),
            self.code_font.clone(),
        )
    }

    /// The background shown in settings.
    pub fn effective_bg_hex(&self, scheme: ColorScheme) -> (s: String)
        ensures
            s@ == (match self.bg_hex {
                Some(b) => b@,
                None => default_bg(scheme),
            }),
    {
        match &self.bg_hex {
            Some(s) => s.clone(),
            None => default_bg_hex(scheme).to_owned(),
        }
    }

    /// The foreground shown in settings.
    pub fn effective_fg_hex(&self, scheme: ColorScheme) -> (s: String)
        ensures
            s@ == (match self.fg_hex {
                Some(b) => b@,
                None => default_fg(scheme),
            }),
    {
        match &self.fg_hex {
            Some(s) => s.clone(),
            None => default_fg_hex(scheme).to_owned(),
        }
    }
}

/// The larger of three channels.
pub open spec fn top_channel(c: Rgb) -> int {
    if c.r >= c.g && c.r >= c.b {
        c.r as int
    } else if c.g >= c.b {
        c.g as int
    } else {
        c.b as int
    }
}

/// The smaller of three channels.
pub open spec fn low_channel(c: Rgb) -> int {
    if c.r <= c.g && c.r <= c.b {
        c.r as int
    } else if c.g <= c.b {
        c.g as int
    } else {
        c.b as int
    }
}

/// The lightness of a color: the sum of its largest and smallest channel.
pub open spec fn color_lightness(c: Rgb) -> int {
    top_channel(c) + low_channel(c)
}

/// The HSL lightness of an opaque paint between two colors, counted so that
/// white is `510 * WHOLE`.
pub open spec fn paint_lightness(p: Paint) -> int {
    match p {
        Paint::Solid(c) => color_lightness(c) * WHOLE,
        Paint::Blend { from, to, part } => color_lightness(from) * (WHOLE - part) + color_lightness(
            to,
        ) * part,
        _ => 0,
    }
}

/// The HSL lightness of an anchor or of a role between the anchors, counted so
/// that white is `510 * WHOLE`; of other paints there is none.
pub fn lightness(p: Paint) -> (l: Option<u64>)
    requires
        match p {
            Paint::Blend { part, .. } => part <= WHOLE,
            _ => true,
        },
    ensures
        match p {
            Paint::Solid(_) | Paint::Blend { .. } => l == Some(paint_lightness(p) as u64)
                && paint_lightness(p) <= 510 * WHOLE,
            _ => l is None,
        },
{
    match p {
        Paint::Solid(c) => Some(channels(c) * WHOLE),
        Paint::Blend { from, to, part } => {
            let a: u64 = channels(from);
            let b: u64 = channels(to);
            assert(a * (WHOLE - part) + b * part <= 510 * WHOLE && a * (WHOLE - part) >= 0 && b
                * part >= 0) by (nonlinear_arith)
                requires
                    a <= 510,
                    b <= 510,
                    0 <= part <= WHOLE,
                    WHOLE == 1_000_000_000,
            ;
            Some(a * (WHOLE - part) + b * part)
        },
        _ => None,
    }
}

/// A mix begins at the first color and ends at the second, stays there beyond,
/// and its lightness goes evenly from the one to the other.
pub proof fn mixing_goes_from_one_to_the_other(a: Rgb, b: Rgb, part: u64)
    ensures
        mixed(a, b, 0) == Paint::Solid(a),
        mixed(a, b, WHOLE as int) == Paint::Solid(b),
        part >= WHOLE ==> mixed(a, b, part as int) == Paint::Solid(b),
        part <= WHOLE ==> paint_lightness(mixed(a, b, part as int)) == color_lightness(a) * (WHOLE
            - part) + color_lightness(b) * part,
{
    let x = color_lightness(a);
    let y = color_lightness(b);
    if part == 0 {
        assert(x * (WHOLE - part) + y * part == x * WHOLE) by (nonlinear_arith)
            requires
                part == 0,
        ;
    } else if part == WHOLE {
        assert(x * (WHOLE - part) + y * part == y * WHOLE) by (nonlinear_arith)
            requires
                part == WHOLE,
        ;
    }
}

fn channels(c: Rgb) -> (l: u64)
    ensures
        l == color_lightness(c),
        l <= 510,
{
    let top: u8 = if c.r >= c.g && c.r >= c.b {
        c.r
    } else if c.g >= c.b {
        c.g
    } else {
        c.b
    };
    let low: u8 = if c.r <= c.g && c.r <= c.b {
        c.r
    } else if c.g <= c.b {
        c.g
    } else {
        c.b
    };
    top as u64 + low as u64
}

/// Writing the default anchors out, at any contrast, gives the theme that empty
/// anchors give.
pub proof fn defaults_reproduce_the_scheme(
    scheme: ColorScheme,
    contrast: int,
    platform: Platform,
)
    ensures
        palette(scheme, default_bg(scheme), default_fg(scheme), contrast, platform) == palette(
            scheme,
            ""@,
            ""@,
            contrast,
            platform,
        ),
{
    default_anchors_parse();
    reveal_strlit("");
    assert(trimmed(""@).len() == 0);
}

/// An anchor that is not a color is as good as none.
pub proof fn invalid_anchors_fall_back(
    scheme: ColorScheme,
    bg_hex: Seq<char>,
    fg_hex: Seq<char>,
    contrast: int,
    platform: Platform,
)
    requires
        hex_color(bg_hex) is None,
        hex_color(fg_hex) is None,
    ensures
        palette(scheme, bg_hex, fg_hex, contrast, platform) == palette(
            scheme,
            default_bg(scheme),
            default_fg(scheme),
            contrast,
            platform,
        ),
{
    default_anchors_parse();
}

/// Without contrast every surface is the background, every text the
/// foreground, and hairlines and washes vanish.
pub proof fn no_contrast_flattens(
    scheme: ColorScheme,
    bg_hex: Seq<char>,
    fg_hex: Seq<char>,
    contrast: int,
    platform: Platform,
)
    requires
        contrast <= 0,
    ensures
        ({
            let p = palette(scheme, bg_hex, fg_hex, contrast, platform);
            &&& paint_lightness(p.surface) == paint_lightness(p.bg)
            &&& paint_lightness(p.surface_raised) == paint_lightness(p.bg)
            &&& paint_lightness(p.text_muted) == paint_lightness(p.text)
            &&& paint_lightness(p.text_faint) == paint_lightness(p.text)
            &&& p.border->Tint_alpha == 0
            &&& p.border_strong->Tint_alpha == 0
            &&& p.element_hover->Tint_alpha == 0
            &&& p.element_active->Tint_alpha == 0
        }),
{
    let p = palette(scheme, bg_hex, fg_hex, contrast, platform);
    let bg = anchor(bg_hex, default_bg(scheme));
    let fg = anchor(fg_hex, default_fg(scheme));
    let still = Paint::Blend { from: bg, to: fg, part: 0 };
    let still_text = Paint::Blend { from: fg, to: bg, part: 0 };
    assert(spread(contrast) == 0);
    assert(p.surface == still && p.surface_raised == still);
    assert(p.text_muted == still_text && p.text_faint == still_text);
    no_part(color_lightness(bg), color_lightness(fg));
    no_part(color_lightness(fg), color_lightness(bg));
    assert(hairline_alpha(scheme, 8, 0) == 0);
    assert(hairline_alpha(scheme, 14, 0) == 0);
}

proof fn no_part(a: int, b: int)
    ensures
        a * (WHOLE - 0) + b * 0 == a * WHOLE,
{
}

/// The ramp keeps its order: background, surface, raised surface, faint text,
/// muted text, text. In a theme whose text is lighter than its background each
/// is lighter than the one before; in the mirrored case each is darker.
pub proof fn ramp_is_ordered(
    scheme: ColorScheme,
    bg_hex: Seq<char>,
    fg_hex: Seq<char>,
    contrast: int,
    platform: Platform,
)
    requires
        contrast > 0,
    ensures
        ({
            let p = palette(scheme, bg_hex, fg_hex, contrast, platform);
            let bg = paint_lightness(p.bg);
            let fg = paint_lightness(p.text);
            &&& bg < fg ==> bg < paint_lightness(p.surface) < paint_lightness(p.surface_raised)
                < paint_lightness(p.text_faint) < paint_lightness(p.text_muted) < fg
            &&& fg < bg ==> fg < paint_lightness(p.text_muted) < paint_lightness(p.text_faint)
                < paint_lightness(p.surface_raised) < paint_lightness(p.surface) < bg
        }),
{
    let a = color_lightness(anchor(bg_hex, default_bg(scheme)));
    let b = color_lightness(anchor(fg_hex, default_fg(scheme)));
    let s = spread(contrast);
    ramp_steps(a, b, s);
}

proof fn ramp_steps(a: int, b: int, s: int)
    by (nonlinear_arith)
    requires
        0 < s <= 100_000,
        0 <= a,
        0 <= b,
    ensures
        a < b ==> a * 1_000_000_000 < a * (1_000_000_000 - 314 * s) + b * (314 * s) < a * (
        1_000_000_000 - 1076 * s) + b * (1076 * s) < b * (1_000_000_000 - 5112 * s) + a * (5112 * s)
            < b * (1_000_000_000 - 3049 * s) + a * (3049 * s) < b * 1_000_000_000,
        b < a ==> b * 1_000_000_000 < b * (1_000_000_000 - 3049 * s) + a * (3049 * s) < b * (
        1_000_000_000 - 5112 * s) + a * (5112 * s) < a * (1_000_000_000 - 1076 * s) + b * (1076 * s)
            < a * (1_000_000_000 - 314 * s) + b * (314 * s) < a * 1_000_000_000,
{
}

/// The default schemes are each other's mirror: dark text on light in one,
/// light text on dark in the other, with hairlines and washes at the pole of
/// the text.
pub proof fn default_schemes_mirror(platform: Platform)
    ensures
        ({
            let d = palette(ColorScheme::Dark, ""@, ""@, 100_000, platform);
            let l = palette(ColorScheme::Light, ""@, ""@, 100_000, platform);
            &&& paint_lightness(d.bg) < paint_lightness(d.text)
            &&& paint_lightness(l.text) < paint_lightness(l.bg)
            &&& d.border->Tint_lightness == 1000
            &&& l.border->Tint_lightness == 0
            &&& d.element_hover->Tint_lightness == 920
            &&& l.element_hover->Tint_lightness == 100
        }),
{
    default_anchors_parse();
    reveal_strlit("");
    assert(trimmed(""@).len() == 0);
}

}
