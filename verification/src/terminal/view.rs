//! Terminal paint and input encoding: the color tables, keystrokes as bytes for
//! the shell, the input coalescer, and the paint plan of a grid of cells.
use vstd::prelude::*;
use vstd::string::*;
use vstd::utf8::{encode_utf8, encode_utf8_first_scalar};

use crate::text::{
    chars_of, code_point, occurs_at, occurs_in, same, scrub, scrubbed, scrubbing_leaves_none,
};
use crate::theme::{ColorScheme, Paint, Rgb, Theme};

verus! {

/// Metrics of the terminal's font and of the padding around the grid, in pixels.
pub const TERM_FONT_SIZE: u32 = 13;

pub const TERM_LINE_HEIGHT: u32 = 18;

pub const TERM_PADDING: u32 = 12;

/// Keyboard input is gathered for this long before it is written.
pub const COALESCE_MS: u64 = 12;

/// A resize is reported once the size has held for this long.
pub const RESIZE_DEBOUNCE_MS: u64 = 80;

pub const ANSI16_DARK: [(u8, u8, u8); 16] = [
    (0x24, 0x24, 0x24),
    (0xf8, 0x71, 0x71),
    (0x4a, 0xde, 0x80),
    (0xfa, 0xcc, 0x15),
    (0x60, 0xa5, 0xfa),
    (0xc0, 0x84, 0xfc),
    (0x22, 0xd3, 0xee),
    (0xd4, 0xd4, 0xd8),
    (0x52, 0x52, 0x5b),
    (0xfc, 0xa5, 0xa5),
    (0x86, 0xef, 0xac),
    (0xfd, 0xe0, 0x47),
    (0x93, 0xc5, 0xfd),
    (0xd8, 0xb4, 0xfe),
    (0x67, 0xe8, 0xf9),
    (0xfa, 0xfa, 0xfa),
];

/// Bright variants go deeper, not lighter, so that explicit white stays visible
/// on a near-white plane.
pub const ANSI16_LIGHT: [(u8, u8, u8); 16] = [
    (0x3f, 0x3f, 0x46),
    (0xdc, 0x26, 0x26),
    (0x15, 0x80, 0x3d),
    (0xa1, 0x62, 0x07),
    (0x25, 0x63, 0xeb),
    (0x93, 0x33, 0xea),
    (0x0e, 0x74, 0x90),
    (0x52, 0x52, 0x5b),
    (0x71, 0x71, 0x7a),
    (0xb9, 0x1c, 0x1c),
    (0x16, 0x65, 0x34),
    (0x85, 0x4d, 0x0e),
    (0x1d, 0x4e, 0xd8),
    (0x7e, 0x22, 0xce),
    (0x15, 0x5e, 0x75),
    (0x18, 0x18, 0x1b),
];

/// The component levels of the 256-color cube.
pub const CUBE_LEVELS: [u8; 6] = [0, 95, 135, 175, 215, 255];

/// The color of an index: sixteen named colors, a cube of six levels per
/// channel, and a ramp of greys.
pub open spec fn indexed_color(index: u8) -> (u8, u8, u8) {
    if index < 16 {
        ANSI16_DARK[index as int]
    } else if index < 232 {
        let n = index - 16;
        (CUBE_LEVELS[n / 36], CUBE_LEVELS[(n / 6) % 6], CUBE_LEVELS[n % 6])
    } else {
        let v = (8 + 10 * (index - 232)) as u8;
        (v, v, v)
    }
}

/// The color of an index on a dark terminal.
pub fn indexed_rgb(index: u8) -> (c: (u8, u8, u8))
    ensures
        c == indexed_color(index),
{
    if index < 16 {
        ANSI16_DARK[index as usize]
    } else if index < 232 {
        let n: usize = index as usize - 16;
        (CUBE_LEVELS[n / 36], CUBE_LEVELS[(n / 6) % 6], CUBE_LEVELS[n % 6])
    } else {
        let v: u8 = 8 + 10 * (index - 232);
        (v, v, v)
    }
}

pub open spec fn indexed_color_for(index: u8, scheme: ColorScheme) -> (u8, u8, u8) {
    if index < 16 && scheme == ColorScheme::Light {
        ANSI16_LIGHT[index as int]
    } else {
        indexed_color(index)
    }
}

/// The color of an index under a theme: the sixteen named colors follow its
/// scheme.
pub fn indexed_rgb_for_theme(index: u8, theme: &Theme) -> (c: (u8, u8, u8))
    ensures
        c == indexed_color_for(index, theme.scheme),
{
    if index < 16 && !theme.scheme.is_dark() {
        ANSI16_LIGHT[index as usize]
    } else {
        indexed_rgb(index)
    }
}

/// A color as the terminal's cells name it.
#[derive(Debug, Clone, Copy, PartialEq, Eq, Structural)]
pub enum CellColor {
    Foreground,
    Background,
    Indexed(u8),
    Rgb(u8, u8, u8),
}

/// The terminal's plane.
pub fn terminal_bg(theme: &Theme) -> (p: Paint)
    ensures
        p == theme.terminal_bg_spec(),
{
    theme.terminal_bg()
}

/// The terminal's text.
pub fn terminal_fg(theme: &Theme) -> (p: Paint)
    ensures
        p == theme.text,
{
    theme.text
}

/// What a cell color is painted with: the default roles and the named colors
/// follow the theme, explicit colors stay as their author wrote them.
pub open spec fn color_paint(color: CellColor, theme: Theme) -> Paint {
    match color {
        CellColor::Foreground => theme.text,
        CellColor::Background => theme.terminal_bg_spec(),
        CellColor::Indexed(ix) => {
            let c = indexed_color_for(ix, theme.scheme);
            Paint::Solid(Rgb { r: c.0, g: c.1, b: c.2 })
        },
        CellColor::Rgb(r, g, b) => Paint::Solid(Rgb { r, g, b }),
    }
}

/// What a cell color is painted with under a theme.
pub fn resolve_color(color: CellColor, theme: &Theme) -> (p: Paint)
    ensures
        p == color_paint(color, *theme),
{
    match color {
        CellColor::Foreground => terminal_fg(theme),
        CellColor::Background => terminal_bg(theme),
        CellColor::Indexed(ix) => {
            let c: (u8, u8, u8) = indexed_rgb_for_theme(ix, theme);
            Paint::Solid(Rgb { r: c.0, g: c.1, b: c.2 })
        },
        CellColor::Rgb(r, g, b) => Paint::Solid(Rgb { r, g, b }),
    }
}

/// The modifier keys held with a keystroke.
#[derive(Debug, Clone, Copy, PartialEq, Eq, Structural)]
pub struct Modifiers {
    pub control: bool,
    pub alt: bool,
    pub shift: bool,
    /// The platform's primary key: command or super.
    pub platform: bool,
    pub function: bool,
}

impl Default for Modifiers {
    fn default() -> (m: Self)
        ensures
            m == (Modifiers {
                control: false,
                alt: false,
                shift: false,
                platform: false,
                function: false,
            }),
    {
        Modifiers { control: false, alt: false, shift: false, platform: false, function: false }
    }
}

/// `ESC [ x`, or `ESC O x` when the application asked for cursor keys.
pub open spec fn cursor_key(x: u8, app_cursor: bool) -> Seq<u8> {
    if app_cursor {
        seq![0x1b, 0x4f, x]
    } else {
        seq![0x1b, 0x5b, x]
    }
}

/// `ESC [ n ~` for a number of one digit.
pub open spec fn tilde1(a: u8) -> Seq<u8> {
    seq![0x1b, 0x5b, a, 0x7e]
}

/// `ESC [ n ~` for a number of two digits.
pub open spec fn tilde2(a: u8, b: u8) -> Seq<u8> {
    seq![0x1b, 0x5b, a, b, 0x7e]
}

/// What the keys with a name send when nothing but shift is held.
pub open spec fn named_key(key: Seq<char>, shift: bool, app_cursor: bool) -> Option<Seq<u8>> {
    if key == "enter"@ {
        Some(seq![0x0du8])
    } else if key == "backspace"@ {
        Some(seq![0x7fu8])
    } else if key == "tab"@ {
        Some(
            if shift {
                seq![0x1bu8, 0x5b, 0x5a]
            } else {
                seq![0x09u8]
            },
        )
    } else if key == "escape"@ {
        Some(seq![0x1bu8])
    } else if key == "space"@ {
        Some(seq![0x20u8])
    } else if key == "up"@ {
        Some(cursor_key(0x41, app_cursor))
    } else if key == "down"@ {
        Some(cursor_key(0x42, app_cursor))
    } else if key == "right"@ {
        Some(cursor_key(0x43, app_cursor))
    } else if key == "left"@ {
        Some(cursor_key(0x44, app_cursor))
    } else if key == "home"@ {
        Some(cursor_key(0x48, app_cursor))
    } else if key == "end"@ {
        Some(cursor_key(0x46, app_cursor))
    } else if key == "insert"@ {
        Some(tilde1(0x32))
    } else if key == "delete"@ {
        Some(tilde1(0x33))
    } else if key == "pageup"@ {
        Some(tilde1(0x35))
    } else if key == "pagedown"@ {
        Some(tilde1(0x36))
    } else if key == "f1"@ {
        Some(cursor_key(0x50, true))
    } else if key == "f2"@ {
        Some(cursor_key(0x51, true))
    } else if key == "f3"@ {
        Some(cursor_key(0x52, true))
    } else if key == "f4"@ {
        Some(cursor_key(0x53, true))
    } else if key == "f5"@ {
        Some(tilde2(0x31, 0x35))
    } else if key == "f6"@ {
        Some(tilde2(0x31, 0x37))
    } else if key == "f7"@ {
        Some(tilde2(0x31, 0x38))
    } else if key == "f8"@ {
        Some(tilde2(0x31, 0x39))
    } else if key == "f9"@ {
        Some(tilde2(0x32, 0x30))
    } else if key == "f10"@ {
        Some(tilde2(0x32, 0x31))
    } else if key == "f11"@ {
        Some(tilde2(0x32, 0x33))
    } else if key == "f12"@ {
        Some(tilde2(0x32, 0x34))
    } else {
        None
    }
}

/// What a key sends with control held, in caret notation.
pub open spec fn control_key(key: Seq<char>) -> Option<Seq<u8>> {
    if key.len() == 1 {
        let c = key[0];
        if 'a' <= c && c <= 'z' {
            Some(seq![(c as int - 'a' as int + 1) as u8])
        } else if c == '@' {
            Some(seq![0x00u8])
        } else if c == '[' {
            Some(seq![0x1bu8])
        } else if c == '\\' {
            Some(seq![0x1cu8])
        } else if c == ']' {
            Some(seq![0x1du8])
        } else if c == '^' {
            Some(seq![0x1eu8])
        } else if c == '_' || c == '/' {
            Some(seq![0x1fu8])
        } else if c == '?' {
            Some(seq![0x7fu8])
        } else {
            None
        }
    } else if key == "space"@ {
        Some(seq![0x00u8])
    } else if key == "backspace"@ {
        Some(seq![0x08u8])
    } else if key == "enter"@ {
        Some(seq![0x0du8])
    } else {
        None
    }
}

/// What a key without a name types: the typed text when there is any, else the
/// key's own name when that is a single character.
pub open spec fn typed_key(key: Seq<char>, key_char: Option<Seq<char>>) -> Option<Seq<u8>> {
    if key_char is Some && key_char->0.len() > 0 {
        Some(encode_utf8(key_char->0))
    } else if key.len() == 1 {
        Some(encode_utf8(key))
    } else {
        None
    }
}

/// What a keystroke sends, apart from alt and the platform key.
pub open spec fn plain_key(
    key: Seq<char>,
    key_char: Option<Seq<char>>,
    mods: Modifiers,
    app_cursor: bool,
) -> Option<Seq<u8>> {
    if mods.control {
        control_key(key)
    } else if named_key(key, mods.shift, app_cursor) is Some {
        named_key(key, mods.shift, app_cursor)
    } else {
        typed_key(key, key_char)
    }
}

/// What a keystroke sends: nothing when the platform key is held, else what it
/// sends without alt, behind an escape when alt is held.
pub open spec fn keystroke(
    key: Seq<char>,
    key_char: Option<Seq<char>>,
    mods: Modifiers,
    app_cursor: bool,
) -> Option<Seq<u8>> {
    if mods.platform {
        None
    } else {
        match plain_key(key, key_char, mods, app_cursor) {
            Some(bytes) => Some(
                if mods.alt {
                    seq![0x1bu8] + bytes
                } else {
                    bytes
                },
            ),
            None => None,
        }
    }
}

/// Whether executable bytes are those of the specification.
pub open spec fn bytes_match(got: Option<Vec<u8>>, want: Option<Seq<u8>>) -> bool {
    match got {
        Some(v) => want == Some(v@),
        None => want is None,
    }
}

/// The view of an optional text.
pub open spec fn opt_text(o: Option<&str>) -> Option<Seq<char>> {
    match o {
        Some(s) => Some(s@),
        None => None,
    }
}

fn cursor_bytes(x: u8, app_cursor: bool) -> (v: Option<Vec<u8>>)
    ensures
        bytes_match(v, Some(cursor_key(x, app_cursor))),
{
    let v: Vec<u8> = if app_cursor {
        vec![0x1b, 0x4f, x]
    } else {
        vec![0x1b, 0x5b, x]
    };
    assert(v@ =~= cursor_key(x, app_cursor));
    Some(v)
}

fn tilde1_bytes(a: u8) -> (v: Option<Vec<u8>>)
    ensures
        bytes_match(v, Some(tilde1(a))),
{
    let v: Vec<u8> = vec![0x1b, 0x5b, a, 0x7e];
    assert(v@ =~= tilde1(a));
    Some(v)
}

fn tilde2_bytes(a: u8, b: u8) -> (v: Option<Vec<u8>>)
    ensures
        bytes_match(v, Some(tilde2(a, b))),
{
    let v: Vec<u8> = vec![0x1b, 0x5b, a, b, 0x7e];
    assert(v@ =~= tilde2(a, b));
    Some(v)
}

fn one_byte(a: u8) -> (v: Option<Vec<u8>>)
    ensures
        bytes_match(v, Some(seq![a])),
{
    let v: Vec<u8> = vec![a];
    assert(v@ =~= seq![a]);
    Some(v)
}

fn named_bytes(key: &str, shift: bool, app_cursor: bool) -> (v: Option<Vec<u8>>)
    ensures
        bytes_match(v, named_key(key@, shift, app_cursor)),
{
    if same(key, "enter") {
        one_byte(0x0d)
    } else if same(key, "backspace") {
        one_byte(0x7f)
    } else if same(key, "tab") {
        if shift {
            cursor_bytes(0x5a, false)
        } else {
            one_byte(0x09)
        }
    } else if same(key, "escape") {
        one_byte(0x1b)
    } else if same(key, "space") {
        one_byte(0x20)
    } else if same(key, "up") {
        cursor_bytes(0x41, app_cursor)
    } else if same(key, "down") {
        cursor_bytes(0x42, app_cursor)
    } else if same(key, "right") {
        cursor_bytes(0x43, app_cursor)
    } else if same(key, "left") {
        cursor_bytes(0x44, app_cursor)
    } else if same(key, "home") {
        cursor_bytes(0x48, app_cursor)
    } else if same(key, "end") {
        cursor_bytes(0x46, app_cursor)
    } else if same(key, "insert") {
        tilde1_bytes(0x32)
    } else if same(key, "delete") {
        tilde1_bytes(0x33)
    } else if same(key, "pageup") {
        tilde1_bytes(0x35)
    } else if same(key, "pagedown") {
        tilde1_bytes(0x36)
    } else if same(key, "f1") {
        cursor_bytes(0x50, true)
    } else if same(key, "f2") {
        cursor_bytes(0x51, true)
    } else if same(key, "f3") {
        cursor_bytes(0x52, true)
    } else if same(key, "f4") {
        cursor_bytes(0x53, true)
    } else if same(key, "f5") {
        tilde2_bytes(0x31, 0x35)
    } else if same(key, "f6") {
        tilde2_bytes(0x31, 0x37)
    } else if same(key, "f7") {
        tilde2_bytes(0x31, 0x38)
    } else if same(key, "f8") {
        tilde2_bytes(0x31, 0x39)
    } else if same(key, "f9") {
        tilde2_bytes(0x32, 0x30)
    } else if same(key, "f10") {
        tilde2_bytes(0x32, 0x31)
    } else if same(key, "f11") {
        tilde2_bytes(0x32, 0x33)
    } else if same(key, "f12") {
        tilde2_bytes(0x32, 0x34)
    } else {
        None
    }
}

/// What a key sends with control held; `None` when it has no caret encoding.
pub fn control_bytes(key: &str) -> (v: Option<Vec<u8>>)
    ensures
        bytes_match(v, control_key(key@)),
{
    let cs: Vec<char> = chars_of(key);
    if cs.len() == 1 {
        let c: char = cs[0];
        let u: u32 = code_point(c);
        if 97 <= u && u <= 122 {
            one_byte((u - 96) as u8)
        } else if c == '@' {
            one_byte(0x00)
        } else if c == '[' {
            one_byte(0x1b)
        } else if c == '\\' {
            one_byte(0x1c)
        } else if c == ']' {
            one_byte(0x1d)
        } else if c == '^' {
            one_byte(0x1e)
        } else if c == '_' || c == '/' {
            one_byte(0x1f)
        } else if c == '?' {
            one_byte(0x7f)
        } else {
            None
        }
    } else if same(key, "space") {
        one_byte(0x00)
    } else if same(key, "backspace") {
        one_byte(0x08)
    } else if same(key, "enter") {
        one_byte(0x0d)
    } else {
        None
    }
}

/// Encodes a keystroke for the shell. `None` means that it is not the
/// terminal's, and belongs to whoever handles keys next.
///
/// `app_cursor` is the application cursor-key mode.
pub fn keystroke_bytes(
    key: &str,
    key_char: Option<&str>,
    mods: &Modifiers,
    app_cursor: bool,
) -> (v: Option<Vec<u8>>)
    ensures
        bytes_match(v, keystroke(key@, opt_text(key_char), *mods, app_cursor)),
{
    if mods.platform {
        return None;
    }
    let plain: Option<Vec<u8>> = if mods.control {
        control_bytes(key)
    } else {
        match named_bytes(key, mods.shift, app_cursor) {
            Some(bytes) => Some(bytes),
            None => {
                let typed: Option<&str> = match key_char {
                    Some(text) if !text.is_empty() => Some(text),
                    _ => if chars_of(key).len() == 1 {
                        Some(key)
                    } else {
                        None
                    },
                };
                match typed {
                    Some(text) => Some(text.as_bytes_vec()),
                    None => None,
                }
            },
        }
    };
    match plain {
        None => None,
        Some(bytes) => {
            if mods.alt {
                let mut out: Vec<u8> = vec![0x1b];
                let mut rest: Vec<u8> = bytes;
                let ghost tail = rest@;
                out.append(&mut rest);
                assert(out@ =~= seq![0x1bu8] + tail);
                Some(out)
            } else {
                Some(bytes)
            }
        },
    }
}

/// The sequence that ends a bracketed paste.
pub open spec fn paste_end() -> Seq<char> {
    seq!['\x1b', '[', '2', '0', '1', '~']
}

/// The bytes that begin a bracketed paste.
pub open spec fn open_bracket() -> Seq<u8> {
    seq![0x1bu8, 0x5b, 0x32, 0x30, 0x30, 0x7e]
}

/// The bytes that end a bracketed paste.
pub open spec fn close_bracket() -> Seq<u8> {
    seq![0x1bu8, 0x5b, 0x32, 0x30, 0x31, 0x7e]
}

/// What a paste sends: the text scrubbed of the sequence that would end it,
/// inside the paste brackets when the application asked for them.
pub open spec fn pasted(text: Seq<char>, bracketed: bool) -> Seq<u8> {
    let body = encode_utf8(scrubbed(text, paste_end()));
    if bracketed {
        open_bracket() + body + close_bracket()
    } else {
        body
    }
}

/// Wraps pasted text for the shell. Nothing that is pasted can end the paste.
pub fn paste_bytes(text: &str, bracketed: bool) -> (v: Vec<u8>)
    ensures
        v@ == pasted(text@, bracketed),
{
    proof {
        reveal_strlit("\x1b[201~");
        assert("\x1b[201~"@ =~= paste_end());
    }
    let clean: String = scrub(text, "\x1b[201~");
    let mut body: Vec<u8> = clean.as_str().as_bytes_vec();
    if bracketed {
        let ghost inner = body@;
        let mut out: Vec<u8> = vec![0x1b, 0x5b, 0x32, 0x30, 0x30, 0x7e];
        let mut close: Vec<u8> = vec![0x1b, 0x5b, 0x32, 0x30, 0x31, 0x7e];
        assert(out@ =~= open_bracket());
        assert(close@ =~= close_bracket());
        out.append(&mut body);
        out.append(&mut close);
        assert(out@ =~= pasted(text@, bracketed));
        out
    } else {
        body
    }
}

/// Keyboard bytes between two flushes.
#[derive(Debug)]
pub struct InputCoalescer {
    pending: Vec<u8>,
}

impl View for InputCoalescer {
    type V = Seq<u8>;

    closed spec fn view(&self) -> Seq<u8> {
        self.pending@
    }
}

impl Default for InputCoalescer {
    fn default() -> (c: Self)
        ensures
            c@ == Seq::<u8>::empty(),
    {
        InputCoalescer { pending: Vec::new() }
    }
}

impl InputCoalescer {
    /// Adds bytes. The result is `true` exactly when a flush has to be
    /// scheduled: the buffer was empty and no longer is.
    pub fn push(&mut self, bytes: &[u8]) -> (schedule: bool)
        ensures
            final(self)@ == old(self)@ + bytes@,
            schedule == (old(self)@.len() == 0 && bytes@.len() > 0),
    {
        let was_empty: bool = self.pending.is_empty();
        self.pending.extend_from_slice(bytes);
        assert(self.pending@ =~= old(self).pending@ + bytes@);
        was_empty && !self.pending.is_empty()
    }

    /// Takes everything out.
    pub fn take(&mut self) -> (bytes: Vec<u8>)
        ensures
            bytes@ == old(self)@,
            final(self)@ == Seq::<u8>::empty(),
    {
        let mut bytes: Vec<u8> = Vec::new();
        bytes.append(&mut self.pending);
        assert(bytes@ =~= old(self)@);
        bytes
    }

    /// How many bytes are pending.
    pub fn len(&self) -> (n: usize)
        ensures
            n == self@.len(),
    {
        self.pending.len()
    }

    pub fn is_empty(&self) -> (r: bool)
        ensures
            r == (self@.len() == 0),
    {
        self.pending.is_empty()
    }
}

/// How many of a run of pushes onto `buffered` bytes ask for a flush.
pub open spec fn flushes_asked(buffered: nat, pushes: Seq<Seq<u8>>) -> nat
    decreases pushes.len(),
{
    if pushes.len() == 0 {
        0
    } else {
        let rest = flushes_asked(buffered + pushes[0].len(), pushes.subrange(1, pushes.len() as int));
        if buffered == 0 && pushes[0].len() > 0 {
            rest + 1
        } else {
            rest
        }
    }
}

/// A burst asks for a flush once: between two takes, at most one push asks, and
/// one does unless nothing was pushed.
pub proof fn one_flush_per_burst(pushes: Seq<Seq<u8>>)
    ensures
        flushes_asked(0, pushes) <= 1,
        flushes_asked(0, pushes) == 0 <==> (forall|i: int|
            0 <= i < pushes.len() ==> (#[trigger] pushes[i]).len() == 0),
    decreases pushes.len(),
{
    if pushes.len() > 0 {
        let rest = pushes.subrange(1, pushes.len() as int);
        if pushes[0].len() > 0 {
            no_flush_while_pending(pushes[0].len(), rest);
        } else {
            one_flush_per_burst(rest);
            if forall|i: int| 0 <= i < rest.len() ==> (#[trigger] rest[i]).len() == 0 {
                assert forall|i: int| 0 <= i < pushes.len() implies (#[trigger] pushes[i]).len()
                    == 0 by {
                    if i > 0 {
                        assert(rest[i - 1] == pushes[i]);
                    }
                }
            } else {
                let i = choose|i: int| 0 <= i < rest.len() && (#[trigger] rest[i]).len() != 0;
                assert(pushes[i + 1] == rest[i]);
            }
        }
    }
}

proof fn no_flush_while_pending(buffered: nat, pushes: Seq<Seq<u8>>)
    requires
        buffered > 0,
    ensures
        flushes_asked(buffered, pushes) == 0,
    decreases pushes.len(),
{
    if pushes.len() > 0 {
        no_flush_while_pending(
            buffered + pushes[0].len(),
            pushes.subrange(1, pushes.len() as int),
        );
    }
}

/// A text whose bytes begin with a small byte begins with the character of that
/// byte.
proof fn first_small_byte(s: Seq<char>, b: u8)
    requires
        encode_utf8(s).len() > 0,
        encode_utf8(s)[0] == b,
        b < 0x80,
    ensures
        s.len() > 0,
        s[0] as u32 == b,
        encode_utf8(s).subrange(1, encode_utf8(s).len() as int) == encode_utf8(s.drop_first()),
{
    encode_utf8_first_scalar(s);
    assert(b & 0x7f == b) by (bit_vector)
        requires
            b < 0x80,
    ;
    let rest = encode_utf8(s.drop_first());
    assert(encode_utf8(s).subrange(1, encode_utf8(s).len() as int) =~= rest);
}

/// A text whose bytes begin with small bytes begins with their characters.
proof fn begins_alike(s: Seq<char>, bytes: Seq<u8>, chars: Seq<char>)
    requires
        bytes.len() == chars.len(),
        forall|i: int|
            0 <= i < bytes.len() ==> (#[trigger] bytes[i]) < 0x80 && chars[i] as u32 == bytes[i],
        encode_utf8(s).len() >= bytes.len(),
        encode_utf8(s).subrange(0, bytes.len() as int) == bytes,
    ensures
        s.len() >= chars.len(),
        s.subrange(0, chars.len() as int) == chars,
    decreases bytes.len(),
{
    let all = encode_utf8(s);
    let n = bytes.len() as int;
    if n > 0 {
        assert(all.subrange(0, n)[0] == bytes[0]);
        first_small_byte(s, bytes[0]);
        let rest = s.drop_first();
        let more = bytes.subrange(1, n);
        let later = chars.subrange(1, n);
        assert forall|i: int| 0 <= i < more.len() implies (#[trigger] more[i]) < 0x80
            && later[i] as u32 == more[i] by {
            assert(more[i] == bytes[i + 1]);
        }
        assert forall|i: int| 0 <= i < n - 1 implies encode_utf8(rest).subrange(0, n - 1)[i]
            == more[i] by {
            assert(all.subrange(0, n)[i + 1] == bytes[i + 1]);
            assert(all.subrange(1, all.len() as int)[i] == all[i + 1]);
        }
        assert(encode_utf8(rest).subrange(0, n - 1) =~= more);
        begins_alike(rest, more, later);
        vstd::utf8::char_u32_cast(s[0], s[0] as u32);
        vstd::utf8::char_u32_cast(chars[0], chars[0] as u32);
        assert forall|i: int| 0 <= i < n implies s.subrange(0, n)[i] == chars[i] by {
            if i > 0 {
                assert(rest.subrange(0, n - 1)[i - 1] == later[i - 1]);
            }
        }
        assert(s.subrange(0, n) =~= chars);
    } else {
        assert(s.subrange(0, 0) =~= chars);
    }
}

/// Small bytes that occur among the bytes of a text are characters of it.
proof fn occurs_alike(s: Seq<char>, bytes: Seq<u8>, chars: Seq<char>, at: int)
    requires
        bytes.len() == chars.len() > 0,
        forall|i: int|
            0 <= i < bytes.len() ==> (#[trigger] bytes[i]) < 0x80 && chars[i] as u32 == bytes[i],
        0 <= at <= encode_utf8(s).len() - bytes.len(),
        encode_utf8(s).subrange(at, at + bytes.len()) == bytes,
    ensures
        occurs_in(s, chars),
    decreases s.len(),
{
    let all = encode_utf8(s);
    let n = bytes.len() as int;
    if at == 0 {
        begins_alike(s, bytes, chars);
        assert(occurs_at(s, chars, 0));
    } else {
        encode_utf8_first_scalar(s);
        let w = vstd::utf8::length_of_first_scalar(all);
        let rest = s.drop_first();
        assert(all.subrange(at, at + n)[0] == bytes[0]);
        assert(all[at] < 0x80);
        assert(at >= w);
        assert(all =~= vstd::utf8::encode_scalar(s[0] as u32) + encode_utf8(rest));
        assert(encode_utf8(rest).subrange(at - w, at - w + n) =~= all.subrange(at, at + n));
        occurs_alike(rest, bytes, chars, at - w);
        let k = choose|k: int| occurs_at(rest, chars, k);
        assert(s.subrange(k + 1, k + 1 + n) =~= rest.subrange(k, k + n));
        assert(occurs_at(s, chars, k + 1));
    }
}

/// Whatever is pasted, the bytes that end a bracketed paste occur in it once, at
/// its end: no paste can close its own bracket.
pub proof fn paste_cannot_end_itself(text: Seq<char>, at: int)
    requires
        0 <= at <= pasted(text, true).len() - close_bracket().len(),
        pasted(text, true).subrange(at, at + close_bracket().len()) == close_bracket(),
    ensures
        at == pasted(text, true).len() - close_bracket().len(),
{
    let end = close_bracket();
    let clean = scrubbed(text, paste_end());
    let body = encode_utf8(clean);
    let all = pasted(text, true);
    scrubbing_leaves_none(text, paste_end());
    let hit = all.subrange(at, at + 6);
    assert(hit[0] == 0x1b && hit[1] == 0x5b && hit[2] == 0x32 && hit[3] == 0x30 && hit[4] == 0x31
        && hit[5] == 0x7e);
    assert(all.len() == 12 + body.len());
    assert(all[at] == 0x1b);
    assert forall|j: int| at < j < at + 6 implies #[trigger] all[j] != 0x1b by {
        assert(hit[j - at] == all[j]);
    }
    assert(hit[4] == all[at + 4]);
    if at == 0 {
        assert(all[4] == open_bracket()[4]);
        assert(false);
    } else if at < 6 {
        assert(all[at] == open_bracket()[at]);
        assert(false);
    } else if at < 6 + body.len() {
        let start = 6 + body.len() as int;
        assert(all[start] == end[0]);
        if at + 6 > start {
            assert(all[start] != 0x1b);
            assert(false);
        }
        assert(body.subrange(at - 6, at) =~= end) by {
            assert forall|j: int| 0 <= j < 6 implies body.subrange(at - 6, at)[j] == end[j] by {
                assert(hit[j] == all[at + j]);
            }
        }
        occurs_alike(clean, end, paste_end(), at - 6);
        assert(false);
    } else {
        assert(at == 6 + body.len());
    }
}

/// A text that holds no end of a paste is pasted as it is.
pub proof fn harmless_text_is_pasted_whole(text: Seq<char>)
    requires
        !occurs_in(text, paste_end()),
    ensures
        pasted(text, false) == encode_utf8(text),
        pasted(text, true) == open_bracket() + encode_utf8(text) + close_bracket(),
{
    scrubbing_leaves_none(text, paste_end());
}

/// One cell of the grid, with its colors as displayed: inversion is already
/// worked in.
#[derive(Debug, Clone, Copy, PartialEq, Eq, Structural)]
pub struct Cell {
    pub ch: char,
    pub fg: CellColor,
    pub bg: CellColor,
    pub bold: bool,
    pub italic: bool,
    pub underline: bool,
    pub dim: bool,
    pub hidden: bool,
    /// The cell holds a glyph two columns wide.
    pub wide: bool,
    /// The cell is the second column of a wide glyph.
    pub wide_spacer: bool,
}

/// Columns and rows for what was measured: at least 2 by 1, at most 500 each.
pub open spec fn clamped(n: int, low: int, high: int) -> int {
    if n < low {
        low
    } else if n > high {
        high
    } else {
        n
    }
}

/// The grid that fits a measured number of whole columns and rows.
pub fn grid_size(cols: i64, rows: i64) -> (g: (u16, u16))
    ensures
        g.0 == clamped(cols as int, 2, 500),
        g.1 == clamped(rows as int, 1, 500),
{
    let c: u16 = if cols < 2 {
        2
    } else if cols > 500 {
        500
    } else {
        cols as u16
    };
    let r: u16 = if rows < 1 {
        1
    } else if rows > 500 {
        500
    } else {
        rows as u16
    };
    (c, r)
}

/// A stretch of cells painted in one go.
#[derive(Debug, Clone, Copy, PartialEq, Eq, Structural)]
pub struct BgRun {
    pub start: usize,
    pub len: usize,
    pub paint: Paint,
}

/// What a cell's background is painted with; the default is left to the plane.
pub open spec fn cell_bg(cell: Cell, theme: Theme) -> Option<Paint> {
    match cell.bg {
        CellColor::Background => None,
        other => Some(color_paint(other, theme)),
    }
}

/// The first column behind `from` whose background differs from that at `from`.
pub open spec fn run_end(row: Seq<Cell>, theme: Theme, from: int, at: int) -> int
    decreases row.len() - at,
{
    if at >= row.len() || cell_bg(row[at], theme) != cell_bg(row[from], theme) {
        at
    } else {
        run_end(row, theme, from, at + 1)
    }
}

/// The stretches of like background from column `at` on.
pub open spec fn bg_runs_from(row: Seq<Cell>, theme: Theme, at: int) -> Seq<BgRun>
    decreases row.len() - at,
    via bg_runs_decreases
{
    if at < 0 || at >= row.len() {
        Seq::empty()
    } else if cell_bg(row[at], theme) is None {
        bg_runs_from(row, theme, at + 1)
    } else {
        let end = run_end(row, theme, at, at + 1);
        seq![
            BgRun {
                start: at as usize,
                len: (end - at) as usize,
                paint: cell_bg(row[at], theme)->0,
            },
        ] + bg_runs_from(row, theme, end)
    }
}

#[via_fn]
proof fn bg_runs_decreases(row: Seq<Cell>, theme: Theme, at: int) {
    if 0 <= at < row.len() {
        run_end_bounds(row, theme, at, at + 1);
    }
}

proof fn run_end_bounds(row: Seq<Cell>, theme: Theme, from: int, at: int)
    requires
        0 <= from < row.len(),
        0 <= at <= row.len(),
    ensures
        at <= run_end(row, theme, from, at) <= row.len(),
        forall|i: int|
            at <= i < run_end(row, theme, from, at) ==> cell_bg(#[trigger] row[i], theme) == cell_bg(
                row[from],
                theme,
            ),
        run_end(row, theme, from, at) < row.len() ==> cell_bg(
            row[run_end(row, theme, from, at)],
            theme,
        ) != cell_bg(row[from], theme),
    decreases row.len() - at,
{
    if at < row.len() && cell_bg(row[at], theme) == cell_bg(row[from], theme) {
        run_end_bounds(row, theme, from, at + 1);
    }
}

/// The background stretches of one row.
pub fn background_runs(row: &Vec<Cell>, theme: &Theme) -> (runs: Vec<BgRun>)
    ensures
        runs@ == bg_runs_from(row@, *theme, 0),
{
    let n: usize = row.len();
    let mut runs: Vec<BgRun> = Vec::new();
    let mut at: usize = 0;
    while at < n
        invariant
            at <= n == row@.len(),
            bg_runs_from(row@, *theme, 0) == runs@ + bg_runs_from(row@, *theme, at as int),
        decreases n - at,
    {
        match paint_of(row[at], theme) {
            None => {
                at += 1;
            },
            Some(paint) => {
                let mut end: usize = at + 1;
                while end < n && same_paint(paint_of(row[end], theme), paint)
                    invariant
                        at < end <= n == row@.len(),
                        cell_bg(row@[at as int], *theme) == Some(paint),
                        run_end(row@, *theme, at as int, at + 1) == run_end(
                            row@,
                            *theme,
                            at as int,
                            end as int,
                        ),
                    decreases n - end,
                {
                    end += 1;
                }
                let run: BgRun = BgRun { start: at, len: end - at, paint };
                proof {
                    let rest = bg_runs_from(row@, *theme, end as int);
                    assert(runs@ + (seq![run] + rest) =~= runs@.push(run) + rest);
                }
                runs.push(run);
                at = end;
            },
        }
    }
    assert(runs@ + Seq::<BgRun>::empty() =~= runs@);
    runs
}

fn paint_of(cell: Cell, theme: &Theme) -> (p: Option<Paint>)
    ensures
        p == cell_bg(cell, *theme),
{
    match cell.bg {
        CellColor::Background => None,
        other => Some(resolve_color(other, theme)),
    }
}

fn same_paint(a: Option<Paint>, b: Paint) -> (r: bool)
    ensures
        r == (a == Some(b)),
{
    match a {
        Some(p) => p == b,
        None => false,
    }
}

/// The background stretches of a row tile it: they are in order, none touches
/// a column of the default background, every other column lies in exactly the
/// one that has its paint, and neighbours of like paint are never apart.
pub proof fn background_runs_tile_the_row(row: Seq<Cell>, theme: Theme, at: int)
    requires
        0 <= at <= row.len() <= usize::MAX,
    ensures
        ({
            let runs = bg_runs_from(row, theme, at);
            &&& forall|k: int|
                0 <= k < runs.len() ==> at <= (#[trigger] runs[k]).start && runs[k].len > 0
                    && runs[k].start + runs[k].len <= row.len()
            &&& forall|k: int, c: int|
                0 <= k < runs.len() && runs[k].start <= c < runs[k].start + runs[k].len ==> cell_bg(
                    #[trigger] row[c],
                    theme,
                ) == Some((#[trigger] runs[k]).paint)
            &&& forall|j: int, k: int|
                0 <= j < k < runs.len() ==> (#[trigger] runs[j]).start + runs[j].len <= (
                #[trigger] runs[k]).start
            &&& forall|j: int, k: int|
                0 <= j < k < runs.len() && (#[trigger] runs[j]).start + runs[j].len == (
                #[trigger] runs[k]).start ==> runs[j].paint != runs[k].paint
            &&& forall|c: int|
                at <= c < row.len() && cell_bg(#[trigger] row[c], theme) is Some ==> exists|k: int|
                    0 <= k < runs.len() && (#[trigger] runs[k]).start <= c < runs[k].start
                        + runs[k].len
        }),
    decreases row.len() - at,
{
    let runs = bg_runs_from(row, theme, at);
    if at < row.len() {
        if cell_bg(row[at], theme) is None {
            background_runs_tile_the_row(row, theme, at + 1);
        } else {
            let end = run_end(row, theme, at, at + 1);
            run_end_bounds(row, theme, at, at + 1);
            background_runs_tile_the_row(row, theme, end);
            let tail = bg_runs_from(row, theme, end);
            assert forall|k: int| 0 < k < runs.len() implies #[trigger] runs[k] == tail[k - 1] by {}
            assert forall|j: int, k: int|
                0 <= j < k < runs.len() && (#[trigger] runs[j]).start + runs[j].len == (
                #[trigger] runs[k]).start implies runs[j].paint != runs[k].paint by {
                assert(runs[k] == tail[k - 1]);
                if j == 0 {
                    assert(cell_bg(row[tail[k - 1].start as int], theme) == Some(tail[k - 1].paint));
                } else {
                    assert(runs[j] == tail[j - 1]);
                }
            }
            assert forall|c: int|
                at <= c < row.len() && cell_bg(#[trigger] row[c], theme) is Some implies exists|k: int|
                0 <= k < runs.len() && (#[trigger] runs[k]).start <= c < runs[k].start
                    + runs[k].len by {
                if c < end {
                    assert(runs[0].start <= c < runs[0].start + runs[0].len);
                } else {
                    let k = choose|k: int|
                        0 <= k < tail.len() && (#[trigger] tail[k]).start <= c < tail[k].start
                            + tail[k].len;
                    assert(runs[k + 1] == tail[k]);
                }
            }
        }
    }
}

/// How a glyph is drawn.
#[derive(Debug, Clone, Copy, PartialEq, Eq, Structural)]
pub struct GlyphStyle {
    pub paint: Paint,
    /// The paint is laid on at six tenths.
    pub dim: bool,
    pub bold: bool,
    pub italic: bool,
    pub underline: bool,
}

/// A number of bytes of text drawn alike.
#[derive(Debug, Clone, Copy, PartialEq, Eq, Structural)]
pub struct StyleRun {
    pub len: usize,
    pub style: GlyphStyle,
}

/// Text that is shaped together and pinned to a grid column.
#[derive(Debug)]
pub struct Segment {
    pub column: usize,
    pub text: String,
    pub runs: Vec<StyleRun>,
}

/// What a segment holds.
pub ghost struct SegmentView {
    pub column: int,
    pub text: Seq<char>,
    pub runs: Seq<StyleRun>,
}

impl View for Segment {
    type V = SegmentView;

    open spec fn view(&self) -> SegmentView {
        SegmentView { column: self.column as int, text: self.text@, runs: self.runs@ }
    }
}

/// The number of bytes of a character in UTF-8.
pub open spec fn utf8_len(c: char) -> int {
    if (c as int) < 0x80 {
        1
    } else if (c as int) < 0x800 {
        2
    } else if (c as int) < 0x10000 {
        3
    } else {
        4
    }
}

fn byte_len(c: char) -> (n: usize)
    ensures
        n == utf8_len(c),
        1 <= n <= 4,
{
    let u: u32 = code_point(c);
    if u < 0x80 {
        1
    } else if u < 0x800 {
        2
    } else if u < 0x10000 {
        3
    } else {
        4
    }
}

/// The character that a cell shows.
pub open spec fn shown_char(cell: Cell) -> char {
    if cell.hidden {
        ' '
    } else {
        cell.ch
    }
}

/// Whether a cell's glyph has to be pinned to its own column: its advance need
/// not be one cell.
pub open spec fn is_pinned(cell: Cell) -> bool {
    shown_char(cell) as int >= 0x80 || cell.wide
}

/// How a cell's glyph is drawn.
pub open spec fn cell_style(cell: Cell, theme: Theme) -> GlyphStyle {
    GlyphStyle {
        paint: color_paint(cell.fg, theme),
        dim: cell.dim,
        bold: cell.bold,
        italic: cell.italic,
        underline: cell.underline,
    }
}

/// The text of some cells; spacers show nothing.
pub open spec fn cells_text(cells: Seq<Cell>) -> Seq<char>
    decreases cells.len(),
{
    if cells.len() == 0 {
        Seq::empty()
    } else if cells.last().wide_spacer {
        cells_text(cells.drop_last())
    } else {
        cells_text(cells.drop_last()).push(shown_char(cells.last()))
    }
}

/// The styles of some cells, neighbours of one style joined; spacers have none.
pub open spec fn cells_runs(cells: Seq<Cell>, theme: Theme) -> Seq<StyleRun>
    decreases cells.len(),
{
    if cells.len() == 0 {
        Seq::empty()
    } else if cells.last().wide_spacer {
        cells_runs(cells.drop_last(), theme)
    } else {
        let before = cells_runs(cells.drop_last(), theme);
        let style = cell_style(cells.last(), theme);
        let len = utf8_len(shown_char(cells.last()));
        if before.len() > 0 && before.last().style == style {
            before.drop_last().push(StyleRun { len: (before.last().len + len) as usize, style })
        } else {
            before.push(StyleRun { len: len as usize, style })
        }
    }
}

/// The segment of the cells `from..to`.
pub open spec fn segment_of(row: Seq<Cell>, theme: Theme, from: int, to: int) -> SegmentView {
    SegmentView {
        column: from,
        text: cells_text(row.subrange(from, to)),
        runs: cells_runs(row.subrange(from, to), theme),
    }
}

/// The first column from `at` on that holds a pinned glyph.
pub open spec fn next_pinned(row: Seq<Cell>, at: int) -> int
    decreases row.len() - at,
{
    if at < 0 || at >= row.len() || (!row[at].wide_spacer && is_pinned(row[at])) {
        at
    } else {
        next_pinned(row, at + 1)
    }
}

/// The segments from column `at` on: a pinned glyph stands alone, other glyphs
/// go together as far as the next pinned one, and spacers begin none.
pub open spec fn segments_from(row: Seq<Cell>, theme: Theme, at: int) -> Seq<SegmentView>
    decreases row.len() - at,
    via segments_decreases
{
    if at < 0 || at >= row.len() {
        Seq::empty()
    } else if row[at].wide_spacer {
        segments_from(row, theme, at + 1)
    } else if is_pinned(row[at]) {
        seq![segment_of(row, theme, at, at + 1)] + segments_from(row, theme, at + 1)
    } else {
        let end = next_pinned(row, at + 1);
        seq![segment_of(row, theme, at, end)] + segments_from(row, theme, end)
    }
}

#[via_fn]
proof fn segments_decreases(row: Seq<Cell>, theme: Theme, at: int) {
    if 0 <= at < row.len() {
        next_pinned_bounds(row, at + 1);
    }
}

proof fn next_pinned_bounds(row: Seq<Cell>, at: int)
    requires
        0 <= at <= row.len(),
    ensures
        at <= next_pinned(row, at) <= row.len(),
        forall|i: int|
            at <= i < next_pinned(row, at) ==> (#[trigger] row[i]).wide_spacer || !is_pinned(row[i]),
    decreases row.len() - at,
{
    if at < row.len() && (row[at].wide_spacer || !is_pinned(row[at])) {
        next_pinned_bounds(row, at + 1);
    }
}

/// The views of some segments.
pub open spec fn segment_views(segments: Seq<Segment>) -> Seq<SegmentView> {
    segments.map_values(|s: Segment| s@)
}

/// No run of some cells is longer than four bytes a cell.
proof fn runs_bounded(cells: Seq<Cell>, theme: Theme)
    requires
        4 * cells.len() <= usize::MAX,
    ensures
        forall|i: int|
            0 <= i < cells_runs(cells, theme).len() ==> (#[trigger] cells_runs(cells, theme)[i]).len
                <= 4 * cells.len(),
    decreases cells.len(),
{
    if cells.len() > 0 {
        runs_bounded(cells.drop_last(), theme);
        let before = cells_runs(cells.drop_last(), theme);
        if before.len() > 0 {
            assert(before[before.len() - 1].len <= 4 * (cells.len() - 1));
        }
    }
}

fn make_segment(row: &Vec<Cell>, theme: &Theme, from: usize, to: usize) -> (s: Segment)
    requires
        from <= to <= row@.len(),
        4 * row@.len() <= usize::MAX,
    ensures
        s@ == segment_of(row@, *theme, from as int, to as int),
{
    let mut text: String = String::new();
    let mut runs: Vec<StyleRun> = Vec::new();
    let mut i: usize = from;
    assert(row@.subrange(from as int, from as int) =~= Seq::<Cell>::empty());
    while i < to
        invariant
            from <= i <= to <= row@.len(),
            4 * row@.len() <= usize::MAX,
            text@ == cells_text(row@.subrange(from as int, i as int)),
            runs@ == cells_runs(row@.subrange(from as int, i as int), *theme),
        decreases to - i,
    {
        let cell: Cell = row[i];
        let ghost before = row@.subrange(from as int, i as int);
        let ghost now = row@.subrange(from as int, i + 1);
        proof {
            assert(now.drop_last() =~= before);
            assert(now.last() == cell);
            runs_bounded(before, *theme);
        }
        if !cell.wide_spacer {
            let ch: char = if cell.hidden {
                ' '
            } else {
                cell.ch
            };
            let style: GlyphStyle = GlyphStyle {
                paint: resolve_color(cell.fg, theme),
                dim: cell.dim,
                bold: cell.bold,
                italic: cell.italic,
                underline: cell.underline,
            };
            let len: usize = byte_len(ch);
            text.push(ch);
            let n: usize = runs.len();
            if n > 0 && runs[n - 1].style == style {
                let ghost old_runs = runs@;
                assert(runs@[n - 1].len <= 4 * before.len());
                let joined: StyleRun = StyleRun { len: runs[n - 1].len + len, style };
                runs.pop();
                runs.push(joined);
                assert(runs@ =~= old_runs.drop_last().push(joined));
            } else {
                runs.push(StyleRun { len, style });
            }
        }
        i += 1;
    }
    Segment { column: from, text, runs }
}

fn pinned(cell: Cell) -> (r: bool)
    ensures
        r == is_pinned(cell),
{
    let ch: char = if cell.hidden {
        ' '
    } else {
        cell.ch
    };
    code_point(ch) >= 0x80 || cell.wide
}

/// The segments of one row.
pub fn shape_row(row: &Vec<Cell>, theme: &Theme) -> (segments: Vec<Segment>)
    requires
        4 * row@.len() <= usize::MAX,
    ensures
        segment_views(segments@) == segments_from(row@, *theme, 0),
{
    let n: usize = row.len();
    let mut segments: Vec<Segment> = Vec::new();
    let mut at: usize = 0;
    assert(segment_views(segments@) =~= Seq::<SegmentView>::empty());
    assert(Seq::<SegmentView>::empty() + segments_from(row@, *theme, 0) =~= segments_from(
        row@,
        *theme,
        0,
    ));
    while at < n
        invariant
            at <= n == row@.len(),
            4 * row@.len() <= usize::MAX,
            segments_from(row@, *theme, 0) == segment_views(segments@) + segments_from(
                row@,
                *theme,
                at as int,
            ),
        decreases n - at,
    {
        if row[at].wide_spacer {
            at += 1;
        } else {
            let mut end: usize = at + 1;
            if !pinned(row[at]) {
                while end < n && (row[end].wide_spacer || !pinned(row[end]))
                    invariant
                        at < end <= n == row@.len(),
                        next_pinned(row@, at + 1) == next_pinned(row@, end as int),
                    decreases n - end,
                {
                    end += 1;
                }
            }
            let segment: Segment = make_segment(row, theme, at, end);
            proof {
                let rest = segments_from(row@, *theme, end as int);
                assert(segment_views(segments@.push(segment)) =~= segment_views(segments@).push(
                    segment@,
                ));
                assert(segment_views(segments@) + (seq![segment@] + rest) =~= segment_views(
                    segments@,
                ).push(segment@) + rest);
            }
            segments.push(segment);
            at = end;
        }
    }
    assert(segment_views(segments@) + Seq::<SegmentView>::empty() =~= segment_views(segments@));
    segments
}

/// The text of the segments, put together.
pub open spec fn all_text(segments: Seq<SegmentView>) -> Seq<char>
    decreases segments.len(),
{
    if segments.len() == 0 {
        Seq::empty()
    } else {
        segments[0].text + all_text(segments.subrange(1, segments.len() as int))
    }
}

proof fn cells_text_joins(row: Seq<Cell>, from: int, mid: int, to: int)
    requires
        0 <= from <= mid <= to <= row.len(),
    ensures
        cells_text(row.subrange(from, to)) == cells_text(row.subrange(from, mid)) + cells_text(
            row.subrange(mid, to),
        ),
    decreases to - mid,
{
    let whole = row.subrange(from, to);
    let left = cells_text(row.subrange(from, mid));
    if mid == to {
        assert(row.subrange(mid, to) =~= Seq::<Cell>::empty());
        assert(left + Seq::<char>::empty() =~= left);
    } else {
        let right = row.subrange(mid, to);
        cells_text_joins(row, from, mid, to - 1);
        assert(whole.drop_last() =~= row.subrange(from, to - 1));
        assert(right.drop_last() =~= row.subrange(mid, to - 1));
        let r = cells_text(row.subrange(mid, to - 1));
        assert((left + r).push(shown_char(row[to - 1])) =~= left + r.push(shown_char(row[to - 1])));
    }
}

/// Splitting a row into segments loses no glyph, and each segment stands at the
/// column of its first cell: glyphs before it cannot shift it.
pub proof fn segments_keep_the_row(row: Seq<Cell>, theme: Theme, at: int)
    requires
        0 <= at <= row.len(),
    ensures
        all_text(segments_from(row, theme, at)) == cells_text(row.subrange(at, row.len() as int)),
        forall|k: int|
            0 <= k < segments_from(row, theme, at).len() ==> {
                let s = #[trigger] segments_from(row, theme, at)[k];
                at <= s.column < row.len() && !row[s.column].wide_spacer && s.text.len() > 0
                    && s.text[0] == shown_char(row[s.column])
            },
    decreases row.len() - at,
{
    let n = row.len() as int;
    let segs = segments_from(row, theme, at);
    reveal_with_fuel(cells_text, 2);
    if at == n {
        assert(row.subrange(at, n) =~= Seq::<Cell>::empty());
    } else if row[at].wide_spacer {
        segments_keep_the_row(row, theme, at + 1);
        cells_text_joins(row, at, at + 1, n);
        let one = row.subrange(at, at + 1);
        assert(one.last() == row[at]);
        assert(one.drop_last() =~= Seq::<Cell>::empty());
        assert(cells_text(one) =~= Seq::<char>::empty());
        assert(Seq::<char>::empty() + cells_text(row.subrange(at + 1, n)) =~= cells_text(
            row.subrange(at + 1, n),
        ));
    } else {
        next_pinned_bounds(row, at + 1);
        let end = if is_pinned(row[at]) {
            at + 1
        } else {
            next_pinned(row, at + 1)
        };
        segments_keep_the_row(row, theme, end);
        cells_text_joins(row, at, end, n);
        let rest = segments_from(row, theme, end);
        assert(segs.subrange(1, segs.len() as int) =~= rest);
        assert(segs[0] == segment_of(row, theme, at, end));
        cells_text_joins(row, at, at + 1, end);
        let one = row.subrange(at, at + 1);
        assert(one.last() == row[at]);
        assert(one.drop_last() =~= Seq::<Cell>::empty());
        assert(cells_text(one) =~= seq![shown_char(row[at])]);
        assert forall|k: int| 0 <= k < segs.len() implies {
            let s = #[trigger] segs[k];
            at <= s.column < row.len() && !row[s.column].wide_spacer && s.text.len() > 0 && s.text[0]
                == shown_char(row[s.column])
        } by {
            if k > 0 {
                assert(segs[k] == rest[k - 1]);
            }
        }
    }
}

/// The cursor's cell.
#[derive(Debug, Clone, Copy, PartialEq, Eq, Structural)]
pub struct CursorPos {
    pub row: usize,
    pub col: usize,
}

/// What the emulator shows.
#[derive(Debug)]
pub struct GridSnapshot {
    pub lines: Vec<Vec<Cell>>,
    pub cursor: Option<CursorPos>,
}

/// The cursor's cell, filled when the terminal has the focus and outlined when
/// it has not.
#[derive(Debug, Clone, Copy, PartialEq, Eq, Structural)]
pub struct CursorMark {
    pub at: CursorPos,
    pub filled: bool,
    pub paint: Paint,
    pub alpha: u64,
}

/// Everything to paint for a grid.
#[derive(Debug)]
pub struct TerminalPrepaint {
    pub backgrounds: Vec<Vec<BgRun>>,
    pub lines: Vec<Vec<Segment>>,
    pub cursor: Option<CursorMark>,
}

/// The paint plan of a grid; nothing when there is no grid.
pub fn prepaint(snapshot: Option<&GridSnapshot>, theme: &Theme, focused: bool) -> (plan:
    TerminalPrepaint)
    requires
        match snapshot {
            Some(g) => forall|i: int|
                0 <= i < g.lines@.len() ==> 4 * (#[trigger] g.lines@[i])@.len() <= usize::MAX,
            None => true,
        },
    ensures
        match snapshot {
            None => plan.backgrounds@.len() == 0 && plan.lines@.len() == 0 && plan.cursor is None,
            Some(g) => {
                &&& plan.backgrounds@.len() == g.lines@.len()
                &&& plan.lines@.len() == g.lines@.len()
                &&& forall|i: int|
                    0 <= i < g.lines@.len() ==> (#[trigger] plan.backgrounds@[i])@ == bg_runs_from(
                        g.lines@[i]@,
                        *theme,
                        0,
                    )
                &&& forall|i: int|
                    0 <= i < g.lines@.len() ==> segment_views((#[trigger] plan.lines@[i])@)
                        == segments_from(g.lines@[i]@, *theme, 0)
                &&& match g.cursor {
                    None => plan.cursor is None,
                    Some(at) => plan.cursor == Some(
                        CursorMark {
                            at,
                            filled: focused,
                            paint: theme.text,
                            alpha: if theme.scheme == ColorScheme::Dark {
                                350_000_000
                            } else {
                                550_000_000
                            },
                        },
                    ),
                }
            },
        },
{
    let mut backgrounds: Vec<Vec<BgRun>> = Vec::new();
    let mut lines: Vec<Vec<Segment>> = Vec::new();
    let grid: &GridSnapshot = match snapshot {
        Some(g) => g,
        None => {
            return TerminalPrepaint { backgrounds, lines, cursor: None };
        },
    };
    let mut i: usize = 0;
    while i < grid.lines.len()
        invariant
            i <= grid.lines@.len(),
            forall|j: int|
                0 <= j < grid.lines@.len() ==> 4 * (#[trigger] grid.lines@[j])@.len() <= usize::MAX,
            backgrounds@.len() == i,
            lines@.len() == i,
            forall|j: int|
                0 <= j < i ==> (#[trigger] backgrounds@[j])@ == bg_runs_from(
                    grid.lines@[j]@,
                    *theme,
                    0,
                ),
            forall|j: int|
                0 <= j < i ==> segment_views((#[trigger] lines@[j])@) == segments_from(
                    grid.lines@[j]@,
                    *theme,
                    0,
                ),
        decreases grid.lines@.len() - i,
    {
        backgrounds.push(background_runs(&grid.lines[i], theme));
        lines.push(shape_row(&grid.lines[i], theme));
        i += 1;
    }
    let cursor: Option<CursorMark> = match grid.cursor {
        None => None,
        Some(at) => {
            let mark: (Paint, u64) = theme.terminal_cursor();
            Some(CursorMark { at, filled: focused, paint: mark.0, alpha: mark.1 })
        },
    };
    TerminalPrepaint { backgrounds, lines, cursor }
}

}
