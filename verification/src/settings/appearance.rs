//! The typefaces of the interface and of code: which families are offered for
//! each, and how the menus behave.
use vstd::prelude::*;
use vstd::string::*;

use crate::order::{ordered, sort_ranked, Rank};
use crate::seqs::{kept, kept_step};
use crate::text::{contains, occurs_in, trim, trimmed};
use crate::wire::texts;

verus! {

/// How many families a menu offers.
pub const MENU_FONTS: usize = 80;

/// A click on the trigger this many milliseconds after its menu was dismissed
/// belongs to the dismissal.
pub const DISMISS_MS: u64 = 400;

/// A text in lower case.
pub uninterp spec fn lowercase(s: Seq<char>) -> Seq<char>;

/// `str::to_lowercase`: the result depends on the text alone.
#[verifier::external_body]
pub(crate) fn to_lower(s: &str) -> (r: String)
    ensures
        r@ == lowercase(s@),
{
    s.to_lowercase()
}

/// What a family is used for.
#[derive(Debug, Clone, Copy, PartialEq, Eq, Structural)]
pub enum FontKind {
    Ui,
    Code,
}

impl FontKind {
    pub fn label(self) -> (s: &'static str)
        ensures
            s@ == (match self {
                FontKind::Ui => "ui"@,
                FontKind::Code => "code"@,
            }),
    {
        match self {
            FontKind::Ui => "ui",
            FontKind::Code => "code",
        }
    }

    pub fn heading(self) -> (s: &'static str)
        ensures
            s@ == (match self {
                FontKind::Ui => "UI fonts"@,
                FontKind::Code => "Code fonts"@,
            }),
    {
        match self {
            FontKind::Ui => "UI fonts",
            FontKind::Code => "Code fonts",
        }
    }
}

/// A change for the shell to keep and apply.
#[derive(Debug, Clone, PartialEq, Eq)]
pub enum AppearanceEvent {
    Changed { ui_font: String, code_font: String },
}

/// Whether a family, by its name in lower case, is one for code.
pub open spec fn looks_monospace(lower: Seq<char>) -> bool {
    ||| occurs_in(lower, "mono"@)
    ||| occurs_in(lower, "monospace"@)
    ||| occurs_in(lower, "code"@)
    ||| occurs_in(lower, "courier"@)
    ||| occurs_in(lower, "menlo"@)
    ||| occurs_in(lower, "monaco"@)
    ||| occurs_in(lower, "consolas"@)
    ||| occurs_in(lower, "cascadia"@)
    ||| occurs_in(lower, "fixed"@)
    ||| occurs_in(lower, "terminal"@)
    ||| occurs_in(lower, "typewriter"@)
}

/// Whether a family, by its name in lower case, is one for code.
pub fn names_monospace(lower: &str) -> (r: bool)
    ensures
        r == looks_monospace(lower@),
{
    contains(lower, "mono") || contains(lower, "monospace") || contains(lower, "code") || contains(
        lower,
        "courier",
    ) || contains(lower, "menlo") || contains(lower, "monaco") || contains(lower, "consolas")
        || contains(lower, "cascadia") || contains(lower, "fixed") || contains(lower, "terminal")
        || contains(lower, "typewriter")
}

/// Whether a family is offered: it has the role that is asked for, and its name
/// holds the query. Both texts are in lower case.
pub open spec fn is_offered(kind: FontKind, lower: Seq<char>, query: Seq<char>) -> bool {
    (looks_monospace(lower) == (kind == FontKind::Code)) && (query.len() == 0 || occurs_in(
        lower,
        query,
    ))
}

/// Whether a family is offered, by its name and the query in lower case.
pub fn offers(kind: FontKind, lower: &str, query: &str) -> (r: bool)
    ensures
        r == is_offered(kind, lower@, query@),
{
    let mono: bool = names_monospace(lower);
    let role: bool = match kind {
        FontKind::Ui => !mono,
        FontKind::Code => mono,
    };
    role && (query.is_empty() || contains(lower, query))
}

/// A family is offered for exactly one role.
pub proof fn one_role_per_family(lower: Seq<char>)
    ensures
        is_offered(FontKind::Ui, lower, Seq::empty()) != is_offered(
            FontKind::Code,
            lower,
            Seq::empty(),
        ),
{
}

/// The condition of being offered.
pub open spec fn offered(kind: FontKind, query: Seq<char>) -> spec_fn(Seq<char>) -> bool {
    |name: Seq<char>| is_offered(kind, lowercase(name), query)
}

/// The families that a menu offers for what was typed: the first of those that
/// match.
pub open spec fn menu_of(
    fonts: Seq<Seq<char>>,
    kind: FontKind,
    typed: Seq<char>,
) -> Seq<Seq<char>> {
    let all = kept(fonts, offered(kind, lowercase(trimmed(typed))));
    if all.len() > MENU_FONTS {
        all.take(MENU_FONTS as int)
    } else {
        all
    }
}

/// A list without the items that repeat the one before them.
pub open spec fn deduped(s: Seq<Seq<char>>) -> Seq<Seq<char>>
    decreases s.len(),
{
    if s.len() <= 1 {
        s
    } else if s.last() == s[s.len() - 2] {
        deduped(s.drop_last())
    } else {
        deduped(s.drop_last()).push(s.last())
    }
}

/// Families in order of their names in lower case.
pub open spec fn by_lowercase() -> spec_fn(String) -> (int, Seq<char>) {
    |f: String| (0int, lowercase(f@))
}

/// The page.
#[derive(Debug)]
pub struct AppearancePage {
    pub ui_font: String,
    pub code_font: String,
    pub available_fonts: Vec<String>,
    pub open_menu: Option<FontKind>,
    /// When a menu was dismissed by a click elsewhere, in milliseconds.
    pub menu_dismissed_at: Option<u64>,
}

/// The families of a list in order, those that repeat the one before left out.
pub fn arrange_fonts(fonts: Vec<String>) -> (r: Vec<String>)
    ensures
        texts(r@) == deduped(texts(ordered(fonts@, by_lowercase()))),
{
    let mut sorted: Vec<String> = fonts;
    let mut ranks: Vec<Rank> = Vec::new();
    let mut i: usize = 0;
    while i < sorted.len()
        invariant
            i <= sorted@.len(),
            ranks@.len() == i,
            forall|j: int| 0 <= j < i ==> (#[trigger] ranks@[j])@ == by_lowercase()(sorted@[j]),
        decreases sorted@.len() - i,
    {
        ranks.push(Rank { number: 0, id: to_lower(sorted[i].as_str()) });
        i += 1;
    }
    sort_ranked(&mut sorted, ranks, Ghost(by_lowercase()));
    let ghost names = texts(sorted@);
    let mut r: Vec<String> = Vec::new();
    let mut k: usize = 0;
    assert(texts(r@) =~= deduped(names.take(0)));
    while k < sorted.len()
        invariant
            k <= sorted@.len(),
            names == texts(sorted@),
            texts(r@) == deduped(names.take(k as int)),
        decreases sorted@.len() - k,
    {
        proof {
            let now = names.take(k + 1);
            assert(now.drop_last() =~= names.take(k as int));
            assert(now.last() == sorted@[k as int]@);
            if k > 0 {
                assert(now[now.len() - 2] == sorted@[k - 1]@);
            } else {
                assert(now =~= names.take(0).push(sorted@[0]@));
            }
        }
        if k == 0 || sorted[k] != sorted[k - 1] {
            let ghost had = r@;
            let name: String = sorted[k].clone();
            r.push(name);
            assert(texts(r@) =~= texts(had).push(sorted@[k as int]@));
        }
        k += 1;
    }
    assert(names.take(k as int) =~= names);
    r
}

impl AppearancePage {
    /// The page, with the families that the system reports.
    pub fn new(ui_font: String, code_font: String, installed: Vec<String>) -> (p: AppearancePage)
        ensures
            p.ui_font == ui_font,
            p.code_font == code_font,
            p.open_menu is None,
            p.menu_dismissed_at is None,
            exists|geist: String, mono: String|
                geist@ == "Geist"@ && mono@ == "Geist Mono"@ && texts(p.available_fonts@)
                    == deduped(
                    texts(
                        #[trigger] ordered(
                            installed@.push(geist).push(mono).push(ui_font).push(code_font),
                            by_lowercase(),
                        ),
                    ),
                ),
    {
        let mut fonts: Vec<String> = installed;
        fonts.push("Geist".to_owned());
        fonts.push("Geist Mono".to_owned());
        fonts.push(ui_font.clone());
        fonts.push(code_font.clone());
        let available_fonts: Vec<String> = arrange_fonts(fonts);
        AppearancePage {
            ui_font,
            code_font,
            available_fonts,
            open_menu: None,
            menu_dismissed_at: None,
        }
    }

    /// Whether a family is one for code.
    pub fn is_monospace(name: &str) -> (r: bool)
        ensures
            r == looks_monospace(lowercase(name@)),
    {
        names_monospace(to_lower(name).as_str())
    }

    /// What stands in a field.
    pub fn value(&self, kind: FontKind) -> (s: &str)
        ensures
            s@ == (match kind {
                FontKind::Ui => self.ui_font@,
                FontKind::Code => self.code_font@,
            }),
    {
        match kind {
            FontKind::Ui => self.ui_font.as_str(),
            FontKind::Code => self.code_font.as_str(),
        }
    }

    /// The families that the menu of a role offers for what was typed.
    pub fn matching_fonts(&self, kind: FontKind, query: &str) -> (r: Vec<String>)
        ensures
            texts(r@) == menu_of(texts(self.available_fonts@), kind, query@),
    {
        let typed: String = trim(query);
        let needle: String = to_lower(typed.as_str());
        let ghost p = offered(kind, needle@);
        let ghost names = texts(self.available_fonts@);
        let mut r: Vec<String> = Vec::new();
        let mut i: usize = 0;
        assert(texts(r@) =~= kept(names.take(0), p));
        while i < self.available_fonts.len()
            invariant
                i <= self.available_fonts@.len(),
                names == texts(self.available_fonts@),
                p == offered(kind, needle@),
                texts(r@) == kept(names.take(i as int), p),
            decreases self.available_fonts@.len() - i,
        {
            proof {
                kept_step(names, p, i as int);
                assert(names[i as int] == self.available_fonts@[i as int]@);
            }
            let lower: String = to_lower(self.available_fonts[i].as_str());
            if offers(kind, lower.as_str(), needle.as_str()) {
                let ghost had = r@;
                let name: String = self.available_fonts[i].clone();
                r.push(name);
                assert(texts(r@) =~= texts(had).push(self.available_fonts@[i as int]@));
            }
            i += 1;
        }
        assert(names.take(i as int) =~= names);
        assert(texts(r@).len() == r@.len());
        if r.len() > MENU_FONTS {
            let ghost all = r@;
            r.truncate(MENU_FONTS);
            assert(texts(r@) =~= texts(all).take(MENU_FONTS as int));
        }
        r
    }

    fn changed(&self) -> (e: AppearanceEvent)
        ensures
            e == (AppearanceEvent::Changed {
                ui_font: self.ui_font,
                code_font: self.code_font,
            }),
    {
        AppearanceEvent::Changed {
            ui_font: self.ui_font.clone(),
            code_font: self.code_font.clone(),
        }
    }

    /// The page with another text in a field.
    pub open spec fn typed(self, kind: FontKind, text: String) -> AppearancePage {
        match kind {
            FontKind::Ui => AppearancePage { ui_font: text, ..self },
            FontKind::Code => AppearancePage { code_font: text, ..self },
        }
    }

    fn set_value(&mut self, kind: FontKind, text: String)
        ensures
            *final(self) == old(self).typed(kind, text),
    {
        match kind {
            FontKind::Ui => {
                self.ui_font = text;
            },
            FontKind::Code => {
                self.code_font = text;
            },
        }
    }

    /// A field was edited: its menu opens, and the change is told.
    pub fn on_edited(&mut self, kind: FontKind, text: String) -> (e: AppearanceEvent)
        ensures
            *final(self) == (AppearancePage {
                open_menu: Some(kind),
                ..old(self).typed(kind, text)
            }),
            e == (AppearanceEvent::Changed {
                ui_font: final(self).ui_font,
                code_font: final(self).code_font,
            }),
    {
        self.set_value(kind, text);
        self.open_menu = Some(kind);
        self.changed()
    }

    /// A field was submitted: menus close, and the change is told.
    pub fn on_submitted(&mut self) -> (e: AppearanceEvent)
        ensures
            *final(self) == (AppearancePage { open_menu: None, ..*old(self) }),
            e == (AppearanceEvent::Changed {
                ui_font: final(self).ui_font,
                code_font: final(self).code_font,
            }),
    {
        self.open_menu = None;
        self.changed()
    }

    /// A family was picked from a menu: it is committed and the menu closes.
    pub fn set_font(&mut self, kind: FontKind, font: String) -> (e: AppearanceEvent)
        ensures
            e == (AppearanceEvent::Changed {
                ui_font: final(self).ui_font,
                code_font: final(self).code_font,
            }),
            *final(self) == (AppearancePage {
                open_menu: None,
                menu_dismissed_at: None,
                ..old(self).typed(kind, font)
            }),
    {
        self.set_value(kind, font);
        self.open_menu = None;
        self.menu_dismissed_at = None;
        self.changed()
    }

    /// A click elsewhere closes the menu.
    pub fn dismiss_menu(&mut self, now_ms: u64)
        ensures
            *final(self) == (AppearancePage {
                open_menu: None,
                menu_dismissed_at: Some(now_ms),
                ..*old(self)
            }),
    {
        self.open_menu = None;
        self.menu_dismissed_at = Some(now_ms);
    }

    /// A click on a field's trigger: opens its menu or closes it, unless the
    /// click is the one that just dismissed a menu.
    pub fn toggle_menu(&mut self, kind: FontKind, now_ms: u64)
        ensures
            *final(self) == (if old(self).menu_dismissed_at matches Some(at) && now_ms - at
                < DISMISS_MS {
                AppearancePage { menu_dismissed_at: None, ..*old(self) }
            } else {
                AppearancePage {
                    open_menu: if old(self).open_menu == Some(kind) {
                        None
                    } else {
                        Some(kind)
                    },
                    ..*old(self)
                }
            }),
    {
        let just_dismissed: bool = match self.menu_dismissed_at {
            Some(at) => now_ms < at || now_ms - at < DISMISS_MS,
            None => false,
        };
        if just_dismissed {
            self.menu_dismissed_at = None;
        } else {
            let is_open: bool = match self.open_menu {
                Some(k) => k == kind,
                None => false,
            };
            self.open_menu = if is_open {
                None
            } else {
                Some(kind)
            };
        }
    }
}

}
