//! The contact page: building a render-ready context from a locale.
//!
//! This is a pure transformation with no branching and no failure modes: a
//! missing translation would be a data-integrity defect in the translation
//! table, not a runtime condition this layer handles. The locale itself is
//! resolved by the surrounding server; only the plain values the page reads
//! from it are modeled here.

use vstd::prelude::*;

verus! {

/// The measurement units a locale prefers for display.
#[derive(Debug, Clone, Copy, PartialEq, Eq, Structural)]
pub enum WeightUnits {
    /// Kilograms.
    Kg,
    /// Pounds.
    Lbs,
}

/// The localized strings the contact page reads out of a locale's
/// translation table. The full table belongs to the translation machinery;
/// this layer carries the entries the page's template consumes.
#[derive(Debug, PartialEq, Eq)]
pub struct Translations {
    /// The header's label for the contact page, used as the page title.
    pub header_contact: String,
    /// The site description placed in the HTML header.
    pub html_header_description: String,
}

/// A resolved locale: the language tag, its translation strings, and the
/// unit-system preference.
#[derive(Debug, PartialEq, Eq)]
pub struct Locale {
    /// The language tag, e.g. "en" or "de".
    pub language: String,
    /// The translation strings for that language.
    pub strings: Translations,
    /// The unit system the locale displays weights in.
    pub units: WeightUnits,
}

/// The context the contact-page template is rendered with; constructed
/// fresh per request from a locale and never mutated afterwards.
#[derive(Debug, PartialEq, Eq)]
pub struct Context {
    /// The URL prefix every link on the page is built under.
    pub urlprefix: &'static str,
    /// The localized page title.
    pub page_title: String,
    /// The localized page description for the HTML header.
    pub page_description: String,
    /// The locale's language tag.
    pub language: String,
    /// The locale's translation strings, passed through for the template.
    pub strings: Translations,
    /// The locale's unit-system preference.
    pub units: WeightUnits,
}

/// What [`Context::new`] promises of its result: every field is pinned,
/// field for field, by the locale alone.
pub open spec fn context_matches(c: Context, locale: Locale) -> bool {
    &&& c.urlprefix@ == "/"@
    &&& c.page_title@ == locale.strings.header_contact@
    &&& c.page_description@ == locale.strings.html_header_description@
    &&& c.language@ == locale.language@
    &&& c.strings.header_contact@ == locale.strings.header_contact@
    &&& c.strings.html_header_description@ == locale.strings.html_header_description@
    &&& c.units == locale.units
}

impl Context {
    /// Builds the render context for the contact page: a constant URL
    /// prefix, the two localized strings the template reads, and the
    /// locale's language and units copied by value.
    pub fn new(locale: &Locale) -> (c: Context)
        ensures
            context_matches(c, *locale),
    {
        Context {
            urlprefix: "/",
            page_title: locale.strings.header_contact.clone(),
            page_description: locale.strings.html_header_description.clone(),
            language: locale.language.clone(),
            strings: Translations {
                header_contact: locale.strings.header_contact.clone(),
                html_header_description: locale.strings.html_header_description.clone(),
            },
            units: locale.units,
        }
    }
}

/// Context construction is deterministic: any two contexts that satisfy
/// [`Context::new`]'s contract for equal locales agree on every field the
/// template reads. There is no hidden state to diverge on.
pub proof fn lemma_context_new_deterministic(c1: Context, c2: Context, l1: Locale, l2: Locale)
    requires
        l1 == l2,
        context_matches(c1, l1),
        context_matches(c2, l2),
    ensures
        c1.urlprefix@ == c2.urlprefix@,
        c1.page_title@ == c2.page_title@,
        c1.page_description@ == c2.page_description@,
        c1.language@ == c2.language@,
        c1.strings.header_contact@ == c2.strings.header_contact@,
        c1.strings.html_header_description@ == c2.strings.html_header_description@,
        c1.units == c2.units,
{
}

} // verus!
