use oplpages::contact::Context;
use oplpages::contact::Locale;
use oplpages::contact::Translations;
use oplpages::contact::WeightUnits;

fn locale() -> Locale {
    Locale {
        language: "de".to_string(),
        strings: Translations {
            header_contact: "Kontakt".to_string(),
            html_header_description: "Die Datenbank".to_string(),
        },
        units: WeightUnits::Kg,
    }
}

#[test]
fn context_copies_every_field_from_the_locale() {
    let ctx = Context::new(&locale());
    assert_eq!(ctx.urlprefix, "/");
    assert_eq!(ctx.page_title, "Kontakt");
    assert_eq!(ctx.page_description, "Die Datenbank");
    assert_eq!(ctx.language, "de");
    assert_eq!(ctx.strings.header_contact, "Kontakt");
    assert_eq!(ctx.strings.html_header_description, "Die Datenbank");
    assert_eq!(ctx.units, WeightUnits::Kg);
}

#[test]
fn context_construction_is_deterministic() {
    let l = locale();
    let a = Context::new(&l);
    let b = Context::new(&l);
    assert_eq!(a, b);
}

#[test]
fn context_keeps_the_pound_preference() {
    let mut l = locale();
    l.language = "en".to_string();
    l.units = WeightUnits::Lbs;
    let ctx = Context::new(&l);
    assert_eq!(ctx.language, "en");
    assert_eq!(ctx.units, WeightUnits::Lbs);
}
