use snowcap::font::{Family, Font, Stretch, Style, Weight};

#[test]
fn default_font_is_normal_sans_serif() {
    let f = Font::new();
    assert_eq!(f.family, Family::SansSerif);
    assert_eq!(f.weight, Weight::Normal);
    assert_eq!(f.stretch, Stretch::Normal);
    assert_eq!(f.style, Style::Normal);
    assert_eq!(f, Font::default());
}

#[test]
fn font_builders_set_one_field() {
    let f = Font::new_with_family(Family::Name("Iosevka".to_string()))
        .weight(Weight::Bold)
        .stretch(Stretch::Condensed)
        .style(Style::Italic);
    assert_eq!(f.family, Family::Name("Iosevka".to_string()));
    assert_eq!(f.weight, Weight::Bold);
    assert_eq!(f.stretch, Stretch::Condensed);
    assert_eq!(f.style, Style::Italic);
    let g = f.family(Family::Monospace);
    assert_eq!(g.family, Family::Monospace);
    assert_eq!(g.weight, Weight::Bold);
}
