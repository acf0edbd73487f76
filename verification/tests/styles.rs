use ansi_term::Colour;
use file_icons::{iconify_style, Style};

fn plain() -> Style {
    Style {
        foreground: None,
        background: None,
        is_bold: false,
        is_dimmed: false,
        is_italic: false,
        is_underline: false,
        is_blink: false,
        is_reverse: false,
        is_hidden: false,
        is_strikethrough: false,
    }
}

fn with_every_attribute(style: Style) -> Style {
    Style {
        is_bold: true,
        is_dimmed: true,
        is_italic: true,
        is_underline: true,
        is_blink: true,
        is_reverse: true,
        is_hidden: true,
        is_strikethrough: true,
        ..style
    }
}

fn colours() -> Vec<Colour> {
    vec![
        Colour::Black,
        Colour::Red,
        Colour::Green,
        Colour::Yellow,
        Colour::Blue,
        Colour::Purple,
        Colour::Cyan,
        Colour::White,
        Colour::Fixed(0),
        Colour::Fixed(244),
        Colour::Fixed(255),
        Colour::RGB(0, 0, 0),
        Colour::RGB(31, 63, 127),
        Colour::RGB(255, 255, 255),
    ]
}

#[test]
fn the_background_becomes_the_colour_of_the_icon() {
    let name = Style { foreground: Some(Colour::Red), background: Some(Colour::Blue), ..plain() };
    let icon = iconify_style(name);
    assert_eq!(icon, Style { foreground: Some(Colour::Blue), ..plain() });
}

#[test]
fn a_background_alone_becomes_the_colour_of_the_icon() {
    let name = Style { background: Some(Colour::Yellow), ..plain() };
    assert_eq!(iconify_style(name), Style { foreground: Some(Colour::Yellow), ..plain() });
}

#[test]
fn the_foreground_is_kept_where_there_is_no_background() {
    let name = Style { foreground: Some(Colour::Green), ..plain() };
    assert_eq!(iconify_style(name), Style { foreground: Some(Colour::Green), ..plain() });
}

#[test]
fn no_colour_gives_the_default_style() {
    assert_eq!(iconify_style(plain()), plain());
    assert_eq!(iconify_style(with_every_attribute(plain())), plain());
}

#[test]
fn the_default_style_is_that_of_ansi_term() {
    let icon = iconify_style(plain());
    let theirs = ansi_term::Style::default();
    assert_eq!(icon.foreground, theirs.foreground);
    assert_eq!(icon.background, theirs.background);
    assert_eq!(icon.is_bold, theirs.is_bold);
    assert_eq!(icon.is_dimmed, theirs.is_dimmed);
    assert_eq!(icon.is_italic, theirs.is_italic);
    assert_eq!(icon.is_underline, theirs.is_underline);
    assert_eq!(icon.is_blink, theirs.is_blink);
    assert_eq!(icon.is_reverse, theirs.is_reverse);
    assert_eq!(icon.is_hidden, theirs.is_hidden);
    assert_eq!(icon.is_strikethrough, theirs.is_strikethrough);
}

#[test]
fn attributes_never_reach_the_icon() {
    for colour in colours() {
        let on_background = with_every_attribute(Style { background: Some(colour), ..plain() });
        assert_eq!(iconify_style(on_background), Style { foreground: Some(colour), ..plain() });
        let on_foreground = with_every_attribute(Style { foreground: Some(colour), ..plain() });
        assert_eq!(iconify_style(on_foreground), Style { foreground: Some(colour), ..plain() });
    }
}

#[test]
fn each_attribute_alone_is_dropped() {
    let name = Style { foreground: Some(Colour::Cyan), ..plain() };
    let expected = Style { foreground: Some(Colour::Cyan), ..plain() };
    assert_eq!(iconify_style(Style { is_bold: true, ..name }), expected);
    assert_eq!(iconify_style(Style { is_dimmed: true, ..name }), expected);
    assert_eq!(iconify_style(Style { is_italic: true, ..name }), expected);
    assert_eq!(iconify_style(Style { is_underline: true, ..name }), expected);
    assert_eq!(iconify_style(Style { is_blink: true, ..name }), expected);
    assert_eq!(iconify_style(Style { is_reverse: true, ..name }), expected);
    assert_eq!(iconify_style(Style { is_hidden: true, ..name }), expected);
    assert_eq!(iconify_style(Style { is_strikethrough: true, ..name }), expected);
}

#[test]
fn every_pair_of_colours_gives_the_background() {
    for foreground in colours() {
        for background in colours() {
            let name = Style {
                foreground: Some(foreground),
                background: Some(background),
                ..plain()
            };
            let icon = iconify_style(name);
            assert_eq!(icon.foreground, Some(background));
            assert_eq!(icon.background, None);
        }
    }
}

#[test]
fn the_icon_has_no_background_of_its_own() {
    let name = Style { foreground: Some(Colour::White), background: Some(Colour::Red), ..plain() };
    assert_eq!(iconify_style(name).background, None);
    assert_eq!(iconify_style(Style { background: Some(Colour::Red), ..plain() }).background, None);
    assert_eq!(iconify_style(Style { foreground: Some(Colour::Red), ..plain() }).background, None);
    assert_eq!(iconify_style(plain()).background, None);
}

#[test]
fn the_icon_style_is_what_ansi_term_makes_of_the_colour() {
    for colour in colours() {
        let icon = iconify_style(Style { background: Some(colour), is_bold: true, ..plain() });
        let theirs = ansi_term::Style::from(colour);
        assert_eq!(icon.foreground, theirs.foreground);
        assert_eq!(icon.background, theirs.background);
        assert_eq!(icon.is_bold, theirs.is_bold);
        assert_eq!(icon.is_underline, theirs.is_underline);
    }
}

#[test]
fn asking_twice_gives_the_same_style() {
    let name = with_every_attribute(Style {
        foreground: Some(Colour::Fixed(244)),
        background: Some(Colour::RGB(1, 2, 3)),
        ..plain()
    });
    let first = iconify_style(name);
    let second = iconify_style(name);
    assert_eq!(first, second);
}

#[test]
fn the_style_of_an_icon_is_its_own_icon_style() {
    for colour in colours() {
        let name = with_every_attribute(Style {
            foreground: Some(Colour::Purple),
            background: Some(colour),
            ..plain()
        });
        let once = iconify_style(name);
        assert_eq!(iconify_style(once), once);
    }
    assert_eq!(iconify_style(iconify_style(plain())), iconify_style(plain()));
}
