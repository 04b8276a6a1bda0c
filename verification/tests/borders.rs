//! Tests for the border-glyph engine.

use bough::output::borders::{
    connections_to_unicode, unicode_to_connections, BorderChar, BorderChars, BorderStyle,
    BorderWeight, Connections, Direction,
};

fn recognized() -> Vec<char> {
    vec![
        ' ', '─', '│', '┌', '┐', '└', '┘', '├', '┤', '┬', '┴', '┼', '━', '┃', '┏', '┓', '┗', '┛',
        '┣', '┫', '┳', '┻', '╋', '═', '║', '╔', '╗', '╚', '╝', '╠', '╣', '╦', '╩', '╬', '┄', '┆',
        '┈', '┊',
    ]
}

fn all_styles() -> Vec<BorderStyle> {
    vec![
        BorderStyle::Solid(BorderWeight::Light),
        BorderStyle::Solid(BorderWeight::Heavy),
        BorderStyle::Solid(BorderWeight::Double),
        BorderStyle::Dashed,
        BorderStyle::Dotted,
    ]
}

fn solid_styles() -> Vec<BorderStyle> {
    vec![
        BorderStyle::Solid(BorderWeight::Light),
        BorderStyle::Solid(BorderWeight::Heavy),
        BorderStyle::Solid(BorderWeight::Double),
    ]
}

#[test]
fn all_recognized_glyphs_round_trip() {
    let glyphs = recognized();
    assert_eq!(glyphs.len(), 38);
    for g in glyphs {
        let connections = unicode_to_connections(g).unwrap();
        assert_eq!(connections_to_unicode(&connections), g);
    }
}

#[test]
fn unrecognized_characters_map_back_to_nothing() {
    for c in ['a', '?', '0', '\n', '·', '╪'] {
        assert_eq!(unicode_to_connections(c), None);
    }
}

#[test]
fn construction_to_glyph_examples() {
    let light = BorderStyle::Solid(BorderWeight::Light);
    assert_eq!(
        connections_to_unicode(&Connections::corner(Direction::Down, Direction::Right, light)),
        '┌'
    );
    assert_eq!(
        connections_to_unicode(&Connections::t_junction(Direction::Right, light)),
        '├'
    );
    assert_eq!(
        connections_to_unicode(&Connections::t_junction(Direction::Up, light)),
        '┴'
    );
    assert_eq!(
        connections_to_unicode(&Connections::cross(BorderStyle::Solid(BorderWeight::Heavy))),
        '╋'
    );
    assert_eq!(
        connections_to_unicode(&Connections::cross(BorderStyle::Solid(BorderWeight::Double))),
        '╬'
    );
    assert_eq!(connections_to_unicode(&Connections::none()), ' ');
}

#[test]
fn t_junction_spans_the_axis_across_its_facing_direction() {
    let light = BorderStyle::Solid(BorderWeight::Light);
    let tee = Connections::t_junction(Direction::Right, light);
    assert_eq!(tee.up, Some(light));
    assert_eq!(tee.down, Some(light));
    assert_eq!(tee.left, None);
    assert_eq!(tee.right, Some(light));
}

#[test]
fn mixed_weights_resolve_to_the_placeholder() {
    let mixed = Connections {
        up: Some(BorderStyle::Solid(BorderWeight::Light)),
        down: Some(BorderStyle::Solid(BorderWeight::Heavy)),
        left: None,
        right: None,
    };
    assert_eq!(connections_to_unicode(&mixed), '?');
}

#[test]
fn irregular_patterns_resolve_to_the_placeholder() {
    let only_up = Connections::none().direction(Direction::Up, Some(BorderStyle::Dotted));
    assert_eq!(connections_to_unicode(&only_up), '?');
}

#[test]
fn straight_runs_round_trip_in_every_style() {
    for style in all_styles() {
        let h = Connections::horizontal(style);
        assert_eq!(unicode_to_connections(connections_to_unicode(&h)), Some(h));
        let v = Connections::vertical(style);
        assert_eq!(unicode_to_connections(connections_to_unicode(&v)), Some(v));
    }
}

#[test]
fn solid_shapes_round_trip() {
    let corners = [
        (Direction::Down, Direction::Right),
        (Direction::Down, Direction::Left),
        (Direction::Up, Direction::Right),
        (Direction::Up, Direction::Left),
    ];
    let facings = [Direction::Up, Direction::Down, Direction::Left, Direction::Right];
    for style in solid_styles() {
        for (d1, d2) in corners {
            let c = Connections::corner(d1, d2, style);
            assert_eq!(unicode_to_connections(connections_to_unicode(&c)), Some(c));
        }
        for f in facings {
            let t = Connections::t_junction(f, style);
            assert_eq!(unicode_to_connections(connections_to_unicode(&t)), Some(t));
        }
        let x = Connections::cross(style);
        assert_eq!(unicode_to_connections(connections_to_unicode(&x)), Some(x));
    }
}

#[test]
fn dashed_corners_lie_outside_the_catalog() {
    let c = Connections::corner(Direction::Down, Direction::Right, BorderStyle::Dashed);
    assert_eq!(connections_to_unicode(&c), '?');
}

#[test]
fn direction_accessors() {
    let light = BorderStyle::Solid(BorderWeight::Light);
    let mut c = Connections::none();
    assert!(!c.has_connections());
    assert_eq!(c.connection_count(), 0);
    c.set_direction(Direction::Left, Some(light));
    assert_eq!(c.get_direction(Direction::Left), Some(light));
    assert_eq!(c.get_direction(Direction::Right), None);
    assert!(c.has_connections());
    assert_eq!(c.connection_count(), 1);
    let full = Connections::cross(light);
    assert_eq!(full.connection_count(), 4);
}

#[test]
fn border_char_pairs_descriptor_and_character() {
    let light = BorderStyle::Solid(BorderWeight::Light);
    let bc = BorderChar::new(Connections::horizontal(light));
    assert_eq!(bc.unicode, '─');
    assert_eq!(bc.connections, Connections::horizontal(light));

    let back = BorderChar::from_char('┗').unwrap();
    assert_eq!(back.unicode, '┗');
    assert_eq!(
        back.connections,
        Connections::corner(
            Direction::Up,
            Direction::Right,
            BorderStyle::Solid(BorderWeight::Heavy)
        )
    );
    assert!(BorderChar::from_char('z').is_none());
}

#[test]
fn border_chars_build_whole_frames() {
    let light = BorderChars::light();
    assert_eq!(light.top_left.unicode, '┌');
    assert_eq!(light.top.unicode, '─');
    assert_eq!(light.top_right.unicode, '┐');
    assert_eq!(light.left.unicode, '│');
    assert_eq!(light.right.unicode, '│');
    assert_eq!(light.bottom_left.unicode, '└');
    assert_eq!(light.bottom.unicode, '─');
    assert_eq!(light.bottom_right.unicode, '┘');

    assert_eq!(BorderChars::heavy().top_left.unicode, '┏');
    assert_eq!(BorderChars::double().bottom_right.unicode, '╝');

    // Dashed frames have straight runs in the catalog, but no dashed
    // corners: those resolve to the placeholder.
    let dashed = BorderChars::dashed();
    assert_eq!(dashed.top.unicode, '┄');
    assert_eq!(dashed.left.unicode, '┆');
    assert_eq!(dashed.top_left.unicode, '?');
}
