//! Four-directional connection descriptors and their mapping to and from
//! Unicode box-drawing characters.
//!
//! A [`Connections`] value records which border line segments meet at a
//! rendered position and with which [`BorderStyle`]. [`connections_to_unicode`]
//! resolves a descriptor against a fixed catalog of recognized shapes, falling
//! back to a placeholder character for unrecognized combinations, and
//! [`unicode_to_connections`] is the exact inverse lookup over the recognized
//! characters.

use vstd::prelude::*;

use self::BorderStyle::{Dashed, Dotted, Solid};
use self::BorderWeight::{Double, Heavy, Light};

verus! {

/// Weight of a solid border line.
#[derive(Debug, Clone, Copy, PartialEq, Eq, Hash)]
pub enum BorderWeight {
    Light,
    Heavy,
    Double,
}

/// Visual treatment of a single border line segment: solid at one of three
/// weights, or a non-solid pattern.
#[derive(Debug, Clone, Copy, PartialEq, Eq, Hash)]
pub enum BorderStyle {
    Solid(BorderWeight),
    Dashed,
    Dotted,
}

/// One of the four directions in which a line segment can leave a cell.
#[derive(Debug, Clone, Copy, PartialEq, Eq, Hash)]
pub enum Direction {
    Up,
    Down,
    Left,
    Right,
}

/// Which border line segments meet at a rendered position: one optional
/// styled segment per direction.
#[derive(Debug, Default, Clone, Copy, PartialEq, Eq, Hash)]
pub struct Connections {
    pub up: Option<BorderStyle>,
    pub down: Option<BorderStyle>,
    pub left: Option<BorderStyle>,
    pub right: Option<BorderStyle>,
}

/// The direction opposite to `d`.
pub open spec fn opposite_of(d: Direction) -> Direction {
    match d {
        Direction::Up => Direction::Down,
        Direction::Down => Direction::Up,
        Direction::Left => Direction::Right,
        Direction::Right => Direction::Left,
    }
}

/// Two distinct, non-opposite directions: the pairs that form a corner.
pub open spec fn adjacent(d1: Direction, d2: Direction) -> bool {
    d1 != d2 && d2 != opposite_of(d1)
}

/// The descriptor with no connections at all.
pub open spec fn none_spec() -> Connections {
    Connections { up: None, down: None, left: None, right: None }
}

/// `c` with the segment in direction `d` replaced by `s`.
pub open spec fn with_direction(c: Connections, d: Direction, s: Option<BorderStyle>) -> Connections {
    match d {
        Direction::Up => Connections { up: s, ..c },
        Direction::Down => Connections { down: s, ..c },
        Direction::Left => Connections { left: s, ..c },
        Direction::Right => Connections { right: s, ..c },
    }
}

/// The segment of `c` in direction `d`.
pub open spec fn direction_of(c: Connections, d: Direction) -> Option<BorderStyle> {
    match d {
        Direction::Up => c.up,
        Direction::Down => c.down,
        Direction::Left => c.left,
        Direction::Right => c.right,
    }
}

/// A straight horizontal run in the given style.
pub open spec fn horizontal_spec(style: BorderStyle) -> Connections {
    Connections { up: None, down: None, left: Some(style), right: Some(style) }
}

/// A straight vertical run in the given style.
pub open spec fn vertical_spec(style: BorderStyle) -> Connections {
    Connections { up: Some(style), down: Some(style), left: None, right: None }
}

/// A corner joining the two given directions in the given style.
pub open spec fn corner_spec(dir1: Direction, dir2: Direction, style: BorderStyle) -> Connections {
    with_direction(with_direction(none_spec(), dir1, Some(style)), dir2, Some(style))
}

/// A T-junction open towards `main_dir`: the three sides excluding the
/// direction opposite `main_dir`.
pub open spec fn t_junction_spec(main_dir: Direction, style: BorderStyle) -> Connections {
    match main_dir {
        Direction::Up => Connections {
            up: Some(style),
            down: None,
            left: Some(style),
            right: Some(style),
        },
        Direction::Down => Connections {
            up: None,
            down: Some(style),
            left: Some(style),
            right: Some(style),
        },
        Direction::Left => Connections {
            up: Some(style),
            down: Some(style),
            left: Some(style),
            right: None,
        },
        Direction::Right => Connections {
            up: Some(style),
            down: Some(style),
            left: None,
            right: Some(style),
        },
    }
}

/// All four sides connected in the given style.
pub open spec fn cross_spec(style: BorderStyle) -> Connections {
    Connections { up: Some(style), down: Some(style), left: Some(style), right: Some(style) }
}

/// The number of directions of `c` that carry a segment.
pub open spec fn connection_count_spec(c: Connections) -> int {
    (if c.up is Some { 1int } else { 0int })
        + (if c.down is Some { 1int } else { 0int })
        + (if c.left is Some { 1int } else { 0int })
        + (if c.right is Some { 1int } else { 0int })
}

/// The character that stands in for any descriptor outside the recognized
/// catalog.
pub open spec fn placeholder_char() -> char {
    '?'
}

/// The fixed catalog, read forwards: the box-drawing character for each of
/// the recognized shapes (a blank for the empty descriptor), and the
/// placeholder for everything else. Total over all descriptors.
pub open spec fn glyph_of(c: Connections) -> char {
    match (c.up, c.down, c.left, c.right) {
        (None, None, None, None) => ' ',
        // Light lines
        (None, None, Some(Solid(Light)), Some(Solid(Light))) => '─',
        (Some(Solid(Light)), Some(Solid(Light)), None, None) => '│',
        (None, Some(Solid(Light)), None, Some(Solid(Light))) => '┌',
        (None, Some(Solid(Light)), Some(Solid(Light)), None) => '┐',
        (Some(Solid(Light)), None, None, Some(Solid(Light))) => '└',
        (Some(Solid(Light)), None, Some(Solid(Light)), None) => '┘',
        (Some(Solid(Light)), Some(Solid(Light)), None, Some(Solid(Light))) => '├',
        (Some(Solid(Light)), Some(Solid(Light)), Some(Solid(Light)), None) => '┤',
        (None, Some(Solid(Light)), Some(Solid(Light)), Some(Solid(Light))) => '┬',
        (Some(Solid(Light)), None, Some(Solid(Light)), Some(Solid(Light))) => '┴',
        (Some(Solid(Light)), Some(Solid(Light)), Some(Solid(Light)), Some(Solid(Light))) => '┼',
        // Heavy lines
        (None, None, Some(Solid(Heavy)), Some(Solid(Heavy))) => '━',
        (Some(Solid(Heavy)), Some(Solid(Heavy)), None, None) => '┃',
        (None, Some(Solid(Heavy)), None, Some(Solid(Heavy))) => '┏',
        (None, Some(Solid(Heavy)), Some(Solid(Heavy)), None) => '┓',
        (Some(Solid(Heavy)), None, None, Some(Solid(Heavy))) => '┗',
        (Some(Solid(Heavy)), None, Some(Solid(Heavy)), None) => '┛',
        (Some(Solid(Heavy)), Some(Solid(Heavy)), None, Some(Solid(Heavy))) => '┣',
        (Some(Solid(Heavy)), Some(Solid(Heavy)), Some(Solid(Heavy)), None) => '┫',
        (None, Some(Solid(Heavy)), Some(Solid(Heavy)), Some(Solid(Heavy))) => '┳',
        (Some(Solid(Heavy)), None, Some(Solid(Heavy)), Some(Solid(Heavy))) => '┻',
        (Some(Solid(Heavy)), Some(Solid(Heavy)), Some(Solid(Heavy)), Some(Solid(Heavy))) => '╋',
        // Double lines
        (None, None, Some(Solid(Double)), Some(Solid(Double))) => '═',
        (Some(Solid(Double)), Some(Solid(Double)), None, None) => '║',
        (None, Some(Solid(Double)), None, Some(Solid(Double))) => '╔',
        (None, Some(Solid(Double)), Some(Solid(Double)), None) => '╗',
        (Some(Solid(Double)), None, None, Some(Solid(Double))) => '╚',
        (Some(Solid(Double)), None, Some(Solid(Double)), None) => '╝',
        (Some(Solid(Double)), Some(Solid(Double)), None, Some(Solid(Double))) => '╠',
        (Some(Solid(Double)), Some(Solid(Double)), Some(Solid(Double)), None) => '╣',
        (None, Some(Solid(Double)), Some(Solid(Double)), Some(Solid(Double))) => '╦',
        (Some(Solid(Double)), None, Some(Solid(Double)), Some(Solid(Double))) => '╩',
        (Some(Solid(Double)), Some(Solid(Double)), Some(Solid(Double)), Some(Solid(Double))) => '╬',
        // Dashed and dotted straight runs
        (None, None, Some(Dashed), Some(Dashed)) => '┄',
        (Some(Dashed), Some(Dashed), None, None) => '┆',
        (None, None, Some(Dotted), Some(Dotted)) => '┈',
        (Some(Dotted), Some(Dotted), None, None) => '┊',
        _ => placeholder_char(),
    }
}

/// The fixed catalog, read backwards: the descriptor for each of the
/// recognized characters, and `None` for every other character.
pub open spec fn connections_of(ch: char) -> Option<Connections> {
    match ch {
        ' ' => Some(none_spec()),
        // Light lines
        '─' => Some(horizontal_spec(Solid(Light))),
        '│' => Some(vertical_spec(Solid(Light))),
        '┌' => Some(corner_spec(Direction::Down, Direction::Right, Solid(Light))),
        '┐' => Some(corner_spec(Direction::Down, Direction::Left, Solid(Light))),
        '└' => Some(corner_spec(Direction::Up, Direction::Right, Solid(Light))),
        '┘' => Some(corner_spec(Direction::Up, Direction::Left, Solid(Light))),
        '├' => Some(t_junction_spec(Direction::Right, Solid(Light))),
        '┤' => Some(t_junction_spec(Direction::Left, Solid(Light))),
        '┬' => Some(t_junction_spec(Direction::Down, Solid(Light))),
        '┴' => Some(t_junction_spec(Direction::Up, Solid(Light))),
        '┼' => Some(cross_spec(Solid(Light))),
        // Heavy lines
        '━' => Some(horizontal_spec(Solid(Heavy))),
        '┃' => Some(vertical_spec(Solid(Heavy))),
        '┏' => Some(corner_spec(Direction::Down, Direction::Right, Solid(Heavy))),
        '┓' => Some(corner_spec(Direction::Down, Direction::Left, Solid(Heavy))),
        '┗' => Some(corner_spec(Direction::Up, Direction::Right, Solid(Heavy))),
        '┛' => Some(corner_spec(Direction::Up, Direction::Left, Solid(Heavy))),
        '┣' => Some(t_junction_spec(Direction::Right, Solid(Heavy))),
        '┫' => Some(t_junction_spec(Direction::Left, Solid(Heavy))),
        '┳' => Some(t_junction_spec(Direction::Down, Solid(Heavy))),
        '┻' => Some(t_junction_spec(Direction::Up, Solid(Heavy))),
        '╋' => Some(cross_spec(Solid(Heavy))),
        // Double lines
        '═' => Some(horizontal_spec(Solid(Double))),
        '║' => Some(vertical_spec(Solid(Double))),
        '╔' => Some(corner_spec(Direction::Down, Direction::Right, Solid(Double))),
        '╗' => Some(corner_spec(Direction::Down, Direction::Left, Solid(Double))),
        '╚' => Some(corner_spec(Direction::Up, Direction::Right, Solid(Double))),
        '╝' => Some(corner_spec(Direction::Up, Direction::Left, Solid(Double))),
        '╠' => Some(t_junction_spec(Direction::Right, Solid(Double))),
        '╣' => Some(t_junction_spec(Direction::Left, Solid(Double))),
        '╦' => Some(t_junction_spec(Direction::Down, Solid(Double))),
        '╩' => Some(t_junction_spec(Direction::Up, Solid(Double))),
        '╬' => Some(cross_spec(Solid(Double))),
        // Dashed and dotted straight runs
        '┄' => Some(horizontal_spec(Dashed)),
        '┆' => Some(vertical_spec(Dashed)),
        '┈' => Some(horizontal_spec(Dotted)),
        '┊' => Some(vertical_spec(Dotted)),
        _ => None,
    }
}

impl Connections {
    /// The empty descriptor: no connections in any direction.
    pub fn none() -> (r: Self)
        ensures
            r == none_spec(),
    {
        Self { up: None, down: None, left: None, right: None }
    }

    /// A straight horizontal run in the given style.
    pub fn horizontal(style: BorderStyle) -> (r: Self)
        ensures
            r == horizontal_spec(style),
    {
        Self { up: None, down: None, left: Some(style), right: Some(style) }
    }

    /// A straight vertical run in the given style.
    pub fn vertical(style: BorderStyle) -> (r: Self)
        ensures
            r == vertical_spec(style),
    {
        Self { up: Some(style), down: Some(style), left: None, right: None }
    }

    /// A corner joining two adjacent (distinct, non-opposite) directions.
    pub fn corner(dir1: Direction, dir2: Direction, style: BorderStyle) -> (r: Self)
        requires
            adjacent(dir1, dir2),
        ensures
            r == corner_spec(dir1, dir2, style),
    {
        Self::none().direction(dir1, Some(style)).direction(dir2, Some(style))
    }

    /// A T-junction open towards `main_dir`: connects the three sides other
    /// than the direction opposite `main_dir`.
    pub fn t_junction(main_dir: Direction, style: BorderStyle) -> (r: Self)
        ensures
            r == t_junction_spec(main_dir, style),
    {
        let mut connections = Self::none();
        match main_dir {
            Direction::Up => {
                connections.up = Some(style);
                connections.left = Some(style);
                connections.right = Some(style);
            },
            Direction::Down => {
                connections.down = Some(style);
                connections.left = Some(style);
                connections.right = Some(style);
            },
            Direction::Left => {
                connections.left = Some(style);
                connections.up = Some(style);
                connections.down = Some(style);
            },
            Direction::Right => {
                connections.right = Some(style);
                connections.up = Some(style);
                connections.down = Some(style);
            },
        }
        connections
    }

    /// All four sides connected in the given style.
    pub fn cross(style: BorderStyle) -> (r: Self)
        ensures
            r == cross_spec(style),
    {
        Self { up: Some(style), down: Some(style), right: Some(style), left: Some(style) }
    }

    /// The connector column for a tree row: a tee while further siblings
    /// follow below the node, a corner at the last child.
    pub fn branch(style: BorderStyle, has_sibling_below: bool) -> (r: Self)
        ensures
            r == if has_sibling_below {
                t_junction_spec(Direction::Right, style)
            } else {
                corner_spec(Direction::Up, Direction::Right, style)
            },
    {
        if has_sibling_below {
            Self::t_junction(Direction::Right, style)
        } else {
            Self::corner(Direction::Up, Direction::Right, style)
        }
    }

    /// Builder form of [`Self::set_direction`].
    pub fn direction(self, direction: Direction, style: Option<BorderStyle>) -> (r: Self)
        ensures
            r == with_direction(self, direction, style),
    {
        let mut updated = self;
        updated.set_direction(direction, style);
        updated
    }

    /// Set the connection in one direction.
    pub fn set_direction(&mut self, direction: Direction, style: Option<BorderStyle>)
        ensures
            *final(self) == with_direction(*old(self), direction, style),
    {
        match direction {
            Direction::Up => self.up = style,
            Direction::Down => self.down = style,
            Direction::Left => self.left = style,
            Direction::Right => self.right = style,
        }
    }

    /// Read the connection in one direction.
    pub fn get_direction(&self, direction: Direction) -> (r: Option<BorderStyle>)
        ensures
            r == direction_of(*self, direction),
    {
        match direction {
            Direction::Up => self.up,
            Direction::Down => self.down,
            Direction::Left => self.left,
            Direction::Right => self.right,
        }
    }

    /// Whether any direction carries a segment.
    pub fn has_connections(&self) -> (r: bool)
        ensures
            r == (connection_count_spec(*self) != 0),
    {
        self.up.is_some() || self.down.is_some() || self.left.is_some() || self.right.is_some()
    }

    /// The number of directions that carry a segment.
    pub fn connection_count(&self) -> (r: usize)
        ensures
            r == connection_count_spec(*self),
    {
        let mut count: usize = 0;
        if self.up.is_some() {
            count += 1;
        }
        if self.down.is_some() {
            count += 1;
        }
        if self.left.is_some() {
            count += 1;
        }
        if self.right.is_some() {
            count += 1;
        }
        count
    }
}

/// Resolve a descriptor against the catalog. Any descriptor outside the 38
/// recognized shapes (including any mix of two different styles) yields the
/// placeholder character; resolution never fails.
pub fn connections_to_unicode(connections: &Connections) -> (r: char)
    ensures
        r == glyph_of(*connections),
{
    match (connections.up, connections.down, connections.left, connections.right) {
        (None, None, None, None) => ' ',
        // Light lines
        (None, None, Some(Solid(Light)), Some(Solid(Light))) => '─',
        (Some(Solid(Light)), Some(Solid(Light)), None, None) => '│',
        (None, Some(Solid(Light)), None, Some(Solid(Light))) => '┌',
        (None, Some(Solid(Light)), Some(Solid(Light)), None) => '┐',
        (Some(Solid(Light)), None, None, Some(Solid(Light))) => '└',
        (Some(Solid(Light)), None, Some(Solid(Light)), None) => '┘',
        (Some(Solid(Light)), Some(Solid(Light)), None, Some(Solid(Light))) => '├',
        (Some(Solid(Light)), Some(Solid(Light)), Some(Solid(Light)), None) => '┤',
        (None, Some(Solid(Light)), Some(Solid(Light)), Some(Solid(Light))) => '┬',
        (Some(Solid(Light)), None, Some(Solid(Light)), Some(Solid(Light))) => '┴',
        (Some(Solid(Light)), Some(Solid(Light)), Some(Solid(Light)), Some(Solid(Light))) => '┼',
        // Heavy lines
        (None, None, Some(Solid(Heavy)), Some(Solid(Heavy))) => '━',
        (Some(Solid(Heavy)), Some(Solid(Heavy)), None, None) => '┃',
        (None, Some(Solid(Heavy)), None, Some(Solid(Heavy))) => '┏',
        (None, Some(Solid(Heavy)), Some(Solid(Heavy)), None) => '┓',
        (Some(Solid(Heavy)), None, None, Some(Solid(Heavy))) => '┗',
        (Some(Solid(Heavy)), None, Some(Solid(Heavy)), None) => '┛',
        (Some(Solid(Heavy)), Some(Solid(Heavy)), None, Some(Solid(Heavy))) => '┣',
        (Some(Solid(Heavy)), Some(Solid(Heavy)), Some(Solid(Heavy)), None) => '┫',
        (None, Some(Solid(Heavy)), Some(Solid(Heavy)), Some(Solid(Heavy))) => '┳',
        (Some(Solid(Heavy)), None, Some(Solid(Heavy)), Some(Solid(Heavy))) => '┻',
        (Some(Solid(Heavy)), Some(Solid(Heavy)), Some(Solid(Heavy)), Some(Solid(Heavy))) => '╋',
        // Double lines
        (None, None, Some(Solid(Double)), Some(Solid(Double))) => '═',
        (Some(Solid(Double)), Some(Solid(Double)), None, None) => '║',
        (None, Some(Solid(Double)), None, Some(Solid(Double))) => '╔',
        (None, Some(Solid(Double)), Some(Solid(Double)), None) => '╗',
        (Some(Solid(Double)), None, None, Some(Solid(Double))) => '╚',
        (Some(Solid(Double)), None, Some(Solid(Double)), None) => '╝',
        (Some(Solid(Double)), Some(Solid(Double)), None, Some(Solid(Double))) => '╠',
        (Some(Solid(Double)), Some(Solid(Double)), Some(Solid(Double)), None) => '╣',
        (None, Some(Solid(Double)), Some(Solid(Double)), Some(Solid(Double))) => '╦',
        (Some(Solid(Double)), None, Some(Solid(Double)), Some(Solid(Double))) => '╩',
        (Some(Solid(Double)), Some(Solid(Double)), Some(Solid(Double)), Some(Solid(Double))) => '╬',
        // Dashed and dotted straight runs
        (None, None, Some(Dashed), Some(Dashed)) => '┄',
        (Some(Dashed), Some(Dashed), None, None) => '┆',
        (None, None, Some(Dotted), Some(Dotted)) => '┈',
        (Some(Dotted), Some(Dotted), None, None) => '┊',
        _ => '?',
    }
}

/// Inverse lookup: the descriptor a recognized character stands for, `None`
/// for any other character.
pub fn unicode_to_connections(c: char) -> (r: Option<Connections>)
    ensures
        r == connections_of(c),
{
    match c {
        ' ' => Some(Connections::none()),
        // Light lines
        '─' => Some(Connections::horizontal(Solid(Light))),
        '│' => Some(Connections::vertical(Solid(Light))),
        '┌' => Some(Connections::corner(Direction::Down, Direction::Right, Solid(Light))),
        '┐' => Some(Connections::corner(Direction::Down, Direction::Left, Solid(Light))),
        '└' => Some(Connections::corner(Direction::Up, Direction::Right, Solid(Light))),
        '┘' => Some(Connections::corner(Direction::Up, Direction::Left, Solid(Light))),
        '├' => Some(Connections::t_junction(Direction::Right, Solid(Light))),
        '┤' => Some(Connections::t_junction(Direction::Left, Solid(Light))),
        '┬' => Some(Connections::t_junction(Direction::Down, Solid(Light))),
        '┴' => Some(Connections::t_junction(Direction::Up, Solid(Light))),
        '┼' => Some(Connections::cross(Solid(Light))),
        // Heavy lines
        '━' => Some(Connections::horizontal(Solid(Heavy))),
        '┃' => Some(Connections::vertical(Solid(Heavy))),
        '┏' => Some(Connections::corner(Direction::Down, Direction::Right, Solid(Heavy))),
        '┓' => Some(Connections::corner(Direction::Down, Direction::Left, Solid(Heavy))),
        '┗' => Some(Connections::corner(Direction::Up, Direction::Right, Solid(Heavy))),
        '┛' => Some(Connections::corner(Direction::Up, Direction::Left, Solid(Heavy))),
        '┣' => Some(Connections::t_junction(Direction::Right, Solid(Heavy))),
        '┫' => Some(Connections::t_junction(Direction::Left, Solid(Heavy))),
        '┳' => Some(Connections::t_junction(Direction::Down, Solid(Heavy))),
        '┻' => Some(Connections::t_junction(Direction::Up, Solid(Heavy))),
        '╋' => Some(Connections::cross(Solid(Heavy))),
        // Double lines
        '═' => Some(Connections::horizontal(Solid(Double))),
        '║' => Some(Connections::vertical(Solid(Double))),
        '╔' => Some(Connections::corner(Direction::Down, Direction::Right, Solid(Double))),
        '╗' => Some(Connections::corner(Direction::Down, Direction::Left, Solid(Double))),
        '╚' => Some(Connections::corner(Direction::Up, Direction::Right, Solid(Double))),
        '╝' => Some(Connections::corner(Direction::Up, Direction::Left, Solid(Double))),
        '╠' => Some(Connections::t_junction(Direction::Right, Solid(Double))),
        '╣' => Some(Connections::t_junction(Direction::Left, Solid(Double))),
        '╦' => Some(Connections::t_junction(Direction::Down, Solid(Double))),
        '╩' => Some(Connections::t_junction(Direction::Up, Solid(Double))),
        '╬' => Some(Connections::cross(Solid(Double))),
        // Dashed and dotted straight runs
        '┄' => Some(Connections::horizontal(Dashed)),
        '┆' => Some(Connections::vertical(Dashed)),
        '┈' => Some(Connections::horizontal(Dotted)),
        '┊' => Some(Connections::vertical(Dotted)),
        _ => None,
    }
}

/// A descriptor resolved against the catalog, paired with its character.
#[derive(Debug, Clone, PartialEq, Eq, Hash)]
pub struct BorderChar {
    pub connections: Connections,
    pub unicode: char,
}

/// The resolved pairing for a descriptor.
pub open spec fn border_char_spec(c: Connections) -> BorderChar {
    BorderChar { connections: c, unicode: glyph_of(c) }
}

impl BorderChar {
    /// Resolve a descriptor: pair it with its catalog character (or the
    /// placeholder, for unrecognized descriptors).
    pub fn new(connections: Connections) -> (r: Self)
        ensures
            r == border_char_spec(connections),
    {
        let unicode = connections_to_unicode(&connections);
        Self { connections, unicode }
    }

    /// Resolve a character: pair it with the descriptor it stands for, or
    /// `None` for characters outside the recognized catalog.
    pub fn from_char(c: char) -> (r: Option<Self>)
        ensures
            r == match connections_of(c) {
                Some(connections) => Some(BorderChar { connections, unicode: c }),
                None => None::<BorderChar>,
            },
    {
        match unicode_to_connections(c) {
            Some(connections) => Some(Self { connections, unicode: c }),
            None => None,
        }
    }
}

/// The eight resolved border pieces of a rectangular frame in one style.
#[derive(Debug, Clone, PartialEq, Eq, Hash)]
pub struct BorderChars {
    pub top_left: BorderChar,
    pub top: BorderChar,
    pub top_right: BorderChar,
    pub left: BorderChar,
    pub right: BorderChar,
    pub bottom_left: BorderChar,
    pub bottom: BorderChar,
    pub bottom_right: BorderChar,
}

/// The frame pieces for one style.
pub open spec fn border_chars_spec(style: BorderStyle) -> BorderChars {
    BorderChars {
        top_left: border_char_spec(corner_spec(Direction::Down, Direction::Right, style)),
        top: border_char_spec(horizontal_spec(style)),
        top_right: border_char_spec(corner_spec(Direction::Down, Direction::Left, style)),
        left: border_char_spec(vertical_spec(style)),
        right: border_char_spec(vertical_spec(style)),
        bottom_left: border_char_spec(corner_spec(Direction::Up, Direction::Right, style)),
        bottom: border_char_spec(horizontal_spec(style)),
        bottom_right: border_char_spec(corner_spec(Direction::Up, Direction::Left, style)),
    }
}

impl BorderChars {
    /// The frame pieces for the given style.
    pub fn new(style: BorderStyle) -> (r: Self)
        ensures
            r == border_chars_spec(style),
    {
        Self {
            top_left: BorderChar::new(
                Connections::corner(Direction::Down, Direction::Right, style),
            ),
            top: BorderChar::new(Connections::horizontal(style)),
            top_right: BorderChar::new(
                Connections::corner(Direction::Down, Direction::Left, style),
            ),
            left: BorderChar::new(Connections::vertical(style)),
            right: BorderChar::new(Connections::vertical(style)),
            bottom_left: BorderChar::new(
                Connections::corner(Direction::Up, Direction::Right, style),
            ),
            bottom: BorderChar::new(Connections::horizontal(style)),
            bottom_right: BorderChar::new(
                Connections::corner(Direction::Up, Direction::Left, style),
            ),
        }
    }

    /// The frame pieces for light solid lines.
    pub fn light() -> (r: Self)
        ensures
            r == border_chars_spec(Solid(Light)),
    {
        Self::new(BorderStyle::Solid(BorderWeight::Light))
    }

    /// The frame pieces for heavy solid lines.
    pub fn heavy() -> (r: Self)
        ensures
            r == border_chars_spec(Solid(Heavy)),
    {
        Self::new(BorderStyle::Solid(BorderWeight::Heavy))
    }

    /// The frame pieces for double lines.
    pub fn double() -> (r: Self)
        ensures
            r == border_chars_spec(Solid(Double)),
    {
        Self::new(BorderStyle::Solid(BorderWeight::Double))
    }

    /// The frame pieces for dashed lines.
    pub fn dashed() -> (r: Self)
        ensures
            r == border_chars_spec(Dashed),
    {
        Self::new(BorderStyle::Dashed)
    }
}

/// The catalog round-trips through its characters: every character the
/// backward reading recognizes is mapped by the forward reading back to
/// itself. This covers all 38 recognized characters, the blank included.
pub proof fn lemma_glyph_round_trip(ch: char)
    requires
        connections_of(ch) is Some,
    ensures
        glyph_of(connections_of(ch)->Some_0) == ch,
{
}

/// Straight horizontal runs round-trip through the catalog in every style.
pub proof fn lemma_horizontal_round_trip(style: BorderStyle)
    ensures
        connections_of(glyph_of(horizontal_spec(style))) == Some(horizontal_spec(style)),
{
}

/// Straight vertical runs round-trip through the catalog in every style.
pub proof fn lemma_vertical_round_trip(style: BorderStyle)
    ensures
        connections_of(glyph_of(vertical_spec(style))) == Some(vertical_spec(style)),
{
}

/// Corners of any solid weight round-trip through the catalog. Dashed and
/// dotted corners lie outside the catalog and resolve to the placeholder, so
/// they are excluded here.
pub proof fn lemma_corner_round_trip(dir1: Direction, dir2: Direction, style: BorderStyle)
    requires
        adjacent(dir1, dir2),
        style is Solid,
    ensures
        connections_of(glyph_of(corner_spec(dir1, dir2, style))) == Some(
            corner_spec(dir1, dir2, style),
        ),
{
}

/// T-junctions of any solid weight round-trip through the catalog. Dashed and
/// dotted T-junctions lie outside the catalog and are excluded here.
pub proof fn lemma_t_junction_round_trip(main_dir: Direction, style: BorderStyle)
    requires
        style is Solid,
    ensures
        connections_of(glyph_of(t_junction_spec(main_dir, style))) == Some(
            t_junction_spec(main_dir, style),
        ),
{
}

/// Crosses of any solid weight round-trip through the catalog. Dashed and
/// dotted crosses lie outside the catalog and are excluded here.
pub proof fn lemma_cross_round_trip(style: BorderStyle)
    requires
        style is Solid,
    ensures
        connections_of(glyph_of(cross_spec(style))) == Some(cross_spec(style)),
{
}

} // verus!
