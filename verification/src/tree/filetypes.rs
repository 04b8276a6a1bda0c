//! Entry kinds for file trees, and their icons.

use vstd::prelude::*;

use crate::tree::icons::{Icon, IconType};

verus! {

/// The kind of a tree entry: a directory (open or closed) or a file.
#[derive(Debug, Clone, Copy, PartialEq, Eq, Hash)]
pub enum ItemType {
    Directory(bool),
    File(FileType),
}

/// The kind of a file entry.
#[derive(Debug, Clone, Copy, PartialEq, Eq, Hash)]
pub enum FileType {
    Text(Language),
    Binary,
    Image,
    Video,
}

/// The language of a text file.
#[derive(Debug, Clone, Copy, PartialEq, Eq, Hash)]
pub enum Language {
    Unknown,
    PlainText,
    Markdown,
    Toml,
    Json,
    Yaml,
    Rust,
    C,
    Cpp,
}

impl Language {
    /// The nerd-font icon for the language, drawn only for the nerd family.
    pub open spec fn nerd_icon_spec(self, icon_type: IconType) -> Option<Seq<char>> {
        if icon_type == IconType::Nerd {
            Some(
                match self {
                    Language::Unknown => "\u{f0224}"@,
                    Language::PlainText => "\u{f0219}"@,
                    Language::Markdown => "\u{f48a}"@,
                    Language::Toml => "\u{e6b2}"@,
                    Language::Json => "\u{e60b}"@,
                    Language::Yaml => "\u{e6a8}"@,
                    Language::Rust => "\u{e7a8}"@,
                    Language::C => "\u{e61e}"@,
                    Language::Cpp => "\u{e61d}"@,
                },
            )
        } else {
            None
        }
    }

    /// The nerd-font icon for the language: one glyph for the nerd family,
    /// nothing for the other families.
    pub fn get_nerd_icon(&self, icon_type: IconType) -> (r: Option<String>)
        ensures
            match r {
                Some(s) => self.nerd_icon_spec(icon_type) == Some(s@),
                None => self.nerd_icon_spec(icon_type) is None,
            },
    {
        match icon_type {
            IconType::Nerd => Some(
                match self {
                    Language::Unknown => "\u{f0224}".to_owned(),
                    Language::PlainText => "\u{f0219}".to_owned(),
                    Language::Markdown => "\u{f48a}".to_owned(),
                    Language::Toml => "\u{e6b2}".to_owned(),
                    Language::Json => "\u{e60b}".to_owned(),
                    Language::Yaml => "\u{e6a8}".to_owned(),
                    Language::Rust => "\u{e7a8}".to_owned(),
                    Language::C => "\u{e61e}".to_owned(),
                    Language::Cpp => "\u{e61d}".to_owned(),
                },
            ),
            _ => None,
        }
    }
}

impl Icon for FileType {
    open spec fn icon_spec(self, icon_type: IconType) -> Option<Seq<char>> {
        match self {
            FileType::Text(lang) => lang.nerd_icon_spec(icon_type),
            FileType::Binary => Some("\u{eae8}"@),
            FileType::Video => Some("\u{f022b}"@),
            FileType::Image => Some("\u{f021f}"@),
        }
    }

    fn get_icon(&self, icon_type: IconType) -> (r: Option<String>) {
        match self {
            Self::Text(lang) => lang.get_nerd_icon(icon_type),
            Self::Binary => Some("\u{eae8}".to_owned()),
            Self::Video => Some("\u{f022b}".to_owned()),
            Self::Image => Some("\u{f021f}".to_owned()),
        }
    }
}

impl Icon for ItemType {
    open spec fn icon_spec(self, icon_type: IconType) -> Option<Seq<char>> {
        match self {
            ItemType::Directory(open_dir) => match icon_type {
                IconType::Plain => None,
                IconType::Nerd => Some(
                    if open_dir {
                        "\u{f0770}"@
                    } else {
                        "\u{f024b}"@
                    },
                ),
                IconType::Unicode => Some("\u{1f5c0}"@),
                IconType::Emoji => Some(
                    if open_dir {
                        "\u{1f4c1}"@
                    } else {
                        "\u{1f4c2}"@
                    },
                ),
            },
            ItemType::File(f_type) => f_type.icon_spec(icon_type),
        }
    }

    fn get_icon(&self, icon_type: IconType) -> (r: Option<String>) {
        match self {
            Self::Directory(b) => match icon_type {
                IconType::Plain => None,
                IconType::Nerd => Some(
                    if *b {
                        "\u{f0770}".to_owned()
                    } else {
                        "\u{f024b}".to_owned()
                    },
                ),
                IconType::Unicode => Some("\u{1f5c0}".to_owned()),
                IconType::Emoji => Some(
                    if *b {
                        "\u{1f4c1}".to_owned()
                    } else {
                        "\u{1f4c2}".to_owned()
                    },
                ),
            },
            Self::File(f_type) => f_type.get_icon(icon_type),
        }
    }
}

} // verus!
