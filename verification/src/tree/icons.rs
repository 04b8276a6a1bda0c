//! Icon families and the interface for values that carry an icon.

use vstd::prelude::*;

verus! {

/// The icon families the library can emit.
#[derive(Debug, Clone, Copy, PartialEq, Eq, Hash, Structural)]
pub enum IconType {
    Plain,
    Nerd,
    Unicode,
    Emoji,
}

/// A value with an icon per icon family.
pub trait Icon: Sized {
    /// The characters of the icon, `None` when the family draws no icon for
    /// this value.
    spec fn icon_spec(self, icon_type: IconType) -> Option<Seq<char>>;

    /// The icon of the value in the given family.
    fn get_icon(&self, icon_type: IconType) -> (r: Option<String>)
        ensures
            match r {
                Some(s) => self.icon_spec(icon_type) == Some(s@),
                None => self.icon_spec(icon_type) is None,
            },
    ;
}

} // verus!
