//! Icons for the entries of a directory listing.
//!
//! [`icon_for_file`] picks the glyph that stands for a file or a directory,
//! and [`iconify_style`] derives the style the glyph is painted with from the
//! style of the entry's name.

pub mod extensions;
pub mod file;
pub mod filenames;
pub mod icons;
pub mod style;
pub mod table;
pub mod text;

pub use extensions::{extension_icon, EXTENSION_ICONS};
pub use file::File;
pub use filenames::{filename_icon, FILENAME_ICONS};
pub use icons::icon_for_file;
pub use style::{iconify_style, Style};
