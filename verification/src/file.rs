//! What the icon of a directory entry is chosen from.

use vstd::prelude::*;

verus! {

/// One entry of a directory, as far as its icon depends on it.
#[derive(Debug)]
pub struct File {
    /// The base name, in its own case; a dot file keeps its dot.
    pub name: String,
    /// What follows the last dot of the name, in lower case and without the
    /// dot; `None` where the name has no extension.
    pub ext: Option<String>,
    /// Whether the entry is a directory or leads to one.
    pub is_directory: bool,
    /// Whether the directory holds nothing to list. It counts only where
    /// `is_directory` is set.
    pub is_empty_directory: bool,
}

/// A [`File`] with its texts as sequences of characters.
pub ghost struct FileView {
    pub name: Seq<char>,
    pub ext: Option<Seq<char>>,
    pub is_directory: bool,
    pub is_empty_directory: bool,
}

impl View for File {
    type V = FileView;

    open spec fn view(&self) -> FileView {
        FileView {
            name: self.name@,
            ext: match self.ext {
                Some(ext) => Some(ext@),
                None => None,
            },
            is_directory: self.is_directory,
            is_empty_directory: self.is_empty_directory,
        }
    }
}

} // verus!
