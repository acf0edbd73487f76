//! The choice of an icon for a directory entry.

use crate::extensions::{
    extension_icon, extension_icons, is_lowered, lemma_every_extension_counts,
    lemma_known_extensions_are_lowered, EXTENSION_ICONS,
};
use crate::file::{File, FileView};
use crate::filenames::{filename_icon, filename_icons, lemma_every_filename_counts, FILENAME_ICONS};
use vstd::prelude::*;

verus! {

/// The icon of a directory that holds something.
pub const FOLDER: char = '\u{f07b}';

/// The icon of a directory that holds nothing.
pub const EMPTY_FOLDER: char = '\u{f115}';

/// The icon of a file whose extension is not a known one.
pub const UNKNOWN_EXTENSION: char = '\u{f15b}';

/// The icon of a file that has no extension.
pub const NO_EXTENSION: char = '\u{f016}';

/// Whether the whole name of `file` is a known one.
pub open spec fn has_known_name(file: FileView) -> bool {
    filename_icons().contains_key(file.name)
}

/// Whether `file` has an extension, and a known one.
pub open spec fn has_known_extension(file: FileView) -> bool {
    file.ext is Some && extension_icons().contains_key(file.ext->0)
}

/// The icon of an entry. The first of these rules that applies decides:
///
/// - an entry whose whole name is a known one has the icon of that name;
/// - any other directory has one of the two folder icons;
/// - a file with a known extension has the icon of that extension;
/// - any other file has one of the two generic icons, which tell a file with
///   an unknown extension from a file with none.
pub open spec fn icon_of(file: FileView) -> char {
    if has_known_name(file) {
        filename_icons()[file.name]
    } else if file.is_directory {
        if file.is_empty_directory {
            EMPTY_FOLDER
        } else {
            FOLDER
        }
    } else if has_known_extension(file) {
        extension_icons()[file.ext->0]
    } else if file.ext is Some {
        UNKNOWN_EXTENSION
    } else {
        NO_EXTENSION
    }
}

/// Picks the icon that stands for `file` in a listing.
///
/// The result is [`icon_of`] the entry; the clauses after the first spell out
/// what that means for each kind of entry. That a name or an extension is
/// not a known one can be told from its place in the list:
/// [`lemma_not_a_known_name`](crate::filenames::lemma_not_a_known_name) and
/// [`lemma_not_a_known_extension`](crate::extensions::lemma_not_a_known_extension)
/// say how.
pub fn icon_for_file(file: &File) -> (icon: char)
    ensures
        icon == icon_of(file@),
        // A known name decides, whatever the extension and the flags are.
        has_known_name(file@) ==> icon == filename_icons()[file@.name],
        // Any other directory is a folder, empty or not, whatever its
        // extension is.
        !has_known_name(file@) && file.is_directory && file.is_empty_directory
            ==> icon == EMPTY_FOLDER,
        !has_known_name(file@) && file.is_directory && !file.is_empty_directory
            ==> icon == FOLDER,
        // Any other file goes by its extension where that is a known one.
        !has_known_name(file@) && !file.is_directory && has_known_extension(file@)
            ==> icon == extension_icons()[file@.ext->0],
        // An unknown extension and no extension are told apart.
        !has_known_name(file@) && !file.is_directory && !has_known_extension(file@)
            && file@.ext is Some ==> icon == UNKNOWN_EXTENSION && icon != NO_EXTENSION,
        !has_known_name(file@) && !file.is_directory && file@.ext is None
            ==> icon == NO_EXTENSION,
        // Every name that is listed is a known one, and decides with the icon
        // that it is listed with.
        forall|i: int|
            0 <= i < FILENAME_ICONS@.len() && file@.name == (#[trigger] FILENAME_ICONS@[i]).0@
                ==> icon == FILENAME_ICONS@[i].1,
        // So does every extension that is listed, for a file whose name is
        // not a known one.
        !has_known_name(file@) && !file.is_directory ==> forall|i: int|
            0 <= i < EXTENSION_ICONS@.len()
                && file@.ext == Some((#[trigger] EXTENSION_ICONS@[i]).0@)
                ==> icon == EXTENSION_ICONS@[i].1,
        // An extension that was not brought to lower case is an unknown one.
        !has_known_name(file@) && !file.is_directory && file@.ext is Some
            && !is_lowered(file@.ext->0) ==> icon == UNKNOWN_EXTENSION,
{
    if let Some(icon) = filename_icon(file.name.as_str()) {
        icon
    } else if file.is_directory {
        if file.is_empty_directory {
            EMPTY_FOLDER
        } else {
            FOLDER
        }
    } else if let Some(ext) = &file.ext {
        match extension_icon(ext.as_str()) {
            Some(icon) => icon,
            None => UNKNOWN_EXTENSION,
        }
    } else {
        NO_EXTENSION
    }
}

/// Every name that is listed decides with the icon that it is listed with,
/// whatever the extension and the flags of the entry are.
pub proof fn lemma_listed_name_decides(file: FileView, i: int)
    requires
        0 <= i < FILENAME_ICONS@.len(),
        file.name == FILENAME_ICONS@[i].0@,
    ensures
        icon_of(file) == FILENAME_ICONS@[i].1,
{
    lemma_every_filename_counts(i);
}

/// Every extension that is listed decides with the icon that it is listed
/// with, for a file whose name is not a known one.
pub proof fn lemma_listed_extension_decides(file: FileView, i: int)
    requires
        !has_known_name(file),
        !file.is_directory,
        0 <= i < EXTENSION_ICONS@.len(),
        file.ext == Some(EXTENSION_ICONS@[i].0@),
    ensures
        icon_of(file) == EXTENSION_ICONS@[i].1,
{
    lemma_every_extension_counts(i);
}

/// An extension that was not brought to lower case is an unknown one: with
/// a capital letter in it, or a character beyond ASCII, the file gets the
/// icon for unknown extensions.
pub proof fn lemma_unlowered_extension_is_unknown(file: FileView)
    requires
        !has_known_name(file),
        !file.is_directory,
        file.ext is Some,
        !is_lowered(file.ext->0),
    ensures
        icon_of(file) == UNKNOWN_EXTENSION,
{
    lemma_known_extensions_are_lowered(file.ext->0);
}

/// An entry has one icon: whatever two calls of [`icon_for_file`] return for
/// entries with the same name, extension and flags is the same icon.
pub proof fn lemma_icon_for_file_is_a_function(a: &File, b: &File, icon_a: char, icon_b: char)
    requires
        a@ == b@,
        call_ensures(icon_for_file, (a,), icon_a),
        call_ensures(icon_for_file, (b,), icon_b),
    ensures
        icon_a == icon_b,
{
}

} // verus!
