//! The icons of files and directories that are known by their exact name.

use crate::table::{
    has_distinct_keys, icons_of, in_ascii, in_order, lemma_every_entry_counts,
    lemma_gap_is_unlisted, lemma_in_order_is_distinct, lookup,
};
use crate::text::{precedes, precedes_at};
use vstd::prelude::*;

verus! {

/// The files and directories that have an icon of their own, each under its
/// whole name. Dot files and dot directories with an icon are listed here
/// too. The names stand in the order of their code points, so capitals come
/// before small letters.
pub const FILENAME_ICONS: [(&'static str, char); 47] = [
    (".Trash",             '\u{f1f8}'),
    (".atom",              '\u{e764}'),
    (".bashprofile",       '\u{e615}'),
    (".bashrc",            '\u{f489}'),
    (".emacs",             '\u{e632}'),
    (".git",               '\u{f1d3}'),
    (".gitattributes",     '\u{f1d3}'),
    (".gitconfig",         '\u{f1d3}'),
    (".github",            '\u{f408}'),
    (".gitignore",         '\u{f1d3}'),
    (".gitignore_global",  '\u{f1d3}'),
    (".gitmodules",        '\u{f1d3}'),
    (".idea",              '\u{e7b5}'),
    (".rvm",               '\u{e21e}'),
    (".vimrc",             '\u{e7c5}'),
    (".vscode",            '\u{e70c}'),
    (".zshrc",             '\u{f489}'),
    ("Cargo.lock",         '\u{e7a8}'),
    ("Dockerfile",         '\u{f308}'),
    ("Earthfile",          '\u{f0ac}'),
    ("LICENSE",            '\u{f02d}'),
    ("Makefile",           '\u{f489}'),
    ("PKGBUILD",           '\u{f303}'),
    ("Vagrantfile",        '\u{2371}'),
    ("bin",                '\u{e5fc}'),
    ("config",             '\u{e5fc}'),
    ("docker-compose.yml", '\u{f308}'),
    ("ds_store",           '\u{f179}'),
    ("gitignore_global",   '\u{f1d3}'),
    ("gitlab-ci.yml",      '\u{f296}'),
    ("go.mod",             '\u{e626}'),
    ("go.sum",             '\u{e626}'),
    ("gradle",             '\u{e256}'),
    ("gruntfile.coffee",   '\u{e611}'),
    ("gruntfile.js",       '\u{e611}'),
    ("gruntfile.ls",       '\u{e611}'),
    ("gulpfile.coffee",    '\u{e610}'),
    ("gulpfile.js",        '\u{e610}'),
    ("gulpfile.ls",        '\u{e610}'),
    ("hidden",             '\u{f023}'),
    ("include",            '\u{e5fc}'),
    ("lib",                '\u{f121}'),
    ("localized",          '\u{f179}'),
    ("node_modules",       '\u{e718}'),
    ("npmignore",          '\u{e71e}'),
    ("rubydoc",            '\u{e73b}'),
    ("yarn.lock",          '\u{e718}'),
];

/// The icon of each file or directory that is known by its whole name. A name
/// is looked up as it stands: case matters, and nothing is cut off it.
pub open spec fn filename_icons() -> Map<Seq<char>, char> {
    icons_of(FILENAME_ICONS@)
}

/// The icon that `name` has as a whole, if it has one.
pub fn filename_icon(name: &str) -> (icon: Option<char>)
    ensures
        icon == filename_icons().get(name@),
        // Every name that is listed has the icon that it is listed with.
        forall|i: int|
            0 <= i < FILENAME_ICONS@.len() && name@ == (#[trigger] FILENAME_ICONS@[i]).0@
                ==> icon == Some(FILENAME_ICONS@[i].1),
{
    proof {
        lemma_filenames_in_order();
        assert forall|i: int|
            0 <= i < FILENAME_ICONS@.len() && name@ == (#[trigger] FILENAME_ICONS@[i]).0@
        implies filename_icons().get(name@) == Some(FILENAME_ICONS@[i].1) by {
            lemma_every_filename_counts(i);
        }
    }
    lookup(&FILENAME_ICONS, name)
}

/// No name is listed twice.
pub proof fn lemma_filenames_are_distinct()
    ensures
        has_distinct_keys(FILENAME_ICONS@),
{
    lemma_filenames_in_order();
    lemma_in_order_is_distinct(FILENAME_ICONS@);
}

/// Every name that is listed has the icon that it is listed with.
pub proof fn lemma_every_filename_counts(i: int)
    requires
        0 <= i < FILENAME_ICONS@.len(),
    ensures
        filename_icons().get(FILENAME_ICONS@[i].0@) == Some(FILENAME_ICONS@[i].1),
{
    lemma_filenames_are_distinct();
    lemma_every_entry_counts(FILENAME_ICONS@, i);
}

/// A name that falls between two neighbours of the list, before its first
/// entry or after its last, is not a known one. Here `i` is the place where
/// the name would have to stand.
pub proof fn lemma_not_a_known_name(name: Seq<char>, i: int)
    requires
        0 <= i <= FILENAME_ICONS@.len(),
        i > 0 ==> precedes(FILENAME_ICONS@[i - 1].0@, name),
        i < FILENAME_ICONS@.len() ==> precedes(name, FILENAME_ICONS@[i].0@),
    ensures
        !filename_icons().contains_key(name),
{
    lemma_filenames_in_order();
    lemma_gap_is_unlisted(FILENAME_ICONS@, name, i);
}

/// The names are written in ASCII and listed in order. The proof goes down
/// the list and says of each name where it parts from the one before it.
pub proof fn lemma_filenames_in_order()
    ensures
        in_order(FILENAME_ICONS@),
        in_ascii(FILENAME_ICONS@),
{
    reveal_strlit(".Trash");
    reveal_strlit(".atom");
    assert(precedes_at(".Trash"@, ".atom"@, 1));
    reveal_strlit(".bashprofile");
    assert(precedes_at(".atom"@, ".bashprofile"@, 1));
    reveal_strlit(".bashrc");
    assert(precedes_at(".bashprofile"@, ".bashrc"@, 5));
    reveal_strlit(".emacs");
    assert(precedes_at(".bashrc"@, ".emacs"@, 1));
    reveal_strlit(".git");
    assert(precedes_at(".emacs"@, ".git"@, 1));
    reveal_strlit(".gitattributes");
    assert(precedes_at(".git"@, ".gitattributes"@, 4));
    reveal_strlit(".gitconfig");
    assert(precedes_at(".gitattributes"@, ".gitconfig"@, 4));
    reveal_strlit(".github");
    assert(precedes_at(".gitconfig"@, ".github"@, 4));
    reveal_strlit(".gitignore");
    assert(precedes_at(".github"@, ".gitignore"@, 4));
    reveal_strlit(".gitignore_global");
    assert(precedes_at(".gitignore"@, ".gitignore_global"@, 10));
    reveal_strlit(".gitmodules");
    assert(precedes_at(".gitignore_global"@, ".gitmodules"@, 4));
    reveal_strlit(".idea");
    assert(precedes_at(".gitmodules"@, ".idea"@, 1));
    reveal_strlit(".rvm");
    assert(precedes_at(".idea"@, ".rvm"@, 1));
    reveal_strlit(".vimrc");
    assert(precedes_at(".rvm"@, ".vimrc"@, 1));
    reveal_strlit(".vscode");
    assert(precedes_at(".vimrc"@, ".vscode"@, 2));
    reveal_strlit(".zshrc");
    assert(precedes_at(".vscode"@, ".zshrc"@, 1));
    reveal_strlit("Cargo.lock");
    assert(precedes_at(".zshrc"@, "Cargo.lock"@, 0));
    reveal_strlit("Dockerfile");
    assert(precedes_at("Cargo.lock"@, "Dockerfile"@, 0));
    reveal_strlit("Earthfile");
    assert(precedes_at("Dockerfile"@, "Earthfile"@, 0));
    reveal_strlit("LICENSE");
    assert(precedes_at("Earthfile"@, "LICENSE"@, 0));
    reveal_strlit("Makefile");
    assert(precedes_at("LICENSE"@, "Makefile"@, 0));
    reveal_strlit("PKGBUILD");
    assert(precedes_at("Makefile"@, "PKGBUILD"@, 0));
    reveal_strlit("Vagrantfile");
    assert(precedes_at("PKGBUILD"@, "Vagrantfile"@, 0));
    reveal_strlit("bin");
    assert(precedes_at("Vagrantfile"@, "bin"@, 0));
    reveal_strlit("config");
    assert(precedes_at("bin"@, "config"@, 0));
    reveal_strlit("docker-compose.yml");
    assert(precedes_at("config"@, "docker-compose.yml"@, 0));
    reveal_strlit("ds_store");
    assert(precedes_at("docker-compose.yml"@, "ds_store"@, 1));
    reveal_strlit("gitignore_global");
    assert(precedes_at("ds_store"@, "gitignore_global"@, 0));
    reveal_strlit("gitlab-ci.yml");
    assert(precedes_at("gitignore_global"@, "gitlab-ci.yml"@, 3));
    reveal_strlit("go.mod");
    assert(precedes_at("gitlab-ci.yml"@, "go.mod"@, 1));
    reveal_strlit("go.sum");
    assert(precedes_at("go.mod"@, "go.sum"@, 3));
    reveal_strlit("gradle");
    assert(precedes_at("go.sum"@, "gradle"@, 1));
    reveal_strlit("gruntfile.coffee");
    assert(precedes_at("gradle"@, "gruntfile.coffee"@, 2));
    reveal_strlit("gruntfile.js");
    assert(precedes_at("gruntfile.coffee"@, "gruntfile.js"@, 10));
    reveal_strlit("gruntfile.ls");
    assert(precedes_at("gruntfile.js"@, "gruntfile.ls"@, 10));
    reveal_strlit("gulpfile.coffee");
    assert(precedes_at("gruntfile.ls"@, "gulpfile.coffee"@, 1));
    reveal_strlit("gulpfile.js");
    assert(precedes_at("gulpfile.coffee"@, "gulpfile.js"@, 9));
    reveal_strlit("gulpfile.ls");
    assert(precedes_at("gulpfile.js"@, "gulpfile.ls"@, 9));
    reveal_strlit("hidden");
    assert(precedes_at("gulpfile.ls"@, "hidden"@, 0));
    reveal_strlit("include");
    assert(precedes_at("hidden"@, "include"@, 0));
    reveal_strlit("lib");
    assert(precedes_at("include"@, "lib"@, 0));
    reveal_strlit("localized");
    assert(precedes_at("lib"@, "localized"@, 1));
    reveal_strlit("node_modules");
    assert(precedes_at("localized"@, "node_modules"@, 0));
    reveal_strlit("npmignore");
    assert(precedes_at("node_modules"@, "npmignore"@, 1));
    reveal_strlit("rubydoc");
    assert(precedes_at("npmignore"@, "rubydoc"@, 0));
    reveal_strlit("yarn.lock");
    assert(precedes_at("rubydoc"@, "yarn.lock"@, 0));
}

} // verus!
