//! The icons of files that are known by their extension.

use crate::table::{
    has_distinct_keys, icons_of, in_ascii, in_order, lemma_every_entry_counts,
    lemma_gap_is_unlisted, lemma_in_order_is_distinct, lookup,
};
use crate::text::{precedes, precedes_at};
use vstd::prelude::*;

verus! {

/// The extensions that have an icon, each in lower case and without its dot,
/// in the order of their code points.
pub const EXTENSION_ICONS: [(&'static str, char); 348] = [
    ("7z",             '\u{f410}'),
    ("a",              '\u{f17c}'),
    ("acc",            '\u{f001}'),
    ("acf",            '\u{f1b6}'),
    ("ai",             '\u{e7b4}'),
    ("alac",           '\u{f001}'),
    ("android",        '\u{e70e}'),
    ("ape",            '\u{f001}'),
    ("apk",            '\u{e70e}'),
    ("apple",          '\u{f179}'),
    ("ar",             '\u{f410}'),
    ("arw",            '\u{f1c5}'),
    ("asm",            '\u{e637}'),
    ("avi",            '\u{f03d}'),
    ("avif",           '\u{f1c5}'),
    ("avro",           '\u{e60b}'),
    ("awk",            '\u{f489}'),
    ("bash",           '\u{f489}'),
    ("bash_history",   '\u{f489}'),
    ("bash_profile",   '\u{f489}'),
    ("bashrc",         '\u{f489}'),
    ("bat",            '\u{ebc4}'),
    ("bats",           '\u{f489}'),
    ("bib",            '\u{e69b}'),
    ("bin",            '\u{eae8}'),
    ("bmp",            '\u{f1c5}'),
    ("bst",            '\u{e69b}'),
    ("bz",             '\u{f410}'),
    ("bz2",            '\u{f410}'),
    ("c",              '\u{e61e}'),
    ("c++",            '\u{e61d}'),
    ("cab",            '\u{e70f}'),
    ("cbr",            '\u{f1c5}'),
    ("cbz",            '\u{f1c5}'),
    ("cc",             '\u{e61d}'),
    ("cert",           '\u{eafa}'),
    ("cfg",            '\u{e615}'),
    ("cjs",            '\u{e74e}'),
    ("class",          '\u{e256}'),
    ("clj",            '\u{e768}'),
    ("cljs",           '\u{e76a}'),
    ("cls",            '\u{e69b}'),
    ("cmd",            '\u{e70f}'),
    ("coffee",         '\u{f0f4}'),
    ("conf",           '\u{e615}'),
    ("config",         '\u{e615}'),
    ("cp",             '\u{e61d}'),
    ("cpio",           '\u{f410}'),
    ("cpp",            '\u{e61d}'),
    ("cr2",            '\u{f1c5}'),
    ("crt",            '\u{eafa}'),
    ("cs",             '\u{f031b}'),
    ("csh",            '\u{f489}'),
    ("cshtml",         '\u{f1fa}'),
    ("csproj",         '\u{f031b}'),
    ("css",            '\u{e749}'),
    ("csv",            '\u{f1c3}'),
    ("csx",            '\u{f031b}'),
    ("cts",            '\u{e628}'),
    ("cu",             '\u{e64b}'),
    ("cxx",            '\u{e61d}'),
    ("d",              '\u{e7af}'),
    ("dart",           '\u{e798}'),
    ("db",             '\u{f1c0}'),
    ("deb",            '\u{e77d}'),
    ("desktop",        '\u{ebd1}'),
    ("diff",           '\u{f440}'),
    ("djvu",           '\u{f02d}'),
    ("dll",            '\u{e70f}'),
    ("dmg",            '\u{e271}'),
    ("doc",            '\u{f1c2}'),
    ("docx",           '\u{f1c2}'),
    ("drawio",         '\u{ebba}'),
    ("ds_store",       '\u{f179}'),
    ("dump",           '\u{f1c0}'),
    ("dvi",            '\u{f1c5}'),
    ("ebook",          '\u{e28b}'),
    ("ebuild",         '\u{f30d}'),
    ("editorconfig",   '\u{e615}'),
    ("ejs",            '\u{e618}'),
    ("el",             '\u{e632}'),
    ("elm",            '\u{e62c}'),
    ("eml",            '\u{f003}'),
    ("env",            '\u{f462}'),
    ("eot",            '\u{f031}'),
    ("eps",            '\u{f1c5}'),
    ("epub",           '\u{e28a}'),
    ("erb",            '\u{e73b}'),
    ("erl",            '\u{e7b1}'),
    ("ex",             '\u{e62d}'),
    ("exe",            '\u{f17a}'),
    ("exs",            '\u{e62d}'),
    ("fish",           '\u{f489}'),
    ("flac",           '\u{f001}'),
    ("flv",            '\u{f03d}'),
    ("font",           '\u{f031}'),
    ("fs",             '\u{e7a7}'),
    ("fsi",            '\u{e7a7}'),
    ("fsx",            '\u{e7a7}'),
    ("gdoc",           '\u{f1c2}'),
    ("gem",            '\u{e21e}'),
    ("gemfile",        '\u{e21e}'),
    ("gemspec",        '\u{e21e}'),
    ("gform",          '\u{f298}'),
    ("gif",            '\u{f1c5}'),
    ("git",            '\u{f1d3}'),
    ("gitattributes",  '\u{f1d3}'),
    ("gitignore",      '\u{f1d3}'),
    ("gitmodules",     '\u{f1d3}'),
    ("go",             '\u{e626}'),
    ("gpg",            '\u{e60a}'),
    ("gradle",         '\u{e256}'),
    ("groovy",         '\u{e775}'),
    ("gsheet",         '\u{f1c3}'),
    ("gslides",        '\u{f1c4}'),
    ("guardfile",      '\u{e21e}'),
    ("gz",             '\u{f410}'),
    ("h",              '\u{f0fd}'),
    ("hbs",            '\u{e60f}'),
    ("heic",           '\u{f03d}'),
    ("heif",           '\u{f1c5}'),
    ("hpp",            '\u{f0fd}'),
    ("hs",             '\u{e777}'),
    ("htm",            '\u{f13b}'),
    ("html",           '\u{f13b}'),
    ("hxx",            '\u{f0fd}'),
    ("ical",           '\u{eab0}'),
    ("icalendar",      '\u{eab0}'),
    ("ico",            '\u{f1c5}'),
    ("ics",            '\u{eab0}'),
    ("ifb",            '\u{eab0}'),
    ("image",          '\u{f1c5}'),
    ("img",            '\u{e271}'),
    ("iml",            '\u{e7b5}'),
    ("ini",            '\u{f17a}'),
    ("ipynb",          '\u{e678}'),
    ("iso",            '\u{e271}'),
    ("j2c",            '\u{f1c5}'),
    ("j2k",            '\u{f1c5}'),
    ("jad",            '\u{e256}'),
    ("jar",            '\u{e256}'),
    ("java",           '\u{e256}'),
    ("jfi",            '\u{f1c5}'),
    ("jfif",           '\u{f1c5}'),
    ("jif",            '\u{f1c5}'),
    ("jl",             '\u{e624}'),
    ("jmd",            '\u{f48a}'),
    ("jp2",            '\u{f1c5}'),
    ("jpe",            '\u{f1c5}'),
    ("jpeg",           '\u{f1c5}'),
    ("jpf",            '\u{f1c5}'),
    ("jpg",            '\u{f1c5}'),
    ("jpx",            '\u{f1c5}'),
    ("js",             '\u{e74e}'),
    ("json",           '\u{e60b}'),
    ("jsx",            '\u{e7ba}'),
    ("jxl",            '\u{f1c5}'),
    ("kdb",            '\u{f23e}'),
    ("kdbx",           '\u{f23e}'),
    ("key",            '\u{eb11}'),
    ("ko",             '\u{f17c}'),
    ("ksh",            '\u{f489}'),
    ("latex",          '\u{e69b}'),
    ("less",           '\u{e758}'),
    ("lhs",            '\u{e777}'),
    ("license",        '\u{f02d}'),
    ("localized",      '\u{f179}'),
    ("lock",           '\u{f023}'),
    ("log",            '\u{f18d}'),
    ("lua",            '\u{e620}'),
    ("lz",             '\u{f410}'),
    ("lz4",            '\u{f410}'),
    ("lzh",            '\u{f410}'),
    ("lzma",           '\u{f410}'),
    ("lzo",            '\u{f410}'),
    ("m",              '\u{e61e}'),
    ("m2ts",           '\u{f03d}'),
    ("m2v",            '\u{f03d}'),
    ("m4a",            '\u{f001}'),
    ("m4v",            '\u{f03d}'),
    ("magnet",         '\u{f076}'),
    ("markdown",       '\u{f48a}'),
    ("md",             '\u{f48a}'),
    ("mjs",            '\u{e74e}'),
    ("mk",             '\u{f489}'),
    ("mka",            '\u{f001}'),
    ("mkd",            '\u{f48a}'),
    ("mkv",            '\u{f03d}'),
    ("ml",             '\u{e67a}'),
    ("mli",            '\u{e67a}'),
    ("mll",            '\u{e67a}'),
    ("mly",            '\u{e67a}'),
    ("mm",             '\u{e61d}'),
    ("mobi",           '\u{e28b}'),
    ("mov",            '\u{f03d}'),
    ("mp2",            '\u{f001}'),
    ("mp3",            '\u{f001}'),
    ("mp4",            '\u{f03d}'),
    ("mpeg",           '\u{f03d}'),
    ("mpg",            '\u{f03d}'),
    ("msi",            '\u{e70f}'),
    ("mts",            '\u{e628}'),
    ("mustache",       '\u{e60f}'),
    ("nef",            '\u{f1c5}'),
    ("ninja",          '\u{f0774}'),
    ("nix",            '\u{f313}'),
    ("node",           '\u{f0399}'),
    ("npmignore",      '\u{e71e}'),
    ("o",              '\u{eae8}'),
    ("odp",            '\u{f1c4}'),
    ("ods",            '\u{f1c3}'),
    ("odt",            '\u{f1c2}'),
    ("ogg",            '\u{f001}'),
    ("ogm",            '\u{f03d}'),
    ("ogv",            '\u{f03d}'),
    ("opus",           '\u{f001}'),
    ("orf",            '\u{f1c5}'),
    ("org",            '\u{e633}'),
    ("otf",            '\u{f031}'),
    ("out",            '\u{eb2c}'),
    ("par",            '\u{f410}'),
    ("part",           '\u{f43a}'),
    ("patch",          '\u{f440}'),
    ("pbm",            '\u{f1c5}'),
    ("pdf",            '\u{f1c1}'),
    ("pem",            '\u{eb11}'),
    ("pgm",            '\u{f1c5}'),
    ("php",            '\u{e73d}'),
    ("pl",             '\u{e769}'),
    ("plx",            '\u{e769}'),
    ("pm",             '\u{e769}'),
    ("png",            '\u{f1c5}'),
    ("pnm",            '\u{f1c5}'),
    ("pod",            '\u{e769}'),
    ("ppm",            '\u{f1c5}'),
    ("ppt",            '\u{f1c4}'),
    ("pptx",           '\u{f1c4}'),
    ("procfile",       '\u{e21e}'),
    ("properties",     '\u{e60b}'),
    ("ps",             '\u{f1c5}'),
    ("ps1",            '\u{ebc7}'),
    ("psd",            '\u{e7b8}'),
    ("psd1",           '\u{ebc7}'),
    ("psm1",           '\u{ebc7}'),
    ("pxm",            '\u{f1c5}'),
    ("py",             '\u{e606}'),
    ("pyc",            '\u{e606}'),
    ("qcow2",          '\u{e271}'),
    ("r",              '\u{f25d}'),
    ("rakefile",       '\u{e21e}'),
    ("rar",            '\u{f410}'),
    ("raw",            '\u{f1c5}'),
    ("razor",          '\u{f1fa}'),
    ("rb",             '\u{e21e}'),
    ("rdata",          '\u{f25d}'),
    ("rdb",            '\u{e76d}'),
    ("rdoc",           '\u{f48a}'),
    ("rds",            '\u{f25d}'),
    ("readme",         '\u{f48a}'),
    ("rlib",           '\u{e7a8}'),
    ("rmd",            '\u{f48a}'),
    ("rmeta",          '\u{e7a8}'),
    ("rpm",            '\u{e7bb}'),
    ("rs",             '\u{e7a8}'),
    ("rspec",          '\u{e21e}'),
    ("rspec_parallel", '\u{e21e}'),
    ("rspec_status",   '\u{e21e}'),
    ("rss",            '\u{f09e}'),
    ("rst",            '\u{f15c}'),
    ("rtf",            '\u{f0219}'),
    ("ru",             '\u{e21e}'),
    ("rubydoc",        '\u{e73b}'),
    ("s",              '\u{e637}'),
    ("sass",           '\u{e603}'),
    ("scala",          '\u{e737}'),
    ("scss",           '\u{e749}'),
    ("service",        '\u{eba2}'),
    ("sh",             '\u{f489}'),
    ("shell",          '\u{f489}'),
    ("slim",           '\u{e73b}'),
    ("sln",            '\u{e70c}'),
    ("so",             '\u{f17c}'),
    ("sql",            '\u{f1c0}'),
    ("sqlite3",        '\u{e7c4}'),
    ("stl",            '\u{f1c5}'),
    ("sty",            '\u{e69b}'),
    ("styl",           '\u{e600}'),
    ("stylus",         '\u{e600}'),
    ("svelte",         '\u{e697}'),
    ("svg",            '\u{f1c5}'),
    ("swift",          '\u{e755}'),
    ("t",              '\u{e769}'),
    ("tar",            '\u{f410}'),
    ("taz",            '\u{f410}'),
    ("tbz",            '\u{f410}'),
    ("tbz2",           '\u{f410}'),
    ("tc",             '\u{f410}'),
    ("tex",            '\u{e69b}'),
    ("tgz",            '\u{f410}'),
    ("tif",            '\u{f1c5}'),
    ("tiff",           '\u{f1c5}'),
    ("tlz",            '\u{f410}'),
    ("toml",           '\u{e615}'),
    ("torrent",        '\u{e275}'),
    ("ts",             '\u{e628}'),
    ("tsv",            '\u{f1c3}'),
    ("tsx",            '\u{e7ba}'),
    ("ttf",            '\u{f031}'),
    ("twig",           '\u{e61c}'),
    ("txt",            '\u{f15c}'),
    ("txz",            '\u{f410}'),
    ("tz",             '\u{f410}'),
    ("tzo",            '\u{f410}'),
    ("unity",          '\u{e721}'),
    ("unity3d",        '\u{e721}'),
    ("vdi",            '\u{e271}'),
    ("vhd",            '\u{e271}'),
    ("video",          '\u{f03d}'),
    ("vim",            '\u{e7c5}'),
    ("vmdk",           '\u{e271}'),
    ("vob",            '\u{f03d}'),
    ("vue",            '\u{f0844}'),
    ("war",            '\u{e256}'),
    ("wav",            '\u{f001}'),
    ("webm",           '\u{f03d}'),
    ("webp",           '\u{f1c5}'),
    ("windows",        '\u{f17a}'),
    ("wma",            '\u{f001}'),
    ("wmv",            '\u{f03d}'),
    ("woff",           '\u{f031}'),
    ("woff2",          '\u{f031}'),
    ("xhtml",          '\u{f13b}'),
    ("xls",            '\u{f1c3}'),
    ("xlsm",           '\u{f1c3}'),
    ("xlsx",           '\u{f1c3}'),
    ("xml",            '\u{f05c0}'),
    ("xpm",            '\u{f1c5}'),
    ("xul",            '\u{f05c0}'),
    ("xz",             '\u{f410}'),
    ("yaml",           '\u{f481}'),
    ("yml",            '\u{f481}'),
    ("z",              '\u{f410}'),
    ("zig",            '\u{21af}'),
    ("zip",            '\u{f410}'),
    ("zsh",            '\u{f489}'),
    ("zsh-theme",      '\u{f489}'),
    ("zshrc",          '\u{f489}'),
    ("zst",            '\u{f410}'),
];

/// The icon of each known extension. An extension is what follows the last
/// dot of a file name, in lower case and without the dot: the table folds no
/// case itself, so an extension in another case is not a known one.
pub open spec fn extension_icons() -> Map<Seq<char>, char> {
    icons_of(EXTENSION_ICONS@)
}

/// True for the characters that the known extensions are written in: those
/// of ASCII, without the capital letters.
pub open spec fn is_lower_ascii(c: char) -> bool {
    c <= '\u{7f}' && !('A' <= c <= 'Z')
}

/// True when `text` is written in such characters throughout.
pub open spec fn is_lowered(text: Seq<char>) -> bool {
    forall|k: int| 0 <= k < text.len() ==> is_lower_ascii(#[trigger] text[k])
}

/// The icon of the extension `ext`, if it is a known one.
pub fn extension_icon(ext: &str) -> (icon: Option<char>)
    ensures
        icon == extension_icons().get(ext@),
        // Every extension that is listed has the icon that it is listed with.
        forall|i: int|
            0 <= i < EXTENSION_ICONS@.len() && ext@ == (#[trigger] EXTENSION_ICONS@[i]).0@
                ==> icon == Some(EXTENSION_ICONS@[i].1),
        // An extension that was not brought to lower case is not a known one.
        !is_lowered(ext@) ==> icon is None,
{
    proof {
        lemma_extensions_in_order_and_lowered();
        assert forall|i: int|
            0 <= i < EXTENSION_ICONS@.len() && ext@ == (#[trigger] EXTENSION_ICONS@[i]).0@
        implies extension_icons().get(ext@) == Some(EXTENSION_ICONS@[i].1) by {
            lemma_every_extension_counts(i);
        }
    }
    lookup(&EXTENSION_ICONS, ext)
}

/// No extension is listed twice.
pub proof fn lemma_extensions_are_distinct()
    ensures
        has_distinct_keys(EXTENSION_ICONS@),
{
    lemma_extensions_in_order_and_lowered();
    lemma_in_order_is_distinct(EXTENSION_ICONS@);
}

/// Every extension that is listed has the icon that it is listed with.
pub proof fn lemma_every_extension_counts(i: int)
    requires
        0 <= i < EXTENSION_ICONS@.len(),
    ensures
        extension_icons().get(EXTENSION_ICONS@[i].0@) == Some(EXTENSION_ICONS@[i].1),
{
    lemma_extensions_are_distinct();
    lemma_every_entry_counts(EXTENSION_ICONS@, i);
}

/// An extension that holds a capital letter, or a character beyond ASCII, is
/// not a known one: whoever cuts the extension off a name has to bring it to
/// lower case.
pub proof fn lemma_known_extensions_are_lowered(ext: Seq<char>)
    requires
        !is_lowered(ext),
    ensures
        !extension_icons().contains_key(ext),
{
    lemma_extensions_in_order_and_lowered();
}

/// An extension that falls between two neighbours of the list, before its
/// first entry or after its last, is not a known one. Here `i` is the place
/// where the extension would have to stand.
pub proof fn lemma_not_a_known_extension(ext: Seq<char>, i: int)
    requires
        0 <= i <= EXTENSION_ICONS@.len(),
        i > 0 ==> precedes(EXTENSION_ICONS@[i - 1].0@, ext),
        i < EXTENSION_ICONS@.len() ==> precedes(ext, EXTENSION_ICONS@[i].0@),
    ensures
        !extension_icons().contains_key(ext),
{
    lemma_extensions_in_order_and_lowered();
    lemma_gap_is_unlisted(EXTENSION_ICONS@, ext, i);
}

/// The extensions are listed in order, and each of them is written in lower
/// case and in ASCII. The proof goes down the list and says of each
/// extension where it parts from the one before it.
#[verifier::rlimit(20)]
pub proof fn lemma_extensions_in_order_and_lowered()
    ensures
        in_order(EXTENSION_ICONS@),
        in_ascii(EXTENSION_ICONS@),
        forall|i: int|
            0 <= i < EXTENSION_ICONS@.len() ==> is_lowered((#[trigger] EXTENSION_ICONS@[i]).0@),
{
    reveal_strlit("7z");
    reveal_strlit("a");
    assert(precedes_at("7z"@, "a"@, 0));
    reveal_strlit("acc");
    assert(precedes_at("a"@, "acc"@, 1));
    reveal_strlit("acf");
    assert(precedes_at("acc"@, "acf"@, 2));
    reveal_strlit("ai");
    assert(precedes_at("acf"@, "ai"@, 1));
    reveal_strlit("alac");
    assert(precedes_at("ai"@, "alac"@, 1));
    reveal_strlit("android");
    assert(precedes_at("alac"@, "android"@, 1));
    reveal_strlit("ape");
    assert(precedes_at("android"@, "ape"@, 1));
    reveal_strlit("apk");
    assert(precedes_at("ape"@, "apk"@, 2));
    reveal_strlit("apple");
    assert(precedes_at("apk"@, "apple"@, 2));
    reveal_strlit("ar");
    assert(precedes_at("apple"@, "ar"@, 1));
    reveal_strlit("arw");
    assert(precedes_at("ar"@, "arw"@, 2));
    reveal_strlit("asm");
    assert(precedes_at("arw"@, "asm"@, 1));
    reveal_strlit("avi");
    assert(precedes_at("asm"@, "avi"@, 1));
    reveal_strlit("avif");
    assert(precedes_at("avi"@, "avif"@, 3));
    reveal_strlit("avro");
    assert(precedes_at("avif"@, "avro"@, 2));
    reveal_strlit("awk");
    assert(precedes_at("avro"@, "awk"@, 1));
    reveal_strlit("bash");
    assert(precedes_at("awk"@, "bash"@, 0));
    reveal_strlit("bash_history");
    assert(precedes_at("bash"@, "bash_history"@, 4));
    reveal_strlit("bash_profile");
    assert(precedes_at("bash_history"@, "bash_profile"@, 5));
    reveal_strlit("bashrc");
    assert(precedes_at("bash_profile"@, "bashrc"@, 4));
    reveal_strlit("bat");
    assert(precedes_at("bashrc"@, "bat"@, 2));
    reveal_strlit("bats");
    assert(precedes_at("bat"@, "bats"@, 3));
    reveal_strlit("bib");
    assert(precedes_at("bats"@, "bib"@, 1));
    reveal_strlit("bin");
    assert(precedes_at("bib"@, "bin"@, 2));
    reveal_strlit("bmp");
    assert(precedes_at("bin"@, "bmp"@, 1));
    reveal_strlit("bst");
    assert(precedes_at("bmp"@, "bst"@, 1));
    reveal_strlit("bz");
    assert(precedes_at("bst"@, "bz"@, 1));
    reveal_strlit("bz2");
    assert(precedes_at("bz"@, "bz2"@, 2));
    reveal_strlit("c");
    assert(precedes_at("bz2"@, "c"@, 0));
    reveal_strlit("c++");
    assert(precedes_at("c"@, "c++"@, 1));
    reveal_strlit("cab");
    assert(precedes_at("c++"@, "cab"@, 1));
    reveal_strlit("cbr");
    assert(precedes_at("cab"@, "cbr"@, 1));
    reveal_strlit("cbz");
    assert(precedes_at("cbr"@, "cbz"@, 2));
    reveal_strlit("cc");
    assert(precedes_at("cbz"@, "cc"@, 1));
    reveal_strlit("cert");
    assert(precedes_at("cc"@, "cert"@, 1));
    reveal_strlit("cfg");
    assert(precedes_at("cert"@, "cfg"@, 1));
    reveal_strlit("cjs");
    assert(precedes_at("cfg"@, "cjs"@, 1));
    reveal_strlit("class");
    assert(precedes_at("cjs"@, "class"@, 1));
    reveal_strlit("clj");
    assert(precedes_at("class"@, "clj"@, 2));
    reveal_strlit("cljs");
    assert(precedes_at("clj"@, "cljs"@, 3));
    reveal_strlit("cls");
    assert(precedes_at("cljs"@, "cls"@, 2));
    reveal_strlit("cmd");
    assert(precedes_at("cls"@, "cmd"@, 1));
    reveal_strlit("coffee");
    assert(precedes_at("cmd"@, "coffee"@, 1));
    reveal_strlit("conf");
    assert(precedes_at("coffee"@, "conf"@, 2));
    reveal_strlit("config");
    assert(precedes_at("conf"@, "config"@, 4));
    reveal_strlit("cp");
    assert(precedes_at("config"@, "cp"@, 1));
    reveal_strlit("cpio");
    assert(precedes_at("cp"@, "cpio"@, 2));
    reveal_strlit("cpp");
    assert(precedes_at("cpio"@, "cpp"@, 2));
    reveal_strlit("cr2");
    assert(precedes_at("cpp"@, "cr2"@, 1));
    reveal_strlit("crt");
    assert(precedes_at("cr2"@, "crt"@, 2));
    reveal_strlit("cs");
    assert(precedes_at("crt"@, "cs"@, 1));
    reveal_strlit("csh");
    assert(precedes_at("cs"@, "csh"@, 2));
    reveal_strlit("cshtml");
    assert(precedes_at("csh"@, "cshtml"@, 3));
    reveal_strlit("csproj");
    assert(precedes_at("cshtml"@, "csproj"@, 2));
    reveal_strlit("css");
    assert(precedes_at("csproj"@, "css"@, 2));
    reveal_strlit("csv");
    assert(precedes_at("css"@, "csv"@, 2));
    reveal_strlit("csx");
    assert(precedes_at("csv"@, "csx"@, 2));
    reveal_strlit("cts");
    assert(precedes_at("csx"@, "cts"@, 1));
    reveal_strlit("cu");
    assert(precedes_at("cts"@, "cu"@, 1));
    reveal_strlit("cxx");
    assert(precedes_at("cu"@, "cxx"@, 1));
    reveal_strlit("d");
    assert(precedes_at("cxx"@, "d"@, 0));
    reveal_strlit("dart");
    assert(precedes_at("d"@, "dart"@, 1));
    reveal_strlit("db");
    assert(precedes_at("dart"@, "db"@, 1));
    reveal_strlit("deb");
    assert(precedes_at("db"@, "deb"@, 1));
    reveal_strlit("desktop");
    assert(precedes_at("deb"@, "desktop"@, 2));
    reveal_strlit("diff");
    assert(precedes_at("desktop"@, "diff"@, 1));
    reveal_strlit("djvu");
    assert(precedes_at("diff"@, "djvu"@, 1));
    reveal_strlit("dll");
    assert(precedes_at("djvu"@, "dll"@, 1));
    reveal_strlit("dmg");
    assert(precedes_at("dll"@, "dmg"@, 1));
    reveal_strlit("doc");
    assert(precedes_at("dmg"@, "doc"@, 1));
    reveal_strlit("docx");
    assert(precedes_at("doc"@, "docx"@, 3));
    reveal_strlit("drawio");
    assert(precedes_at("docx"@, "drawio"@, 1));
    reveal_strlit("ds_store");
    assert(precedes_at("drawio"@, "ds_store"@, 1));
    reveal_strlit("dump");
    assert(precedes_at("ds_store"@, "dump"@, 1));
    reveal_strlit("dvi");
    assert(precedes_at("dump"@, "dvi"@, 1));
    reveal_strlit("ebook");
    assert(precedes_at("dvi"@, "ebook"@, 0));
    reveal_strlit("ebuild");
    assert(precedes_at("ebook"@, "ebuild"@, 2));
    reveal_strlit("editorconfig");
    assert(precedes_at("ebuild"@, "editorconfig"@, 1));
    reveal_strlit("ejs");
    assert(precedes_at("editorconfig"@, "ejs"@, 1));
    reveal_strlit("el");
    assert(precedes_at("ejs"@, "el"@, 1));
    reveal_strlit("elm");
    assert(precedes_at("el"@, "elm"@, 2));
    reveal_strlit("eml");
    assert(precedes_at("elm"@, "eml"@, 1));
    reveal_strlit("env");
    assert(precedes_at("eml"@, "env"@, 1));
    reveal_strlit("eot");
    assert(precedes_at("env"@, "eot"@, 1));
    reveal_strlit("eps");
    assert(precedes_at("eot"@, "eps"@, 1));
    reveal_strlit("epub");
    assert(precedes_at("eps"@, "epub"@, 2));
    reveal_strlit("erb");
    assert(precedes_at("epub"@, "erb"@, 1));
    reveal_strlit("erl");
    assert(precedes_at("erb"@, "erl"@, 2));
    reveal_strlit("ex");
    assert(precedes_at("erl"@, "ex"@, 1));
    reveal_strlit("exe");
    assert(precedes_at("ex"@, "exe"@, 2));
    reveal_strlit("exs");
    assert(precedes_at("exe"@, "exs"@, 2));
    reveal_strlit("fish");
    assert(precedes_at("exs"@, "fish"@, 0));
    reveal_strlit("flac");
    assert(precedes_at("fish"@, "flac"@, 1));
    reveal_strlit("flv");
    assert(precedes_at("flac"@, "flv"@, 2));
    reveal_strlit("font");
    assert(precedes_at("flv"@, "font"@, 1));
    reveal_strlit("fs");
    assert(precedes_at("font"@, "fs"@, 1));
    reveal_strlit("fsi");
    assert(precedes_at("fs"@, "fsi"@, 2));
    reveal_strlit("fsx");
    assert(precedes_at("fsi"@, "fsx"@, 2));
    reveal_strlit("gdoc");
    assert(precedes_at("fsx"@, "gdoc"@, 0));
    reveal_strlit("gem");
    assert(precedes_at("gdoc"@, "gem"@, 1));
    reveal_strlit("gemfile");
    assert(precedes_at("gem"@, "gemfile"@, 3));
    reveal_strlit("gemspec");
    assert(precedes_at("gemfile"@, "gemspec"@, 3));
    reveal_strlit("gform");
    assert(precedes_at("gemspec"@, "gform"@, 1));
    reveal_strlit("gif");
    assert(precedes_at("gform"@, "gif"@, 1));
    reveal_strlit("git");
    assert(precedes_at("gif"@, "git"@, 2));
    reveal_strlit("gitattributes");
    assert(precedes_at("git"@, "gitattributes"@, 3));
    reveal_strlit("gitignore");
    assert(precedes_at("gitattributes"@, "gitignore"@, 3));
    reveal_strlit("gitmodules");
    assert(precedes_at("gitignore"@, "gitmodules"@, 3));
    reveal_strlit("go");
    assert(precedes_at("gitmodules"@, "go"@, 1));
    reveal_strlit("gpg");
    assert(precedes_at("go"@, "gpg"@, 1));
    reveal_strlit("gradle");
    assert(precedes_at("gpg"@, "gradle"@, 1));
    reveal_strlit("groovy");
    assert(precedes_at("gradle"@, "groovy"@, 2));
    reveal_strlit("gsheet");
    assert(precedes_at("groovy"@, "gsheet"@, 1));
    reveal_strlit("gslides");
    assert(precedes_at("gsheet"@, "gslides"@, 2));
    reveal_strlit("guardfile");
    assert(precedes_at("gslides"@, "guardfile"@, 1));
    reveal_strlit("gz");
    assert(precedes_at("guardfile"@, "gz"@, 1));
    reveal_strlit("h");
    assert(precedes_at("gz"@, "h"@, 0));
    reveal_strlit("hbs");
    assert(precedes_at("h"@, "hbs"@, 1));
    reveal_strlit("heic");
    assert(precedes_at("hbs"@, "heic"@, 1));
    reveal_strlit("heif");
    assert(precedes_at("heic"@, "heif"@, 3));
    reveal_strlit("hpp");
    assert(precedes_at("heif"@, "hpp"@, 1));
    reveal_strlit("hs");
    assert(precedes_at("hpp"@, "hs"@, 1));
    reveal_strlit("htm");
    assert(precedes_at("hs"@, "htm"@, 1));
    reveal_strlit("html");
    assert(precedes_at("htm"@, "html"@, 3));
    reveal_strlit("hxx");
    assert(precedes_at("html"@, "hxx"@, 1));
    reveal_strlit("ical");
    assert(precedes_at("hxx"@, "ical"@, 0));
    reveal_strlit("icalendar");
    assert(precedes_at("ical"@, "icalendar"@, 4));
    reveal_strlit("ico");
    assert(precedes_at("icalendar"@, "ico"@, 2));
    reveal_strlit("ics");
    assert(precedes_at("ico"@, "ics"@, 2));
    reveal_strlit("ifb");
    assert(precedes_at("ics"@, "ifb"@, 1));
    reveal_strlit("image");
    assert(precedes_at("ifb"@, "image"@, 1));
    reveal_strlit("img");
    assert(precedes_at("image"@, "img"@, 2));
    reveal_strlit("iml");
    assert(precedes_at("img"@, "iml"@, 2));
    reveal_strlit("ini");
    assert(precedes_at("iml"@, "ini"@, 1));
    reveal_strlit("ipynb");
    assert(precedes_at("ini"@, "ipynb"@, 1));
    reveal_strlit("iso");
    assert(precedes_at("ipynb"@, "iso"@, 1));
    reveal_strlit("j2c");
    assert(precedes_at("iso"@, "j2c"@, 0));
    reveal_strlit("j2k");
    assert(precedes_at("j2c"@, "j2k"@, 2));
    reveal_strlit("jad");
    assert(precedes_at("j2k"@, "jad"@, 1));
    reveal_strlit("jar");
    assert(precedes_at("jad"@, "jar"@, 2));
    reveal_strlit("java");
    assert(precedes_at("jar"@, "java"@, 2));
    reveal_strlit("jfi");
    assert(precedes_at("java"@, "jfi"@, 1));
    reveal_strlit("jfif");
    assert(precedes_at("jfi"@, "jfif"@, 3));
    reveal_strlit("jif");
    assert(precedes_at("jfif"@, "jif"@, 1));
    reveal_strlit("jl");
    assert(precedes_at("jif"@, "jl"@, 1));
    reveal_strlit("jmd");
    assert(precedes_at("jl"@, "jmd"@, 1));
    reveal_strlit("jp2");
    assert(precedes_at("jmd"@, "jp2"@, 1));
    reveal_strlit("jpe");
    assert(precedes_at("jp2"@, "jpe"@, 2));
    reveal_strlit("jpeg");
    assert(precedes_at("jpe"@, "jpeg"@, 3));
    reveal_strlit("jpf");
    assert(precedes_at("jpeg"@, "jpf"@, 2));
    reveal_strlit("jpg");
    assert(precedes_at("jpf"@, "jpg"@, 2));
    reveal_strlit("jpx");
    assert(precedes_at("jpg"@, "jpx"@, 2));
    reveal_strlit("js");
    assert(precedes_at("jpx"@, "js"@, 1));
    reveal_strlit("json");
    assert(precedes_at("js"@, "json"@, 2));
    reveal_strlit("jsx");
    assert(precedes_at("json"@, "jsx"@, 2));
    reveal_strlit("jxl");
    assert(precedes_at("jsx"@, "jxl"@, 1));
    reveal_strlit("kdb");
    assert(precedes_at("jxl"@, "kdb"@, 0));
    reveal_strlit("kdbx");
    assert(precedes_at("kdb"@, "kdbx"@, 3));
    reveal_strlit("key");
    assert(precedes_at("kdbx"@, "key"@, 1));
    reveal_strlit("ko");
    assert(precedes_at("key"@, "ko"@, 1));
    reveal_strlit("ksh");
    assert(precedes_at("ko"@, "ksh"@, 1));
    reveal_strlit("latex");
    assert(precedes_at("ksh"@, "latex"@, 0));
    reveal_strlit("less");
    assert(precedes_at("latex"@, "less"@, 1));
    reveal_strlit("lhs");
    assert(precedes_at("less"@, "lhs"@, 1));
    reveal_strlit("license");
    assert(precedes_at("lhs"@, "license"@, 1));
    reveal_strlit("localized");
    assert(precedes_at("license"@, "localized"@, 1));
    reveal_strlit("lock");
    assert(precedes_at("localized"@, "lock"@, 3));
    reveal_strlit("log");
    assert(precedes_at("lock"@, "log"@, 2));
    reveal_strlit("lua");
    assert(precedes_at("log"@, "lua"@, 1));
    reveal_strlit("lz");
    assert(precedes_at("lua"@, "lz"@, 1));
    reveal_strlit("lz4");
    assert(precedes_at("lz"@, "lz4"@, 2));
    reveal_strlit("lzh");
    assert(precedes_at("lz4"@, "lzh"@, 2));
    reveal_strlit("lzma");
    assert(precedes_at("lzh"@, "lzma"@, 2));
    reveal_strlit("lzo");
    assert(precedes_at("lzma"@, "lzo"@, 2));
    reveal_strlit("m");
    assert(precedes_at("lzo"@, "m"@, 0));
    reveal_strlit("m2ts");
    assert(precedes_at("m"@, "m2ts"@, 1));
    reveal_strlit("m2v");
    assert(precedes_at("m2ts"@, "m2v"@, 2));
    reveal_strlit("m4a");
    assert(precedes_at("m2v"@, "m4a"@, 1));
    reveal_strlit("m4v");
    assert(precedes_at("m4a"@, "m4v"@, 2));
    reveal_strlit("magnet");
    assert(precedes_at("m4v"@, "magnet"@, 1));
    reveal_strlit("markdown");
    assert(precedes_at("magnet"@, "markdown"@, 2));
    reveal_strlit("md");
    assert(precedes_at("markdown"@, "md"@, 1));
    reveal_strlit("mjs");
    assert(precedes_at("md"@, "mjs"@, 1));
    reveal_strlit("mk");
    assert(precedes_at("mjs"@, "mk"@, 1));
    reveal_strlit("mka");
    assert(precedes_at("mk"@, "mka"@, 2));
    reveal_strlit("mkd");
    assert(precedes_at("mka"@, "mkd"@, 2));
    reveal_strlit("mkv");
    assert(precedes_at("mkd"@, "mkv"@, 2));
    reveal_strlit("ml");
    assert(precedes_at("mkv"@, "ml"@, 1));
    reveal_strlit("mli");
    assert(precedes_at("ml"@, "mli"@, 2));
    reveal_strlit("mll");
    assert(precedes_at("mli"@, "mll"@, 2));
    reveal_strlit("mly");
    assert(precedes_at("mll"@, "mly"@, 2));
    reveal_strlit("mm");
    assert(precedes_at("mly"@, "mm"@, 1));
    reveal_strlit("mobi");
    assert(precedes_at("mm"@, "mobi"@, 1));
    reveal_strlit("mov");
    assert(precedes_at("mobi"@, "mov"@, 2));
    reveal_strlit("mp2");
    assert(precedes_at("mov"@, "mp2"@, 1));
    reveal_strlit("mp3");
    assert(precedes_at("mp2"@, "mp3"@, 2));
    reveal_strlit("mp4");
    assert(precedes_at("mp3"@, "mp4"@, 2));
    reveal_strlit("mpeg");
    assert(precedes_at("mp4"@, "mpeg"@, 2));
    reveal_strlit("mpg");
    assert(precedes_at("mpeg"@, "mpg"@, 2));
    reveal_strlit("msi");
    assert(precedes_at("mpg"@, "msi"@, 1));
    reveal_strlit("mts");
    assert(precedes_at("msi"@, "mts"@, 1));
    reveal_strlit("mustache");
    assert(precedes_at("mts"@, "mustache"@, 1));
    reveal_strlit("nef");
    assert(precedes_at("mustache"@, "nef"@, 0));
    reveal_strlit("ninja");
    assert(precedes_at("nef"@, "ninja"@, 1));
    reveal_strlit("nix");
    assert(precedes_at("ninja"@, "nix"@, 2));
    reveal_strlit("node");
    assert(precedes_at("nix"@, "node"@, 1));
    reveal_strlit("npmignore");
    assert(precedes_at("node"@, "npmignore"@, 1));
    reveal_strlit("o");
    assert(precedes_at("npmignore"@, "o"@, 0));
    reveal_strlit("odp");
    assert(precedes_at("o"@, "odp"@, 1));
    reveal_strlit("ods");
    assert(precedes_at("odp"@, "ods"@, 2));
    reveal_strlit("odt");
    assert(precedes_at("ods"@, "odt"@, 2));
    reveal_strlit("ogg");
    assert(precedes_at("odt"@, "ogg"@, 1));
    reveal_strlit("ogm");
    assert(precedes_at("ogg"@, "ogm"@, 2));
    reveal_strlit("ogv");
    assert(precedes_at("ogm"@, "ogv"@, 2));
    reveal_strlit("opus");
    assert(precedes_at("ogv"@, "opus"@, 1));
    reveal_strlit("orf");
    assert(precedes_at("opus"@, "orf"@, 1));
    reveal_strlit("org");
    assert(precedes_at("orf"@, "org"@, 2));
    reveal_strlit("otf");
    assert(precedes_at("org"@, "otf"@, 1));
    reveal_strlit("out");
    assert(precedes_at("otf"@, "out"@, 1));
    reveal_strlit("par");
    assert(precedes_at("out"@, "par"@, 0));
    reveal_strlit("part");
    assert(precedes_at("par"@, "part"@, 3));
    reveal_strlit("patch");
    assert(precedes_at("part"@, "patch"@, 2));
    reveal_strlit("pbm");
    assert(precedes_at("patch"@, "pbm"@, 1));
    reveal_strlit("pdf");
    assert(precedes_at("pbm"@, "pdf"@, 1));
    reveal_strlit("pem");
    assert(precedes_at("pdf"@, "pem"@, 1));
    reveal_strlit("pgm");
    assert(precedes_at("pem"@, "pgm"@, 1));
    reveal_strlit("php");
    assert(precedes_at("pgm"@, "php"@, 1));
    reveal_strlit("pl");
    assert(precedes_at("php"@, "pl"@, 1));
    reveal_strlit("plx");
    assert(precedes_at("pl"@, "plx"@, 2));
    reveal_strlit("pm");
    assert(precedes_at("plx"@, "pm"@, 1));
    reveal_strlit("png");
    assert(precedes_at("pm"@, "png"@, 1));
    reveal_strlit("pnm");
    assert(precedes_at("png"@, "pnm"@, 2));
    reveal_strlit("pod");
    assert(precedes_at("pnm"@, "pod"@, 1));
    reveal_strlit("ppm");
    assert(precedes_at("pod"@, "ppm"@, 1));
    reveal_strlit("ppt");
    assert(precedes_at("ppm"@, "ppt"@, 2));
    reveal_strlit("pptx");
    assert(precedes_at("ppt"@, "pptx"@, 3));
    reveal_strlit("procfile");
    assert(precedes_at("pptx"@, "procfile"@, 1));
    reveal_strlit("properties");
    assert(precedes_at("procfile"@, "properties"@, 3));
    reveal_strlit("ps");
    assert(precedes_at("properties"@, "ps"@, 1));
    reveal_strlit("ps1");
    assert(precedes_at("ps"@, "ps1"@, 2));
    reveal_strlit("psd");
    assert(precedes_at("ps1"@, "psd"@, 2));
    reveal_strlit("psd1");
    assert(precedes_at("psd"@, "psd1"@, 3));
    reveal_strlit("psm1");
    assert(precedes_at("psd1"@, "psm1"@, 2));
    reveal_strlit("pxm");
    assert(precedes_at("psm1"@, "pxm"@, 1));
    reveal_strlit("py");
    assert(precedes_at("pxm"@, "py"@, 1));
    reveal_strlit("pyc");
    assert(precedes_at("py"@, "pyc"@, 2));
    reveal_strlit("qcow2");
    assert(precedes_at("pyc"@, "qcow2"@, 0));
    reveal_strlit("r");
    assert(precedes_at("qcow2"@, "r"@, 0));
    reveal_strlit("rakefile");
    assert(precedes_at("r"@, "rakefile"@, 1));
    reveal_strlit("rar");
    assert(precedes_at("rakefile"@, "rar"@, 2));
    reveal_strlit("raw");
    assert(precedes_at("rar"@, "raw"@, 2));
    reveal_strlit("razor");
    assert(precedes_at("raw"@, "razor"@, 2));
    reveal_strlit("rb");
    assert(precedes_at("razor"@, "rb"@, 1));
    reveal_strlit("rdata");
    assert(precedes_at("rb"@, "rdata"@, 1));
    reveal_strlit("rdb");
    assert(precedes_at("rdata"@, "rdb"@, 2));
    reveal_strlit("rdoc");
    assert(precedes_at("rdb"@, "rdoc"@, 2));
    reveal_strlit("rds");
    assert(precedes_at("rdoc"@, "rds"@, 2));
    reveal_strlit("readme");
    assert(precedes_at("rds"@, "readme"@, 1));
    reveal_strlit("rlib");
    assert(precedes_at("readme"@, "rlib"@, 1));
    reveal_strlit("rmd");
    assert(precedes_at("rlib"@, "rmd"@, 1));
    reveal_strlit("rmeta");
    assert(precedes_at("rmd"@, "rmeta"@, 2));
    reveal_strlit("rpm");
    assert(precedes_at("rmeta"@, "rpm"@, 1));
    reveal_strlit("rs");
    assert(precedes_at("rpm"@, "rs"@, 1));
    reveal_strlit("rspec");
    assert(precedes_at("rs"@, "rspec"@, 2));
    reveal_strlit("rspec_parallel");
    assert(precedes_at("rspec"@, "rspec_parallel"@, 5));
    reveal_strlit("rspec_status");
    assert(precedes_at("rspec_parallel"@, "rspec_status"@, 6));
    reveal_strlit("rss");
    assert(precedes_at("rspec_status"@, "rss"@, 2));
    reveal_strlit("rst");
    assert(precedes_at("rss"@, "rst"@, 2));
    reveal_strlit("rtf");
    assert(precedes_at("rst"@, "rtf"@, 1));
    reveal_strlit("ru");
    assert(precedes_at("rtf"@, "ru"@, 1));
    reveal_strlit("rubydoc");
    assert(precedes_at("ru"@, "rubydoc"@, 2));
    reveal_strlit("s");
    assert(precedes_at("rubydoc"@, "s"@, 0));
    reveal_strlit("sass");
    assert(precedes_at("s"@, "sass"@, 1));
    reveal_strlit("scala");
    assert(precedes_at("sass"@, "scala"@, 1));
    reveal_strlit("scss");
    assert(precedes_at("scala"@, "scss"@, 2));
    reveal_strlit("service");
    assert(precedes_at("scss"@, "service"@, 1));
    reveal_strlit("sh");
    assert(precedes_at("service"@, "sh"@, 1));
    reveal_strlit("shell");
    assert(precedes_at("sh"@, "shell"@, 2));
    reveal_strlit("slim");
    assert(precedes_at("shell"@, "slim"@, 1));
    reveal_strlit("sln");
    assert(precedes_at("slim"@, "sln"@, 2));
    reveal_strlit("so");
    assert(precedes_at("sln"@, "so"@, 1));
    reveal_strlit("sql");
    assert(precedes_at("so"@, "sql"@, 1));
    reveal_strlit("sqlite3");
    assert(precedes_at("sql"@, "sqlite3"@, 3));
    reveal_strlit("stl");
    assert(precedes_at("sqlite3"@, "stl"@, 1));
    reveal_strlit("sty");
    assert(precedes_at("stl"@, "sty"@, 2));
    reveal_strlit("styl");
    assert(precedes_at("sty"@, "styl"@, 3));
    reveal_strlit("stylus");
    assert(precedes_at("styl"@, "stylus"@, 4));
    reveal_strlit("svelte");
    assert(precedes_at("stylus"@, "svelte"@, 1));
    reveal_strlit("svg");
    assert(precedes_at("svelte"@, "svg"@, 2));
    reveal_strlit("swift");
    assert(precedes_at("svg"@, "swift"@, 1));
    reveal_strlit("t");
    assert(precedes_at("swift"@, "t"@, 0));
    reveal_strlit("tar");
    assert(precedes_at("t"@, "tar"@, 1));
    reveal_strlit("taz");
    assert(precedes_at("tar"@, "taz"@, 2));
    reveal_strlit("tbz");
    assert(precedes_at("taz"@, "tbz"@, 1));
    reveal_strlit("tbz2");
    assert(precedes_at("tbz"@, "tbz2"@, 3));
    reveal_strlit("tc");
    assert(precedes_at("tbz2"@, "tc"@, 1));
    reveal_strlit("tex");
    assert(precedes_at("tc"@, "tex"@, 1));
    reveal_strlit("tgz");
    assert(precedes_at("tex"@, "tgz"@, 1));
    reveal_strlit("tif");
    assert(precedes_at("tgz"@, "tif"@, 1));
    reveal_strlit("tiff");
    assert(precedes_at("tif"@, "tiff"@, 3));
    reveal_strlit("tlz");
    assert(precedes_at("tiff"@, "tlz"@, 1));
    reveal_strlit("toml");
    assert(precedes_at("tlz"@, "toml"@, 1));
    reveal_strlit("torrent");
    assert(precedes_at("toml"@, "torrent"@, 2));
    reveal_strlit("ts");
    assert(precedes_at("torrent"@, "ts"@, 1));
    reveal_strlit("tsv");
    assert(precedes_at("ts"@, "tsv"@, 2));
    reveal_strlit("tsx");
    assert(precedes_at("tsv"@, "tsx"@, 2));
    reveal_strlit("ttf");
    assert(precedes_at("tsx"@, "ttf"@, 1));
    reveal_strlit("twig");
    assert(precedes_at("ttf"@, "twig"@, 1));
    reveal_strlit("txt");
    assert(precedes_at("twig"@, "txt"@, 1));
    reveal_strlit("txz");
    assert(precedes_at("txt"@, "txz"@, 2));
    reveal_strlit("tz");
    assert(precedes_at("txz"@, "tz"@, 1));
    reveal_strlit("tzo");
    assert(precedes_at("tz"@, "tzo"@, 2));
    reveal_strlit("unity");
    assert(precedes_at("tzo"@, "unity"@, 0));
    reveal_strlit("unity3d");
    assert(precedes_at("unity"@, "unity3d"@, 5));
    reveal_strlit("vdi");
    assert(precedes_at("unity3d"@, "vdi"@, 0));
    reveal_strlit("vhd");
    assert(precedes_at("vdi"@, "vhd"@, 1));
    reveal_strlit("video");
    assert(precedes_at("vhd"@, "video"@, 1));
    reveal_strlit("vim");
    assert(precedes_at("video"@, "vim"@, 2));
    reveal_strlit("vmdk");
    assert(precedes_at("vim"@, "vmdk"@, 1));
    reveal_strlit("vob");
    assert(precedes_at("vmdk"@, "vob"@, 1));
    reveal_strlit("vue");
    assert(precedes_at("vob"@, "vue"@, 1));
    reveal_strlit("war");
    assert(precedes_at("vue"@, "war"@, 0));
    reveal_strlit("wav");
    assert(precedes_at("war"@, "wav"@, 2));
    reveal_strlit("webm");
    assert(precedes_at("wav"@, "webm"@, 1));
    reveal_strlit("webp");
    assert(precedes_at("webm"@, "webp"@, 3));
    reveal_strlit("windows");
    assert(precedes_at("webp"@, "windows"@, 1));
    reveal_strlit("wma");
    assert(precedes_at("windows"@, "wma"@, 1));
    reveal_strlit("wmv");
    assert(precedes_at("wma"@, "wmv"@, 2));
    reveal_strlit("woff");
    assert(precedes_at("wmv"@, "woff"@, 1));
    reveal_strlit("woff2");
    assert(precedes_at("woff"@, "woff2"@, 4));
    reveal_strlit("xhtml");
    assert(precedes_at("woff2"@, "xhtml"@, 0));
    reveal_strlit("xls");
    assert(precedes_at("xhtml"@, "xls"@, 1));
    reveal_strlit("xlsm");
    assert(precedes_at("xls"@, "xlsm"@, 3));
    reveal_strlit("xlsx");
    assert(precedes_at("xlsm"@, "xlsx"@, 3));
    reveal_strlit("xml");
    assert(precedes_at("xlsx"@, "xml"@, 1));
    reveal_strlit("xpm");
    assert(precedes_at("xml"@, "xpm"@, 1));
    reveal_strlit("xul");
    assert(precedes_at("xpm"@, "xul"@, 1));
    reveal_strlit("xz");
    assert(precedes_at("xul"@, "xz"@, 1));
    reveal_strlit("yaml");
    assert(precedes_at("xz"@, "yaml"@, 0));
    reveal_strlit("yml");
    assert(precedes_at("yaml"@, "yml"@, 1));
    reveal_strlit("z");
    assert(precedes_at("yml"@, "z"@, 0));
    reveal_strlit("zig");
    assert(precedes_at("z"@, "zig"@, 1));
    reveal_strlit("zip");
    assert(precedes_at("zig"@, "zip"@, 2));
    reveal_strlit("zsh");
    assert(precedes_at("zip"@, "zsh"@, 1));
    reveal_strlit("zsh-theme");
    assert(precedes_at("zsh"@, "zsh-theme"@, 3));
    reveal_strlit("zshrc");
    assert(precedes_at("zsh-theme"@, "zshrc"@, 3));
    reveal_strlit("zst");
    assert(precedes_at("zshrc"@, "zst"@, 2));
}

} // verus!
