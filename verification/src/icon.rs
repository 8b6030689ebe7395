//! The icon of the prompt, which the host keeps in a cache file.

use crate::path::{join, joined};
use vstd::prelude::*;

verus! {

/// The cache directory, from the home directory.
pub const CACHE_DIRECTORY: &'static str = "Library/Caches/yumetouch";

/// The name of the icon file in the cache directory.
pub const ICON_FILE: &'static str = "icon.png";

/// The directory that holds the cached icon.
pub open spec fn cache_directory_in(home: Seq<char>) -> Seq<char> {
    joined(home, CACHE_DIRECTORY@)
}

/// The file that holds the cached icon.
pub open spec fn icon_path_in(home: Seq<char>) -> Seq<char> {
    joined(cache_directory_in(home), ICON_FILE@)
}

/// The directory that holds the cached icon, given the home directory.
pub fn cache_directory(home: &str) -> (directory: String)
    ensures
        directory@ == cache_directory_in(home@),
{
    join(home, CACHE_DIRECTORY)
}

/// The file that holds the cached icon, given the home directory.
pub fn icon_path(home: &str) -> (path: String)
    ensures
        path@ == icon_path_in(home@),
{
    let directory = cache_directory(home);
    join(directory.as_str(), ICON_FILE)
}

/// Whether the cached icon can be kept: there is a file, `cached_len` bytes
/// long, and the icon has as many. Else the host writes the icon anew.
pub fn is_cached(cached_len: Option<u64>, icon_len: u64) -> (current: bool)
    ensures
        current == (cached_len == Some(icon_len)),
{
    match cached_len {
        Some(len) => len == icon_len,
        None => false,
    }
}

} // verus!
