//! The wallpaper response entity and its nested records. Every field that
//! the server sends only on request (or at its own choice) is a true
//! optional: absence is an expected state, not an error.

use vstd::prelude::*;

verus! {

/// One catalog entry. The optional fields are present only when the
/// matching display toggle was set or the server chose to include them.
#[derive(Debug, Clone, PartialEq)]
pub struct Wallpaper {
    pub id: u16,
    pub all_free: Option<bool>,
    pub comments: Option<Comments>,
    pub content: Option<String>,
    pub free: Option<bool>,
    pub name: String,
    pub paths: Paths,
    pub pickle_jar: Option<PickleJar>,
    pub rating: Option<String>,
    pub resolutions: Option<Resolutions>,
    pub sku: Option<String>,
    pub tags: Option<Vec<(String, Tag)>>,
    pub timestamp: Option<i64>,
}

/// The comment list of a wallpaper.
#[derive(Debug, Clone, PartialEq)]
pub struct Comments {
    pub comments: Vec<Comment>,
}

/// One user comment.
#[derive(Debug, Clone, PartialEq)]
pub struct Comment {
    pub id: String,
    pub author_id: String,
    pub author_display: String,
    pub content: String,
    pub rating: String,
    pub timestamp: i64,
}

/// The wallpaper's API, thumbnail and web paths.
#[derive(Debug, Clone, PartialEq)]
pub struct Paths {
    pub api: String,
    pub thumb: String,
    pub web: String,
}

/// The grouping relation between a wallpaper and the parent and sibling
/// variants in the same series.
#[derive(Debug, Clone, PartialEq)]
pub struct PickleJar {
    pub parent: String,
    pub siblings: Vec<String>,
}

/// The resolution variants of a wallpaper, one list per display
/// configuration.
#[derive(Debug, Clone, PartialEq)]
pub struct Resolutions {
    pub single: Vec<Resolution>,
    pub dual: Option<Vec<Resolution>>,
    pub triple: Option<Vec<Resolution>>,
    pub mobile: Option<Vec<Resolution>>,
}

/// One labeled width-by-height rendering with its image URL.
#[derive(Debug, Clone, PartialEq)]
pub struct Resolution {
    pub label: String,
    pub width: String,
    pub height: String,
    pub image: String,
}

/// One tag of a wallpaper.
#[derive(Debug, Clone, PartialEq)]
pub struct Tag {
    pub id: i64,
    pub name: String,
}

} // verus!
