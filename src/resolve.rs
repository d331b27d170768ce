use vstd::prelude::*;
use crate::models::ApiError;

verus! {

/// An absolute directory path, as the parts that the base/name split reads.
#[derive(Clone, Debug)]
pub struct ResolvedPath {
    /// The path as text.
    pub full: String,
    /// The filesystem-root prefix (a drive such as `C:`), when the platform has one.
    pub prefix: Option<String>,
    /// The parent directory as text; `None` when the path has no parent.
    pub parent: Option<String>,
    /// The final component; `None` at a root.
    pub name: Option<String>,
    /// The path is a filesystem root.
    pub is_root: bool,
    /// The parent is a filesystem root, or there is no parent.
    pub parent_is_root: bool,
}

/// Text of an optional string, empty when absent.
pub open spec fn text_or_empty(s: Option<String>) -> Seq<char> {
    match s {
        Some(t) => t@,
        None => Seq::empty(),
    }
}

/// A path splits when it is a root, its parent is a root, or it has a parent.
pub open spec fn splits(p: ResolvedPath) -> bool {
    p.is_root || p.parent_is_root || p.parent.is_some()
}

/// The base directory: the root prefix (empty if none) for a root and for a
/// root's direct child; the parent directory for any deeper path.
pub open spec fn base_of(p: ResolvedPath) -> Seq<char> {
    if p.is_root || p.parent_is_root {
        text_or_empty(p.prefix)
    } else {
        p.parent->0@
    }
}

/// The item name: the final component, empty at a root.
pub open spec fn name_of(p: ResolvedPath) -> Seq<char> {
    text_or_empty(p.name)
}

fn text_or_empty_exec(s: &Option<String>) -> (r: String)
    ensures
        r@ == text_or_empty(*s),
{
    match s {
        Some(t) => t.clone(),
        None => String::new(),
    }
}

/// Splits a directory path into base directory and item name, so that a
/// caller always knows where one level up leads. Fails only for a path that
/// is neither a root nor a root's child and has no parent.
pub fn split_path(p: &ResolvedPath) -> (r: Result<(String, String), ApiError>)
    ensures
        splits(*p) <==> r.is_ok(),
        r matches Ok((base, nm)) ==> base@ == base_of(*p) && nm@ == name_of(*p),
        r matches Err(e) ==> e is Folder,
{
    let base = if p.is_root || p.parent_is_root {
        text_or_empty_exec(&p.prefix)
    } else {
        match &p.parent {
            Some(parent) => parent.clone(),
            None => {
                return Err(ApiError::Folder(String::from_str("Err Parent")));
            },
        }
    };
    Ok((base, text_or_empty_exec(&p.name)))
}

} // verus!
