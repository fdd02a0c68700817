//! Permission nodes.
//!
//! A permission is a dot-separated node, optionally a wildcard.  A plain
//! node matches exactly itself; a wildcard node `a.b.*` (stored as node
//! `a.b` with the wildcard flag) matches every node that continues it
//! past a dot.

use vstd::prelude::*;

use crate::errors::{PermissionErrorView, PermissionParseError};
use crate::text::str_eq;

verus! {

/// Whatever can be matched against a permission node.
pub trait Permissible<T> {
    /// Whether this permission grants `perm_node`.
    fn matches(&self, perm_node: T) -> bool;
}

/// One permission: a node, and whether it is a wildcard.
#[derive(Debug, PartialEq)]
pub struct Permission {
    node: String,
    wildcard: bool,
}

/// Spec-level view of `Permission`.
pub struct PermissionView {
    pub node: Seq<char>,
    pub wildcard: bool,
}

impl View for Permission {
    type V = PermissionView;

    closed spec fn view(&self) -> PermissionView {
        PermissionView { node: self.node@, wildcard: self.wildcard }
    }
}

/// Whether a permission grants a node: exact equality without the
/// wildcard; with it, the node must continue the permission's node past
/// a dot.
pub open spec fn spec_matches(p: PermissionView, perm_node: Seq<char>) -> bool {
    if !p.wildcard {
        p.node == perm_node
    } else {
        &&& perm_node.len() > p.node.len()
        &&& perm_node.subrange(0, p.node.len() as int) == p.node
        &&& perm_node[p.node.len() as int] == '.'
    }
}

/// What parsing a textual permission yields.  The text must not be empty
/// and must not end in a dot; a trailing `*` must follow a dot, and both
/// are stripped from the stored node.
pub open spec fn spec_parse_permission(v: Seq<char>) -> Result<PermissionView, ()> {
    if v.len() == 0 {
        Err(())
    } else if v.last() == '.' {
        Err(())
    } else if v.last() == '*' {
        if v.len() >= 2 && v[v.len() - 2] == '.' {
            Ok(PermissionView { node: v.subrange(0, v.len() - 2), wildcard: true })
        } else {
            Err(())
        }
    } else {
        Ok(PermissionView { node: v, wildcard: false })
    }
}

impl Permission {
    /// Builds a permission from its parts.
    pub fn new(node: String, wildcard: bool) -> (p: Permission)
        ensures
            p@ == (PermissionView { node: node@, wildcard }),
    {
        Permission { node, wildcard }
    }

    /// The node this permission is about.
    pub fn node(&self) -> (r: &String)
        ensures
            r@ == self@.node,
    {
        &self.node
    }

    /// Whether this permission is a wildcard.
    pub fn wildcard(&self) -> (r: bool)
        ensures
            r == self@.wildcard,
    {
        self.wildcard
    }

    /// Whether this permission grants `perm_node`.
    pub fn matches_node(&self, perm_node: &str) -> (r: bool)
        ensures
            r == spec_matches(self@, perm_node@),
    {
        if !self.wildcard {
            str_eq(self.node.as_str(), perm_node)
        } else {
            let nl: usize = self.node.as_str().unicode_len();
            let pl: usize = perm_node.unicode_len();
            if pl <= nl {
                return false;
            }
            if perm_node.get_char(nl) != '.' {
                return false;
            }
            let prefix: &str = perm_node.substring_char(0, nl);
            str_eq(prefix, self.node.as_str())
        }
    }

    /// Parses a permission from its textual form.
    pub fn try_from(value: &String) -> (r: Result<Permission, PermissionParseError>)
        ensures
            match r {
                Ok(p) => spec_parse_permission(value@) == Ok::<PermissionView, ()>(p@),
                Err(e) => spec_parse_permission(value@) is Err && e@
                    == PermissionErrorView::InvalidPermissionString(value@),
            },
    {
        let st: &str = value.as_str();
        let n: usize = st.unicode_len();
        if n == 0 {
            return Err(PermissionParseError::InvalidPermissionString(value.clone()));
        }
        let last: char = st.get_char(n - 1);
        if last == '.' {
            return Err(PermissionParseError::InvalidPermissionString(value.clone()));
        }
        if last == '*' {
            if n >= 2 && st.get_char(n - 2) == '.' {
                let node: &str = st.substring_char(0, n - 2);
                Ok(Permission { node: node.to_owned(), wildcard: true })
            } else {
                Err(PermissionParseError::InvalidPermissionString(value.clone()))
            }
        } else {
            Ok(Permission { node: value.clone(), wildcard: false })
        }
    }
}

impl Permissible<&str> for Permission {
    fn matches(&self, perm_node: &str) -> bool {
        self.matches_node(perm_node)
    }
}

impl Permissible<&String> for Permission {
    fn matches(&self, perm_node: &String) -> bool {
        self.matches_node(perm_node.as_str())
    }
}

} // verus!
