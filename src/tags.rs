//! The tag resolver: which of the four tagging schemes an enum uses.
use vstd::prelude::*;
use crate::schema::ContainerOptions;

verus! {

/// Where an enum's discriminant and payload go.
pub struct TagInfo {
    /// The key that holds the variant name (internal and adjacent tagging).
    pub tag: Option<String>,
    /// The key that holds the payload (adjacent tagging).
    pub content: Option<String>,
    /// No discriminant at all.
    pub untagged: bool,
}

/// The four tagging schemes.
#[derive(PartialEq, Eq, Structural, Clone, Copy, Debug)]
pub enum Scheme {
    External,
    Internal,
    Adjacent,
    Untagged,
}

/// The tag information of a container: untagged wins over any tag; a content
/// key counts only beside a tag key.
pub open spec fn resolved(o: ContainerOptions) -> TagInfo {
    if o.untagged {
        TagInfo { tag: None, content: None, untagged: true }
    } else if o.tag.is_some() {
        TagInfo { tag: o.tag, content: o.content, untagged: false }
    } else {
        TagInfo { tag: None, content: None, untagged: false }
    }
}

pub open spec fn scheme_of(ti: TagInfo) -> Scheme {
    if ti.untagged {
        Scheme::Untagged
    } else if ti.tag.is_none() {
        Scheme::External
    } else if ti.content.is_none() {
        Scheme::Internal
    } else {
        Scheme::Adjacent
    }
}

fn clone_opt(o: &Option<String>) -> (r: Option<String>)
    ensures
        r == *o,
{
    match o {
        Some(s) => Some(s.clone()),
        None => None,
    }
}

/// Computes the tag information of a container once.
pub fn resolve_tags(o: &ContainerOptions) -> (r: TagInfo)
    ensures
        r == resolved(*o),
{
    if o.untagged {
        TagInfo { tag: None, content: None, untagged: true }
    } else if o.tag.is_some() {
        TagInfo { tag: clone_opt(&o.tag), content: clone_opt(&o.content), untagged: false }
    } else {
        TagInfo { tag: None, content: None, untagged: false }
    }
}

impl TagInfo {
    pub fn scheme(&self) -> (r: Scheme)
        ensures
            r == scheme_of(*self),
    {
        if self.untagged {
            Scheme::Untagged
        } else if self.tag.is_none() {
            Scheme::External
        } else if self.content.is_none() {
            Scheme::Internal
        } else {
            Scheme::Adjacent
        }
    }
}

} // verus!
