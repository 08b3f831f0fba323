//! The post value type: a single message inside a thread.

use vstd::prelude::*;

verus! {

/// A single message inside a thread. Only the identifier is mandatory;
/// an anonymous poster may leave every other field empty. A post is
/// created once and never mutated.
pub struct Post {
    pub id: u128,
    pub name: Option<String>,
    pub subject: Option<String>,
    pub content: Option<String>,
    pub media_url: Option<String>,
}

/// The ordered collection of posts owned by one thread.
pub struct Posts {
    pub posts: Vec<Post>,
}

/// The caller-supplied fields for a new post: everything but the identifier.
pub struct ThreadCreation {
    pub name: Option<String>,
    pub subject: Option<String>,
    pub content: Option<String>,
    pub media_url: Option<String>,
}

/// Whether the post `p` carries exactly the caller-supplied fields `f`,
/// whatever its identifier.
pub open spec fn post_fields_match(p: Post, f: ThreadCreation) -> bool {
    &&& p.name == f.name
    &&& p.subject == f.subject
    &&& p.content == f.content
    &&& p.media_url == f.media_url
}

fn clone_opt_string(s: &Option<String>) -> (r: Option<String>)
    ensures
        r == *s,
{
    match s {
        Some(inner) => Some(inner.clone()),
        None => None,
    }
}

impl Clone for Post {
    fn clone(&self) -> (r: Self)
        ensures
            r == *self,
    {
        Post {
            id: self.id,
            name: clone_opt_string(&self.name),
            subject: clone_opt_string(&self.subject),
            content: clone_opt_string(&self.content),
            media_url: clone_opt_string(&self.media_url),
        }
    }
}

impl Post {
    /// The post that the given creation fields describe, under the given
    /// identifier.
    pub open spec fn spec_from_fields(id: u128, fields: ThreadCreation) -> Post {
        Post {
            id,
            name: fields.name,
            subject: fields.subject,
            content: fields.content,
            media_url: fields.media_url,
        }
    }

    /// Build the post that `fields` describes, under the identifier `id`.
    pub fn from_fields(id: u128, fields: ThreadCreation) -> (r: Post)
        ensures
            r == Post::spec_from_fields(id, fields),
    {
        Post {
            id,
            name: fields.name,
            subject: fields.subject,
            content: fields.content,
            media_url: fields.media_url,
        }
    }
}

} // verus!
