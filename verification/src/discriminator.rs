//! The closed set of entity kinds and their stored tags.

use vstd::prelude::*;
use crate::error::{UuidError, UuidErrorView};

verus! {

/// The kind of record an identifier stands for.
#[derive(Clone, Copy, Debug, PartialEq, Eq, Structural)]
pub enum Discriminator {
    Attachment,
    BlogPost,
    Comment,
    Entity,
    EntityRevision,
    Page,
    PageRevision,
    TaxonomyTerm,
    User,
}

/// The tag under which a kind is stored.
pub open spec fn tag(d: Discriminator) -> Seq<char> {
    match d {
        Discriminator::Attachment => "attachment"@,
        Discriminator::BlogPost => "blogPost"@,
        Discriminator::Comment => "comment"@,
        Discriminator::Entity => "entity"@,
        Discriminator::EntityRevision => "entityRevision"@,
        Discriminator::Page => "page"@,
        Discriminator::PageRevision => "pageRevision"@,
        Discriminator::TaxonomyTerm => "taxonomyTerm"@,
        Discriminator::User => "user"@,
    }
}

/// The kind that a stored tag names, if it names one.
pub open spec fn kind_of(raw: Seq<char>) -> Option<Discriminator> {
    if exists|d: Discriminator| #[trigger] tag(d) == raw {
        Some(choose|d: Discriminator| #[trigger] tag(d) == raw)
    } else {
        None
    }
}

/// Length and first character of each tag: enough to tell any two apart.
proof fn lemma_tag_shape(d: Discriminator)
    ensures
        match d {
            Discriminator::Attachment => tag(d).len() == 10,
            Discriminator::BlogPost => tag(d).len() == 8,
            Discriminator::Comment => tag(d).len() == 7,
            Discriminator::Entity => tag(d).len() == 6,
            Discriminator::EntityRevision => tag(d).len() == 14,
            Discriminator::Page => tag(d).len() == 4 && tag(d)[0] == 'p',
            Discriminator::PageRevision => tag(d).len() == 12 && tag(d)[0] == 'p',
            Discriminator::TaxonomyTerm => tag(d).len() == 12 && tag(d)[0] == 't',
            Discriminator::User => tag(d).len() == 4 && tag(d)[0] == 'u',
        },
{
    reveal_strlit("attachment");
    reveal_strlit("blogPost");
    reveal_strlit("comment");
    reveal_strlit("entity");
    reveal_strlit("entityRevision");
    reveal_strlit("page");
    reveal_strlit("pageRevision");
    reveal_strlit("taxonomyTerm");
    reveal_strlit("user");
}

/// No two kinds share a tag.
pub proof fn lemma_tags_distinct(a: Discriminator, b: Discriminator)
    requires
        tag(a) == tag(b),
    ensures
        a == b,
{
    lemma_tag_shape(a);
    lemma_tag_shape(b);
}

/// Writing a kind's tag and reading it back gives the kind again.
pub proof fn lemma_round_trip(d: Discriminator)
    ensures
        kind_of(tag(d)) == Some(d),
{
    let found = choose|e: Discriminator| #[trigger] tag(e) == tag(d);
    lemma_tags_distinct(found, d);
}

/// `kind_of` answers `Some(d)` exactly for `d`'s tag.
pub proof fn lemma_kind_of_exact(raw: Seq<char>, d: Discriminator)
    ensures
        kind_of(raw) == Some(d) <==> raw == tag(d),
{
    if raw == tag(d) {
        lemma_round_trip(d);
    }
}

impl Discriminator {
    /// Reads a stored tag. Fails with `InvalidDiscriminator` on any text that
    /// is not the tag of a kind.
    pub fn decode(raw: &str) -> (decoded: Result<Discriminator, UuidError>)
        ensures
            match decoded {
                Ok(d) => kind_of(raw@) == Some(d),
                Err(e) => kind_of(raw@) is None && e@ == UuidErrorView::InvalidDiscriminator,
            },
    {
        let found = if *raw == *"attachment" {
            Some(Discriminator::Attachment)
        } else if *raw == *"blogPost" {
            Some(Discriminator::BlogPost)
        } else if *raw == *"comment" {
            Some(Discriminator::Comment)
        } else if *raw == *"entity" {
            Some(Discriminator::Entity)
        } else if *raw == *"entityRevision" {
            Some(Discriminator::EntityRevision)
        } else if *raw == *"page" {
            Some(Discriminator::Page)
        } else if *raw == *"pageRevision" {
            Some(Discriminator::PageRevision)
        } else if *raw == *"taxonomyTerm" {
            Some(Discriminator::TaxonomyTerm)
        } else if *raw == *"user" {
            Some(Discriminator::User)
        } else {
            None
        };
        match found {
            Some(d) => {
                proof {
                    lemma_round_trip(d);
                }
                Ok(d)
            },
            None => {
                assert forall|d: Discriminator| #[trigger] tag(d) != raw@ by {}
                Err(UuidError::InvalidDiscriminator)
            },
        }
    }

    /// The tag under which this kind is stored.
    pub fn encode(&self) -> (raw: &'static str)
        ensures
            raw@ == tag(*self),
    {
        match self {
            Discriminator::Attachment => "attachment",
            Discriminator::BlogPost => "blogPost",
            Discriminator::Comment => "comment",
            Discriminator::Entity => "entity",
            Discriminator::EntityRevision => "entityRevision",
            Discriminator::Page => "page",
            Discriminator::PageRevision => "pageRevision",
            Discriminator::TaxonomyTerm => "taxonomyTerm",
            Discriminator::User => "user",
        }
    }
}

impl std::str::FromStr for Discriminator {
    type Err = UuidError;

    /// Reads a stored tag, as `decode` does.
    fn from_str(raw: &str) -> (decoded: Result<Discriminator, UuidError>)
        ensures
            match decoded {
                Ok(d) => kind_of(raw@) == Some(d),
                Err(e) => kind_of(raw@) is None && e@ == UuidErrorView::InvalidDiscriminator,
            },
    {
        Discriminator::decode(raw)
    }
}

} // verus!
