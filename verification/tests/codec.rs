use database_layer::discriminator::Discriminator;
use database_layer::error::UuidError;

const ALL: [Discriminator; 9] = [
    Discriminator::Attachment,
    Discriminator::BlogPost,
    Discriminator::Comment,
    Discriminator::Entity,
    Discriminator::EntityRevision,
    Discriminator::Page,
    Discriminator::PageRevision,
    Discriminator::TaxonomyTerm,
    Discriminator::User,
];

#[test]
fn every_kind_comes_back_from_its_tag() {
    for kind in ALL {
        assert_eq!(Discriminator::decode(kind.encode()), Ok(kind));
    }
}

#[test]
fn tags_are_written_in_camel_case() {
    assert_eq!(Discriminator::Attachment.encode(), "attachment");
    assert_eq!(Discriminator::BlogPost.encode(), "blogPost");
    assert_eq!(Discriminator::Comment.encode(), "comment");
    assert_eq!(Discriminator::Entity.encode(), "entity");
    assert_eq!(Discriminator::EntityRevision.encode(), "entityRevision");
    assert_eq!(Discriminator::Page.encode(), "page");
    assert_eq!(Discriminator::PageRevision.encode(), "pageRevision");
    assert_eq!(Discriminator::TaxonomyTerm.encode(), "taxonomyTerm");
    assert_eq!(Discriminator::User.encode(), "user");
}

#[test]
fn tags_are_read_exactly() {
    assert_eq!(Discriminator::decode("attachment"), Ok(Discriminator::Attachment));
    assert_eq!(Discriminator::decode("blogPost"), Ok(Discriminator::BlogPost));
    assert_eq!(Discriminator::decode("comment"), Ok(Discriminator::Comment));
    assert_eq!(Discriminator::decode("entity"), Ok(Discriminator::Entity));
    assert_eq!(Discriminator::decode("entityRevision"), Ok(Discriminator::EntityRevision));
    assert_eq!(Discriminator::decode("page"), Ok(Discriminator::Page));
    assert_eq!(Discriminator::decode("pageRevision"), Ok(Discriminator::PageRevision));
    assert_eq!(Discriminator::decode("taxonomyTerm"), Ok(Discriminator::TaxonomyTerm));
    assert_eq!(Discriminator::decode("user"), Ok(Discriminator::User));
}

#[test]
fn unknown_tags_are_refused() {
    for raw in ["", "Comment", "COMMENT", "comment ", " comment", "blogpost", "blog_post", "pagerevision", "video", "users"] {
        assert_eq!(Discriminator::decode(raw), Err(UuidError::InvalidDiscriminator));
    }
}

#[test]
fn tags_differ_from_kind_to_kind() {
    for (i, a) in ALL.iter().enumerate() {
        for (j, b) in ALL.iter().enumerate() {
            assert_eq!(a.encode() == b.encode(), i == j);
        }
    }
}

#[test]
fn errors_describe_themselves() {
    assert_eq!(UuidError::NotFound.describe(), "not found");
    assert_eq!(UuidError::InvalidDiscriminator.describe(), "invalid discriminator");
    assert_eq!(
        UuidError::StoreError(database_layer::error::StoreFailure::Cycle).describe(),
        "store error"
    );
}
