use database_layer::comment::{to_comment, Comment};
use database_layer::discriminator::Discriminator;
use database_layer::error::{StoreFailure, UuidError};
use database_layer::page::{to_page, Page};
use database_layer::store::{CommentRow, PageRow, RevisionRow};
use database_layer::uuid::{ConcreteUuid, Uuid};

fn comment_row(title: Option<&str>, parent_title: Option<&str>) -> CommentRow {
    CommentRow {
        trashed: false,
        author_id: 10,
        title: title.map(String::from),
        date: String::from("2014-03-01T20:36:44+01:00"),
        archived: false,
        content: Some(String::from("Bitte neu einstellen")),
        parent_id: None,
        uuid_id: Some(1565),
        parent_title: parent_title.map(String::from),
    }
}

fn record_of(uuid: Uuid) -> Comment {
    match uuid.concrete {
        ConcreteUuid::Comment(comment) => comment,
        other => panic!("not a comment: {:?}", other),
    }
}

fn page_of(uuid: Uuid) -> Page {
    match uuid.concrete {
        ConcreteUuid::Page(page) => page,
        other => panic!("not a page: {:?}", other),
    }
}

fn page_row(title: Option<&str>) -> PageRow {
    PageRow {
        trashed: false,
        subdomain: String::from("de"),
        current_revision_id: Some(35476),
        license_id: 1,
        title: title.map(String::from),
    }
}

fn revision(id: i32, date: &str) -> RevisionRow {
    RevisionRow { id, date: String::from(date) }
}

#[test]
fn a_comment_is_put_together_from_its_rows() {
    let uuid = to_comment(
        15469,
        Ok(comment_row(Some("Applets vertauscht?"), None)),
        Ok(vec![15470, 16188]),
        Ok(Some(String::from("mathe"))),
    )
    .unwrap();
    assert_eq!(uuid.id, 15469);
    assert!(!uuid.trashed);
    assert_eq!(uuid.alias, "/mathe/15469/Applets vertauscht?");
    assert_eq!(
        uuid.concrete,
        ConcreteUuid::Comment(Comment {
            author_id: 10,
            title: Some(String::from("Applets vertauscht?")),
            date: String::from("2014-03-01T20:36:44+01:00"),
            archived: false,
            content: String::from("Bitte neu einstellen"),
            parent_id: 1565,
            children_ids: vec![15470, 16188],
        })
    );
}

#[test]
fn an_untitled_comment_goes_by_its_parents_title() {
    let uuid = to_comment(7, Ok(comment_row(None, Some("Intro"))), Ok(vec![]), Ok(None)).unwrap();
    assert!(uuid.alias.contains("Intro"));
    assert_eq!(uuid.alias, "/7/Intro");
    assert_ne!(uuid.alias, "");
    assert_ne!(uuid.alias, "/7/7");
}

#[test]
fn an_inherited_title_stays_out_of_the_record() {
    let uuid = to_comment(7, Ok(comment_row(None, Some("Intro"))), Ok(vec![]), Ok(None)).unwrap();
    assert_eq!(record_of(uuid).title, None);
}

#[test]
fn a_comment_without_any_title_goes_by_its_identifier() {
    let uuid = to_comment(7, Ok(comment_row(None, None)), Ok(vec![]), Ok(None)).unwrap();
    assert_eq!(uuid.alias, "/7/7");
    assert!(uuid.alias.contains("7"));
}

#[test]
fn a_comments_own_title_comes_first() {
    let uuid = to_comment(7, Ok(comment_row(Some("Own"), Some("Intro"))), Ok(vec![]), Ok(None))
        .unwrap();
    assert_eq!(uuid.alias, "/7/Own");
}

#[test]
fn children_keep_their_order() {
    let uuid = to_comment(1, Ok(comment_row(None, None)), Ok(vec![5, 6, 7]), Ok(None)).unwrap();
    assert_eq!(record_of(uuid).children_ids, vec![5, 6, 7]);
    let uuid = to_comment(1, Ok(comment_row(None, None)), Ok(vec![7, 5, 6]), Ok(None)).unwrap();
    assert_eq!(record_of(uuid).children_ids, vec![7, 5, 6]);
}

#[test]
fn a_comment_without_children_has_an_empty_list() {
    let uuid = to_comment(1, Ok(comment_row(None, None)), Ok(vec![]), Ok(None)).unwrap();
    assert_eq!(record_of(uuid).children_ids, Vec::<i32>::new());
}

#[test]
fn a_comment_without_content_has_an_empty_text() {
    let mut row = comment_row(None, None);
    row.content = None;
    let uuid = to_comment(1, Ok(row), Ok(vec![]), Ok(None)).unwrap();
    assert_eq!(record_of(uuid).content, "");
}

#[test]
fn a_comment_hangs_on_its_parent_comment_first() {
    let mut row = comment_row(None, None);
    row.parent_id = Some(40);
    row.uuid_id = Some(50);
    let uuid = to_comment(1, Ok(row), Ok(vec![]), Ok(None)).unwrap();
    assert_eq!(record_of(uuid).parent_id, 40);
    let mut row = comment_row(None, None);
    row.parent_id = None;
    row.uuid_id = Some(50);
    let uuid = to_comment(1, Ok(row), Ok(vec![]), Ok(None)).unwrap();
    assert_eq!(record_of(uuid).parent_id, 50);
}

#[test]
fn a_comment_that_hangs_on_nothing_is_not_found() {
    let mut row = comment_row(Some("x"), None);
    row.parent_id = None;
    row.uuid_id = None;
    assert_eq!(to_comment(1, Ok(row), Ok(vec![]), Ok(None)), Err(UuidError::NotFound));
}

#[test]
fn a_missing_comment_row_is_not_found() {
    assert_eq!(
        to_comment(1, Err(StoreFailure::RowNotFound), Ok(vec![]), Ok(None)),
        Err(UuidError::NotFound)
    );
}

#[test]
fn a_failed_comment_fetch_is_a_store_error() {
    let failure = StoreFailure::Driver(String::from("connection reset"));
    assert_eq!(
        to_comment(1, Err(StoreFailure::Driver(String::from("connection reset"))), Ok(vec![]), Ok(None)),
        Err(UuidError::StoreError(failure))
    );
}

#[test]
fn failures_are_reported_in_the_order_row_children_context() {
    let lost = || StoreFailure::Driver(String::from("lost"));
    assert_eq!(
        to_comment(1, Err(StoreFailure::RowNotFound), Err(lost()), Err(UuidError::InvalidDiscriminator)),
        Err(UuidError::NotFound)
    );
    assert_eq!(
        to_comment(1, Ok(comment_row(None, None)), Err(lost()), Err(UuidError::InvalidDiscriminator)),
        Err(UuidError::StoreError(lost()))
    );
    assert_eq!(
        to_comment(1, Ok(comment_row(None, None)), Ok(vec![]), Err(UuidError::InvalidDiscriminator)),
        Err(UuidError::InvalidDiscriminator)
    );
    assert_eq!(
        to_comment(1, Ok(comment_row(None, None)), Err(StoreFailure::RowNotFound), Ok(None)),
        Err(UuidError::StoreError(StoreFailure::RowNotFound))
    );
}

#[test]
fn trashed_and_archived_are_carried_over() {
    let mut row = comment_row(None, None);
    row.trashed = true;
    row.archived = true;
    let uuid = to_comment(1, Ok(row), Ok(vec![]), Ok(None)).unwrap();
    assert!(uuid.trashed);
    assert!(record_of(uuid).archived);
}

#[test]
fn a_page_is_put_together_from_its_rows() {
    let uuid = to_page(
        16256,
        Ok(page_row(Some("Community"))),
        Ok(vec![revision(16257, "2014-03-24T15:18:01+01:00"), revision(35476, "2015-02-28T02:06:40+01:00")]),
    )
    .unwrap();
    assert_eq!(uuid.id, 16256);
    assert!(!uuid.trashed);
    assert_eq!(uuid.alias, "/16256/Community");
    assert_eq!(
        uuid.concrete,
        ConcreteUuid::Page(Page {
            instance: String::from("de"),
            current_revision_id: Some(35476),
            revision_ids: vec![35476, 16257],
            date: String::from("2014-03-24T15:18:01+01:00"),
            license_id: 1,
        })
    );
}

#[test]
fn a_pages_revisions_come_last_stored_first() {
    let rows = vec![revision(1, "a"), revision(2, "b"), revision(3, "c"), revision(4, "d")];
    let page = page_of(to_page(9, Ok(page_row(None)), Ok(rows)).unwrap());
    assert_eq!(page.revision_ids, vec![4, 3, 2, 1]);
    assert_eq!(page.date, "a");
}

#[test]
fn a_page_with_one_revision_lists_it() {
    let page = page_of(to_page(9, Ok(page_row(None)), Ok(vec![revision(11, "x")])).unwrap());
    assert_eq!(page.revision_ids, vec![11]);
    assert_eq!(page.date, "x");
}

#[test]
fn a_page_without_revisions_is_not_found() {
    assert_eq!(to_page(9, Ok(page_row(Some("t"))), Ok(vec![])), Err(UuidError::NotFound));
}

#[test]
fn a_missing_page_row_is_not_found() {
    assert_eq!(
        to_page(9, Err(StoreFailure::RowNotFound), Ok(vec![revision(1, "a")])),
        Err(UuidError::NotFound)
    );
}

#[test]
fn a_failed_page_fetch_is_a_store_error() {
    let lost = || StoreFailure::Driver(String::from("lost"));
    assert_eq!(to_page(9, Err(lost()), Ok(vec![])), Err(UuidError::StoreError(lost())));
    assert_eq!(to_page(9, Ok(page_row(None)), Err(lost())), Err(UuidError::StoreError(lost())));
    assert_eq!(
        to_page(9, Err(StoreFailure::RowNotFound), Err(lost())),
        Err(UuidError::NotFound)
    );
}

#[test]
fn an_untitled_page_has_an_alias_without_title() {
    let uuid = to_page(9, Ok(page_row(None)), Ok(vec![revision(1, "a")])).unwrap();
    assert_eq!(uuid.alias, "/9/");
}

#[test]
fn a_record_knows_its_kind() {
    let uuid = to_page(9, Ok(page_row(None)), Ok(vec![revision(1, "a")])).unwrap();
    assert_eq!(uuid.discriminator(), Discriminator::Page);
    let uuid = to_comment(1, Ok(comment_row(None, None)), Ok(vec![]), Ok(None)).unwrap();
    assert_eq!(uuid.discriminator(), Discriminator::Comment);
    assert_eq!(ConcreteUuid::User.discriminator(), Discriminator::User);
    assert_eq!(ConcreteUuid::Attachment.discriminator(), Discriminator::Attachment);
    assert_eq!(ConcreteUuid::BlogPost.discriminator(), Discriminator::BlogPost);
    assert_eq!(ConcreteUuid::Entity.discriminator(), Discriminator::Entity);
    assert_eq!(ConcreteUuid::EntityRevision.discriminator(), Discriminator::EntityRevision);
    assert_eq!(ConcreteUuid::PageRevision.discriminator(), Discriminator::PageRevision);
    assert_eq!(ConcreteUuid::TaxonomyTerm.discriminator(), Discriminator::TaxonomyTerm);
}
