use database_layer::comment::Comment;
use database_layer::discriminator::Discriminator;
use database_layer::engine::{resolve, ResolutionStep};
use database_layer::error::{StoreFailure, UuidError};
use database_layer::page::Page;
use database_layer::store::{AncestorRow, CommentLink, CommentRow, PageRow, Query, Reply, RevisionRow, UuidRow};
use database_layer::transaction::{ExecutionContext, Step};
use database_layer::uuid::{ConcreteUuid, Uuid};

fn master(tag: &str, trashed: bool) -> Reply {
    Reply::Discriminator(Ok(UuidRow { trashed, discriminator: String::from(tag) }))
}

fn comment(title: Option<&str>, parent_title: Option<&str>, parent_id: Option<i32>, uuid_id: Option<i32>) -> CommentRow {
    CommentRow {
        trashed: false,
        author_id: 10,
        title: title.map(String::from),
        date: String::from("2014-03-01T20:36:44+01:00"),
        archived: false,
        content: Some(String::from("text")),
        parent_id,
        uuid_id,
        parent_title: parent_title.map(String::from),
    }
}

fn lost() -> StoreFailure {
    StoreFailure::Driver(String::from("lost connection"))
}

/// A store in a fixed state.
///
/// 1: attachment, 2: user (trashed), 3: a tag that names nothing,
/// 20: comment on record 100, with children 5, 6, 7,
/// 21: comment that answers 20, untitled,
/// 22: comment whose children cannot be fetched,
/// 23: comment in the master table only,
/// 30: page with two revisions, 31: page without revisions,
/// 32: page whose revisions cannot be fetched,
/// 40: the master table cannot be read.
fn answer(query: Query) -> Reply {
    match query {
        Query::Discriminator { id: 1 } => master("attachment", false),
        Query::Discriminator { id: 2 } => master("user", true),
        Query::Discriminator { id: 3 } => master("video", false),
        Query::Discriminator { id: 20..=23 } => master("comment", false),
        Query::Discriminator { id: 30..=32 } => master("page", false),
        Query::Discriminator { id: 40 } => Reply::Discriminator(Err(lost())),
        Query::Discriminator { id: 50 } => master("blogPost", false),
        Query::Discriminator { id: 51 } => master("entity", false),
        Query::Discriminator { id: 52 } => master("entityRevision", false),
        Query::Discriminator { id: 53 } => master("pageRevision", false),
        Query::Discriminator { id: 54 } => master("taxonomyTerm", false),
        Query::Discriminator { .. } => Reply::Discriminator(Err(StoreFailure::RowNotFound)),
        Query::Comment { id: 20 } => Reply::Comment {
            comment: Ok(comment(Some("Intro"), None, None, Some(100))),
            children: Ok(vec![5, 6, 7]),
        },
        Query::Comment { id: 21 } => Reply::Comment {
            comment: Ok(comment(None, Some("Intro"), Some(20), None)),
            children: Ok(vec![]),
        },
        Query::Comment { id: 22 } => Reply::Comment {
            comment: Ok(comment(None, None, None, Some(100))),
            children: Err(lost()),
        },
        Query::Comment { .. } => {
            Reply::Comment { comment: Err(StoreFailure::RowNotFound), children: Ok(vec![]) }
        }
        Query::CommentLink { id: 20 } => {
            Reply::CommentLink(Ok(CommentLink { uuid_id: Some(100), parent_id: None }))
        }
        Query::CommentLink { .. } => Reply::CommentLink(Err(StoreFailure::RowNotFound)),
        Query::Ancestor { id: 100 } => {
            Reply::Ancestor(Ok(AncestorRow { slug: String::from("algebra"), parent_id: Some(101) }))
        }
        Query::Ancestor { id: 101 } => {
            Reply::Ancestor(Ok(AncestorRow { slug: String::from("mathe"), parent_id: None }))
        }
        Query::Ancestor { .. } => Reply::Ancestor(Err(StoreFailure::RowNotFound)),
        Query::Page { id: 30 } => Reply::Page {
            page: Ok(PageRow {
                trashed: false,
                subdomain: String::from("de"),
                current_revision_id: Some(302),
                license_id: 1,
                title: Some(String::from("Startseite")),
            }),
            revisions: Ok(vec![
                RevisionRow { id: 301, date: String::from("2014-01-01T00:00:00+01:00") },
                RevisionRow { id: 302, date: String::from("2015-01-01T00:00:00+01:00") },
            ]),
        },
        Query::Page { id: 31 } => Reply::Page {
            page: Ok(PageRow {
                trashed: false,
                subdomain: String::from("de"),
                current_revision_id: None,
                license_id: 1,
                title: None,
            }),
            revisions: Ok(vec![]),
        },
        Query::Page { id: 32 } => Reply::Page {
            page: Ok(PageRow {
                trashed: false,
                subdomain: String::from("de"),
                current_revision_id: None,
                license_id: 1,
                title: None,
            }),
            revisions: Err(lost()),
        },
        Query::Page { .. } => Reply::Page { page: Err(StoreFailure::RowNotFound), revisions: Ok(vec![]) },
    }
}

/// Drives a resolution to its end and notes what it asked for.
fn drive(mut step: ResolutionStep, log: &mut Vec<String>) -> Result<Uuid, UuidError> {
    loop {
        step = match step {
            Step::Begin(machine) => {
                log.push(String::from("begin"));
                machine.step(Reply::Transaction(Ok(())))
            }
            Step::Fetch(machine, query) => {
                log.push(format!("{:?}", query));
                machine.step(answer(query))
            }
            Step::Commit(machine) => {
                log.push(String::from("commit"));
                machine.step(Reply::Transaction(Ok(())))
            }
            Step::Rollback(machine) => {
                log.push(String::from("rollback"));
                machine.step(Reply::Transaction(Ok(())))
            }
            Step::Done(outcome) => return outcome,
        };
    }
}

fn on_pool(id: i32) -> Result<Uuid, UuidError> {
    drive(resolve(id, ExecutionContext::Pool), &mut Vec::new())
}

fn on_transaction(id: i32) -> Result<Uuid, UuidError> {
    drive(resolve(id, ExecutionContext::Transaction), &mut Vec::new())
}

fn in_own_transaction(id: i32, log: &mut Vec<String>) -> Result<Uuid, UuidError> {
    drive(Uuid::fetch_via_transaction(id, ExecutionContext::Pool), log)
}

const IDS: [i32; 18] = [0, 1, 2, 3, 20, 21, 22, 23, 30, 31, 32, 40, 50, 51, 52, 53, 54, 999];

#[test]
fn an_unknown_identifier_is_not_found() {
    for id in [0, 4, 999, -1, i32::MAX, i32::MIN] {
        assert_eq!(on_pool(id), Err(UuidError::NotFound));
        assert_eq!(on_transaction(id), Err(UuidError::NotFound));
        assert_eq!(in_own_transaction(id, &mut Vec::new()), Err(UuidError::NotFound));
    }
}

#[test]
fn an_unknown_identifier_costs_one_query() {
    let mut log = Vec::new();
    assert_eq!(drive(resolve(999, ExecutionContext::Pool), &mut log), Err(UuidError::NotFound));
    assert_eq!(log, vec![format!("{:?}", Query::Discriminator { id: 999 })]);
}

#[test]
fn an_unreadable_tag_is_an_invalid_discriminator() {
    assert_eq!(on_pool(3), Err(UuidError::InvalidDiscriminator));
    assert_eq!(on_transaction(3), Err(UuidError::InvalidDiscriminator));
    let mut log = Vec::new();
    assert_eq!(in_own_transaction(3, &mut log), Err(UuidError::InvalidDiscriminator));
    assert_eq!(log, vec!["begin".to_string(), format!("{:?}", Query::Discriminator { id: 3 }), "rollback".to_string()]);
}

#[test]
fn a_failing_master_table_is_a_store_error() {
    assert_eq!(on_pool(40), Err(UuidError::StoreError(lost())));
}

#[test]
fn kinds_without_tables_of_their_own_resolve_from_the_master_row() {
    let uuid = on_pool(1).unwrap();
    assert_eq!(
        uuid,
        Uuid { id: 1, trashed: false, alias: String::from("/1/"), concrete: ConcreteUuid::Attachment }
    );
    let uuid = on_pool(2).unwrap();
    assert_eq!(
        uuid,
        Uuid { id: 2, trashed: true, alias: String::from("/2/"), concrete: ConcreteUuid::User }
    );
    assert_eq!(on_pool(50).unwrap().concrete, ConcreteUuid::BlogPost);
    assert_eq!(on_pool(51).unwrap().concrete, ConcreteUuid::Entity);
    assert_eq!(on_pool(52).unwrap().concrete, ConcreteUuid::EntityRevision);
    assert_eq!(on_pool(53).unwrap().concrete, ConcreteUuid::PageRevision);
    assert_eq!(on_pool(54).unwrap().concrete, ConcreteUuid::TaxonomyTerm);
}

#[test]
fn a_comment_is_resolved_with_children_and_context() {
    let mut log = Vec::new();
    let uuid = drive(resolve(20, ExecutionContext::Pool), &mut log).unwrap();
    assert_eq!(uuid.id, 20);
    assert_eq!(uuid.alias, "/mathe/algebra/20/Intro");
    match uuid.concrete {
        ConcreteUuid::Comment(record) => {
            assert_eq!(record.children_ids, vec![5, 6, 7]);
            assert_eq!(record.parent_id, 100);
            assert_eq!(record.title, Some(String::from("Intro")));
            assert_eq!(record.content, "text");
        }
        other => panic!("not a comment: {:?}", other),
    }
    assert_eq!(
        log,
        vec![
            format!("{:?}", Query::Discriminator { id: 20 }),
            format!("{:?}", Query::Comment { id: 20 }),
            format!("{:?}", Query::Ancestor { id: 100 }),
            format!("{:?}", Query::Ancestor { id: 101 }),
        ]
    );
}

#[test]
fn an_answer_finds_its_context_through_the_comment_it_answers() {
    let mut log = Vec::new();
    let uuid = drive(resolve(21, ExecutionContext::Pool), &mut log).unwrap();
    assert_eq!(uuid.alias, "/mathe/algebra/21/Intro");
    assert!(uuid.alias.contains("Intro"));
    match uuid.concrete {
        ConcreteUuid::Comment(record) => {
            assert_eq!(record.title, None);
            assert_eq!(record.parent_id, 20);
            assert_eq!(record.children_ids, Vec::<i32>::new());
        }
        other => panic!("not a comment: {:?}", other),
    }
    assert!(log.contains(&format!("{:?}", Query::CommentLink { id: 20 })));
}

#[test]
fn a_comment_whose_children_cannot_be_fetched_is_a_store_error() {
    let mut log = Vec::new();
    assert_eq!(drive(resolve(22, ExecutionContext::Pool), &mut log), Err(UuidError::StoreError(lost())));
    assert_eq!(log.len(), 2);
}

#[test]
fn a_comment_without_its_row_is_not_found() {
    assert_eq!(on_pool(23), Err(UuidError::NotFound));
}

#[test]
fn a_page_is_resolved_with_its_revisions() {
    let uuid = on_pool(30).unwrap();
    assert_eq!(uuid.alias, "/30/Startseite");
    assert_eq!(
        uuid.concrete,
        ConcreteUuid::Page(Page {
            instance: String::from("de"),
            current_revision_id: Some(302),
            revision_ids: vec![302, 301],
            date: String::from("2014-01-01T00:00:00+01:00"),
            license_id: 1,
        })
    );
}

#[test]
fn resolving_a_page_without_revisions_is_not_found() {
    assert_eq!(on_pool(31), Err(UuidError::NotFound));
    assert_eq!(on_transaction(31), Err(UuidError::NotFound));
    assert_eq!(in_own_transaction(31, &mut Vec::new()), Err(UuidError::NotFound));
    assert_eq!(drive(Page::find_by_id(31), &mut Vec::new()), Err(UuidError::NotFound));
}

#[test]
fn a_page_whose_revisions_cannot_be_fetched_is_a_store_error() {
    assert_eq!(on_pool(32), Err(UuidError::StoreError(lost())));
}

#[test]
fn the_record_is_of_the_kind_that_the_master_row_names() {
    for id in IDS {
        if let Ok(uuid) = on_pool(id) {
            assert_eq!(uuid.id, id);
            match answer(Query::Discriminator { id }) {
                Reply::Discriminator(Ok(row)) => {
                    assert_eq!(Discriminator::decode(&row.discriminator), Ok(uuid.discriminator()))
                }
                other => panic!("resolved without a master row: {:?}", other),
            }
        }
    }
}

#[test]
fn pool_and_transaction_give_the_same_envelope() {
    for id in IDS {
        let mut pool_log = Vec::new();
        let mut transaction_log = Vec::new();
        let pooled = drive(resolve(id, ExecutionContext::Pool), &mut pool_log);
        let joined = drive(resolve(id, ExecutionContext::Transaction), &mut transaction_log);
        assert_eq!(pooled, joined);
        assert_eq!(format!("{:?}", pooled), format!("{:?}", joined));
        assert_eq!(pool_log, transaction_log);
    }
}

#[test]
fn a_transaction_of_its_own_gives_the_same_envelope() {
    for id in IDS {
        let mut pool_log = Vec::new();
        let mut own_log = Vec::new();
        let pooled = drive(Uuid::fetch(id), &mut pool_log);
        let owned = in_own_transaction(id, &mut own_log);
        assert_eq!(pooled, owned);
        assert_eq!(own_log.len(), pool_log.len() + 2);
        assert_eq!(own_log[1..own_log.len() - 1], pool_log[..]);
    }
}

#[test]
fn the_callers_transaction_is_neither_opened_nor_ended() {
    for id in IDS {
        let mut log = Vec::new();
        let _ = drive(Uuid::fetch_via_transaction(id, ExecutionContext::Transaction), &mut log);
        assert!(!log.iter().any(|entry| entry == "begin" || entry == "commit" || entry == "rollback"));
    }
}

#[test]
fn a_transaction_of_its_own_is_opened_once_and_ended_once() {
    for id in IDS {
        let mut log = Vec::new();
        let outcome = in_own_transaction(id, &mut log);
        assert_eq!(log.first().map(String::as_str), Some("begin"));
        assert_eq!(log.iter().filter(|entry| *entry == "begin").count(), 1);
        let ends = log.iter().filter(|entry| *entry == "commit" || *entry == "rollback").count();
        assert_eq!(ends, 1);
        let last = if outcome.is_ok() { "commit" } else { "rollback" };
        assert_eq!(log.last().map(String::as_str), Some(last));
    }
}

#[test]
fn a_failing_second_query_rolls_the_transaction_back() {
    let mut log = Vec::new();
    let outcome = drive(Comment::fetch_via_transaction(22, ExecutionContext::Pool), &mut log);
    assert_eq!(outcome, Err(UuidError::StoreError(lost())));
    assert_eq!(
        log,
        vec!["begin".to_string(), format!("{:?}", Query::Comment { id: 22 }), "rollback".to_string()]
    );
    let mut log = Vec::new();
    let outcome = in_own_transaction(32, &mut log);
    assert_eq!(outcome, Err(UuidError::StoreError(lost())));
    assert_eq!(
        log,
        vec![
            "begin".to_string(),
            format!("{:?}", Query::Discriminator { id: 32 }),
            format!("{:?}", Query::Page { id: 32 }),
            "rollback".to_string(),
        ]
    );
}

#[test]
fn a_failed_rollback_leaves_the_failure_as_it_was() {
    match Comment::fetch_via_transaction(22, ExecutionContext::Pool) {
        Step::Begin(machine) => match machine.step(Reply::Transaction(Ok(()))) {
            Step::Fetch(machine, query) => match machine.step(answer(query)) {
                Step::Rollback(machine) => {
                    let broken = StoreFailure::Driver(String::from("broken pipe"));
                    match machine.step(Reply::Transaction(Err(broken))) {
                        Step::Done(outcome) => assert_eq!(outcome, Err(UuidError::StoreError(lost()))),
                        other => panic!("not done: {:?}", other),
                    }
                }
                other => panic!("no rollback: {:?}", other),
            },
            other => panic!("no fetch: {:?}", other),
        },
        other => panic!("no begin: {:?}", other),
    }
}

#[test]
fn a_failed_commit_is_a_store_error() {
    match Uuid::fetch_via_transaction(1, ExecutionContext::Pool) {
        Step::Begin(machine) => match machine.step(Reply::Transaction(Ok(()))) {
            Step::Fetch(machine, query) => match machine.step(answer(query)) {
                Step::Commit(machine) => {
                    let broken = StoreFailure::Driver(String::from("broken pipe"));
                    match machine.step(Reply::Transaction(Err(broken))) {
                        Step::Done(outcome) => assert_eq!(
                            outcome,
                            Err(UuidError::StoreError(StoreFailure::Driver(String::from("broken pipe"))))
                        ),
                        other => panic!("not done: {:?}", other),
                    }
                }
                other => panic!("no commit: {:?}", other),
            },
            other => panic!("no fetch: {:?}", other),
        },
        other => panic!("no begin: {:?}", other),
    }
}

#[test]
fn a_failed_begin_ends_the_resolution_at_once() {
    match Uuid::fetch_via_transaction(1, ExecutionContext::Pool) {
        Step::Begin(machine) => match machine.step(Reply::Transaction(Err(lost()))) {
            Step::Done(outcome) => assert_eq!(outcome, Err(UuidError::StoreError(lost()))),
            other => panic!("went on: {:?}", other),
        },
        other => panic!("no begin: {:?}", other),
    }
}

#[test]
fn a_reply_to_another_query_is_a_store_error() {
    match resolve(1, ExecutionContext::Pool) {
        Step::Fetch(machine, _) => match machine.step(answer(Query::Page { id: 30 })) {
            Step::Done(outcome) => {
                assert_eq!(outcome, Err(UuidError::StoreError(StoreFailure::Protocol)))
            }
            other => panic!("went on: {:?}", other),
        },
        other => panic!("no fetch: {:?}", other),
    }
    match Uuid::fetch_via_transaction(30, ExecutionContext::Pool) {
        Step::Begin(machine) => match machine.step(Reply::Transaction(Ok(()))) {
            Step::Fetch(machine, _) => match machine.step(Reply::Transaction(Ok(()))) {
                Step::Rollback(_) => {}
                other => panic!("no rollback: {:?}", other),
            },
            other => panic!("no fetch: {:?}", other),
        },
        other => panic!("no begin: {:?}", other),
    }
}

#[test]
fn a_kind_can_be_resolved_without_the_master_table() {
    let mut log = Vec::new();
    let uuid = drive(Comment::fetch(20), &mut log).unwrap();
    assert_eq!(uuid.alias, "/mathe/algebra/20/Intro");
    assert_eq!(log[0], format!("{:?}", Query::Comment { id: 20 }));
    let mut log = Vec::new();
    let uuid = drive(Page::find_by_id(30), &mut log).unwrap();
    assert_eq!(uuid.alias, "/30/Startseite");
    assert_eq!(log, vec![format!("{:?}", Query::Page { id: 30 })]);
    assert_eq!(drive(Comment::fetch(999), &mut Vec::new()), Err(UuidError::NotFound));
    assert_eq!(drive(Page::find_by_id(999), &mut Vec::new()), Err(UuidError::NotFound));
}

#[test]
fn a_page_is_resolved_the_same_in_a_transaction() {
    let pooled = drive(Page::find_by_id(30), &mut Vec::new());
    let mut log = Vec::new();
    let owned = drive(Page::find_by_id_via_transaction(30, ExecutionContext::Pool), &mut log);
    assert_eq!(pooled, owned);
    assert_eq!(
        log,
        vec!["begin".to_string(), format!("{:?}", Query::Page { id: 30 }), "commit".to_string()]
    );
    let mut log = Vec::new();
    let joined =
        drive(Page::find_by_id_via_transaction(30, ExecutionContext::Transaction), &mut log);
    assert_eq!(pooled, joined);
    assert_eq!(log, vec![format!("{:?}", Query::Page { id: 30 })]);
    let mut log = Vec::new();
    let empty = drive(Page::find_by_id_via_transaction(31, ExecutionContext::Pool), &mut log);
    assert_eq!(empty, Err(UuidError::NotFound));
    assert_eq!(log.last().map(String::as_str), Some("rollback"));
}

#[test]
fn begin_opens_a_transaction_on_a_pool_only() {
    assert!(ExecutionContext::Pool.begin());
    assert!(!ExecutionContext::Transaction.begin());
}
