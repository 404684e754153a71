use database_layer::entity_revision::{AbstractEntityRevision, CourseRevision, EntityRevisionFields};
use database_layer::event::{
    AbstractEvent, CreateEntityLink, EventError, EventStringParameters, EventUuidParameters,
    RevisionEvent,
};
use database_layer::named::Named;

fn event(object_id: i32, parameter_uuid_id: i32) -> AbstractEvent {
    AbstractEvent {
        object_id,
        parameter_uuid_id,
        uuid_parameters: EventUuidParameters::new(),
        string_parameters: EventStringParameters::new(),
    }
}

#[test]
fn a_link_names_child_and_parent() {
    let link = CreateEntityLink::new(event(2219, 2217));
    assert_eq!(link.child_id, 2219);
    assert_eq!(link.parent_id, 2217);
    assert_eq!(link.abstract_event.object_id, 2219);
    assert_eq!(link.abstract_event.parameter_uuid_id, 2217);
}

#[test]
fn a_revision_event_needs_its_repository() {
    assert_eq!(RevisionEvent::try_from(&event(1, 2)), Err(EventError::MissingRequiredField));
    let mut stored = event(1, 2);
    stored.uuid_parameters = EventUuidParameters::new().insert(String::from("entity"), 5);
    assert_eq!(RevisionEvent::try_from(&stored), Err(EventError::MissingRequiredField));
}

#[test]
fn a_revision_event_is_built_from_its_parameters() {
    let mut stored = event(16114, 0);
    stored.uuid_parameters = EventUuidParameters::new().insert(String::from("repository"), 1855);
    stored.string_parameters =
        EventStringParameters::new().insert(String::from("reason"), String::from("Fehler"));
    assert_eq!(
        RevisionEvent::try_from(&stored),
        Ok(RevisionEvent { repository_id: 1855, revision_id: 16114, reason: String::from("Fehler") })
    );
}

#[test]
fn a_revision_event_without_reason_has_an_empty_one() {
    let mut stored = event(16114, 0);
    stored.uuid_parameters = EventUuidParameters::new().insert(String::from("repository"), 1855);
    assert_eq!(
        RevisionEvent::try_from(&stored),
        Ok(RevisionEvent { repository_id: 1855, revision_id: 16114, reason: String::new() })
    );
}

#[test]
fn parameters_are_found_by_name() {
    let parameters = EventUuidParameters::new()
        .insert(String::from("repository"), 1)
        .insert(String::from("parent"), 2);
    assert_eq!(parameters.try_get("repository"), Ok(1));
    assert_eq!(parameters.try_get("parent"), Ok(2));
    assert_eq!(parameters.try_get("child"), Err(EventError::MissingRequiredField));
    assert_eq!(parameters.try_get(""), Err(EventError::MissingRequiredField));
    let texts = EventStringParameters::new().insert(String::from("reason"), String::from("r"));
    assert_eq!(texts.get_or("reason", "none"), "r");
    assert_eq!(texts.get_or("other", "none"), "none");
}

#[test]
fn a_name_holds_the_value_filed_last() {
    let table = Named::new()
        .insert(String::from("a"), 1)
        .insert(String::from("b"), 2)
        .insert(String::from("a"), 3);
    assert_eq!(table.get("a"), Some(&3));
    assert_eq!(table.get("b"), Some(&2));
    assert_eq!(table.get("c"), None);
    assert_eq!(Named::<i32>::new().get("a"), None);
}

#[test]
fn texts_come_back_or_the_default() {
    let table = Named::new().insert(String::from("title"), String::from("T"));
    assert_eq!(table.get_or("title", "d"), "T");
    assert_eq!(table.get_or("content", "d"), "d");
    assert_eq!(table.get_or("Title", ""), "");
}

#[test]
fn a_course_revision_reads_its_fields() {
    let fields = EntityRevisionFields::new()
        .insert(String::from("title"), String::from("Kurs"))
        .insert(String::from("content"), String::from("Inhalt"))
        .insert(String::from("meta_description"), String::from("Beschreibung"));
    let revision = CourseRevision::from(AbstractEntityRevision { fields });
    assert_eq!(revision.title, "Kurs");
    assert_eq!(revision.content, "Inhalt");
    assert_eq!(revision.meta_description, "Beschreibung");
    assert_eq!(revision.abstract_entity_revision.fields.get_or("title", ""), "Kurs");
}

#[test]
fn a_course_revision_without_fields_is_empty() {
    let revision = CourseRevision::from(AbstractEntityRevision { fields: EntityRevisionFields::new() });
    assert_eq!(revision.title, "");
    assert_eq!(revision.content, "");
    assert_eq!(revision.meta_description, "");
    let fields = EntityRevisionFields::new().insert(String::from("content"), String::from("x"));
    let revision = CourseRevision::from(AbstractEntityRevision { fields });
    assert_eq!(revision.title, "");
    assert_eq!(revision.content, "x");
}
