use smmdb_client::container::{Course, CourseEntry, SaveContainer, SlotError};

fn course(title: &str, id: Option<&str>) -> Course {
    Course {
        title: title.to_string(),
        description: String::new(),
        thumbnail: vec![1, 2],
        smmdb_id: id.map(|s| s.to_string()),
        data: vec![9, 9, 9],
    }
}

fn title_at(c: &SaveContainer, i: usize) -> Option<String> {
    match c.get_slot(i) {
        Some(CourseEntry::SavedCourse(course)) => Some(course.title.clone()),
        Some(CourseEntry::CorruptedCourse(_)) => Some("<corrupt>".to_string()),
        None => None,
    }
}

fn four_slots() -> SaveContainer {
    SaveContainer::open(
        "/saves/a".to_string(),
        vec![
            Some(CourseEntry::SavedCourse(course("A", None))),
            Some(CourseEntry::SavedCourse(course("B", Some("id-b")))),
            Some(CourseEntry::SavedCourse(course("X", None))),
            None,
        ],
    )
}

#[test]
fn swap_exchanges_two_slots() {
    let mut c = four_slots();
    assert_eq!(c.swap(0, 1), Ok(()));
    assert_eq!(title_at(&c, 0).as_deref(), Some("B"));
    assert_eq!(title_at(&c, 1).as_deref(), Some("A"));
    assert_eq!(title_at(&c, 2).as_deref(), Some("X"));
    assert_eq!(title_at(&c, 3), None);
}

#[test]
fn swap_twice_restores() {
    let mut c = four_slots();
    c.swap(1, 3).unwrap();
    assert_eq!(title_at(&c, 1), None);
    assert_eq!(title_at(&c, 3).as_deref(), Some("B"));
    c.swap(1, 3).unwrap();
    assert_eq!(title_at(&c, 1).as_deref(), Some("B"));
    assert_eq!(title_at(&c, 3), None);
}

#[test]
fn swap_with_itself_is_refused() {
    let mut c = four_slots();
    for i in 0..4 {
        assert_eq!(c.swap(i, i), Err(SlotError::SameSlot));
    }
    assert_eq!(title_at(&c, 0).as_deref(), Some("A"));
    assert_eq!(title_at(&c, 1).as_deref(), Some("B"));
}

#[test]
fn out_of_bounds_is_refused() {
    let mut c = four_slots();
    assert_eq!(c.swap(0, 4), Err(SlotError::OutOfBounds));
    assert_eq!(c.swap(7, 1), Err(SlotError::OutOfBounds));
    assert_eq!(c.add(4, course("N", None)), Err(SlotError::OutOfBounds));
    assert_eq!(c.remove(4), Err(SlotError::OutOfBounds));
    assert_eq!(c.len(), 4);
    assert_eq!(title_at(&c, 0).as_deref(), Some("A"));
    assert_eq!(title_at(&c, 3), None);
}

#[test]
fn remove_empties_one_slot_and_keeps_indices() {
    let mut c = four_slots();
    assert_eq!(c.remove(2), Ok(()));
    assert_eq!(title_at(&c, 2), None);
    assert_eq!(title_at(&c, 0).as_deref(), Some("A"));
    assert_eq!(title_at(&c, 1).as_deref(), Some("B"));
    assert_eq!(c.len(), 4);
    // emptying an empty slot succeeds
    assert_eq!(c.remove(3), Ok(()));
    assert_eq!(c.remove(2), Ok(()));
}

#[test]
fn remove_then_reopen_keeps_empty_slot() {
    let mut c = four_slots();
    c.remove(2).unwrap();
    let written: Vec<Option<CourseEntry>> = c
        .get_slots()
        .iter()
        .map(|s| match s {
            Some(CourseEntry::SavedCourse(k)) => Some(CourseEntry::SavedCourse(course(&k.title, k.smmdb_id.as_deref()))),
            Some(CourseEntry::CorruptedCourse(r)) => Some(CourseEntry::CorruptedCourse(r.clone())),
            None => None,
        })
        .collect();
    let reopened = SaveContainer::open(c.get_location().clone(), written);
    assert_eq!(title_at(&reopened, 2), None);
    assert_eq!(title_at(&reopened, 0).as_deref(), Some("A"));
    assert_eq!(reopened.get_location(), "/saves/a");
}

#[test]
fn add_needs_an_empty_slot() {
    let mut c = four_slots();
    assert_eq!(c.add(0, course("N", None)), Err(SlotError::Occupied));
    assert_eq!(title_at(&c, 0).as_deref(), Some("A"));
    assert_eq!(c.add(3, course("N", Some("n1"))), Ok(()));
    assert_eq!(title_at(&c, 3).as_deref(), Some("N"));
}

#[test]
fn corrupted_slot_counts_as_occupied() {
    let mut c = SaveContainer::open(
        "p".to_string(),
        vec![Some(CourseEntry::CorruptedCourse("bad crc".to_string())), None],
    );
    assert_eq!(c.add(0, course("N", None)), Err(SlotError::Occupied));
    assert_eq!(c.set_remote_id(0, "z".to_string()), Err(SlotError::NoCourse));
    assert_eq!(c.set_remote_id(1, "z".to_string()), Err(SlotError::NoCourse));
    assert_eq!(c.set_remote_id(2, "z".to_string()), Err(SlotError::OutOfBounds));
    assert_eq!(title_at(&c, 0).as_deref(), Some("<corrupt>"));
}

#[test]
fn embedded_ids_in_slot_order() {
    let c = SaveContainer::open(
        "p".to_string(),
        vec![
            Some(CourseEntry::SavedCourse(course("A", Some("a")))),
            None,
            Some(CourseEntry::SavedCourse(course("B", None))),
            Some(CourseEntry::CorruptedCourse("x".to_string())),
            Some(CourseEntry::SavedCourse(course("C", Some("c")))),
        ],
    );
    assert_eq!(c.embedded_remote_ids(), vec!["a".to_string(), "c".to_string()]);
    let empty = SaveContainer::open("p".to_string(), vec![None, None]);
    assert!(empty.embedded_remote_ids().is_empty());
}

#[test]
fn set_remote_id_keeps_course_in_place() {
    let mut c = four_slots();
    assert_eq!(c.set_remote_id(0, "new1".to_string()), Ok(()));
    match c.get_slot(0) {
        Some(CourseEntry::SavedCourse(k)) => {
            assert_eq!(k.title, "A");
            assert_eq!(k.smmdb_id.as_deref(), Some("new1"));
            assert_eq!(k.data, vec![9, 9, 9]);
        }
        _ => panic!("slot 0 lost its course"),
    }
    assert_eq!(c.embedded_remote_ids(), vec!["new1".to_string(), "id-b".to_string()]);
}
