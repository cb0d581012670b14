use sequencer_model::Effect;
use sequencer_model::Note;
use sequencer_model::NoteName;
use sequencer_model::Pattern;
use sequencer_model::Row;

fn sample_row(channel: u8) -> Row {
    let note = Note::new(NoteName::E, 2);
    Row::new(Some(channel), Some(note), Some(100), vec![Effect {}])
}

#[test]
fn new_pattern_has_only_empty_slots() {
    let pattern = Pattern::new(8);
    assert_eq!(pattern.len(), 8);
    for i in 0..8 {
        assert!(pattern.get_row(i).is_none());
    }
}

#[test]
fn add_query_remove_cycles_one_slot() {
    let mut pattern = Pattern::new(8);
    let row = sample_row(1);
    pattern.add_row(3, row.clone());
    assert_eq!(*pattern.get_row(3), Some(row));
    pattern.remove_row(3);
    assert!(pattern.get_row(3).is_none());
}

#[test]
fn adding_a_row_leaves_the_other_slots_alone() {
    let mut pattern = Pattern::new(4);
    pattern.add_row(1, sample_row(9));
    for i in [0, 2, 3] {
        assert!(pattern.get_row(i).is_none());
    }
    assert_eq!(pattern.len(), 4);
}

#[test]
fn out_of_range_add_is_a_silent_no_op() {
    let mut pattern = Pattern::new(8);
    pattern.add_row(100, sample_row(2));
    assert_eq!(pattern.len(), 8);
    for i in 0..8 {
        assert!(pattern.get_row(i).is_none());
    }
}

#[test]
fn out_of_range_add_keeps_occupied_slots() {
    let mut pattern = Pattern::new(8);
    let row = sample_row(5);
    pattern.add_row(7, row.clone());
    pattern.add_row(8, sample_row(6));
    assert_eq!(*pattern.get_row(7), Some(row));
    for i in 0..7 {
        assert!(pattern.get_row(i).is_none());
    }
}

#[test]
fn out_of_range_remove_is_a_silent_no_op() {
    let mut pattern = Pattern::new(8);
    let row = sample_row(3);
    pattern.add_row(0, row.clone());
    pattern.remove_row(8);
    pattern.remove_row(usize::MAX);
    assert_eq!(*pattern.get_row(0), Some(row));
    assert_eq!(pattern.len(), 8);
}

#[test]
fn second_write_to_a_slot_wins() {
    let mut pattern = Pattern::new(8);
    let first = sample_row(1);
    let second = sample_row(2);
    pattern.add_row(5, first);
    pattern.add_row(5, second.clone());
    assert_eq!(*pattern.get_row(5), Some(second));
}

#[test]
fn zero_length_pattern_absorbs_every_edit() {
    let mut pattern = Pattern::new(0);
    assert_eq!(pattern.len(), 0);
    pattern.add_row(0, sample_row(1));
    pattern.remove_row(0);
    assert_eq!(pattern.len(), 0);
}

#[test]
fn row_stores_its_fields_verbatim() {
    let note = Note::new(NoteName::ASharp, 1);
    let row = Row::new(Some(7), Some(note), Some(64), vec![Effect {}, Effect {}]);
    assert_eq!(row.channel(), Some(7));
    assert_eq!(row.note(), Some(note));
    assert_eq!(row.velocity(), Some(64));
    assert_eq!(row.effects().len(), 2);
}

#[test]
fn row_fields_are_independently_optional() {
    let row = Row::new(None, None, None, vec![]);
    assert_eq!(row.channel(), None);
    assert_eq!(row.note(), None);
    assert_eq!(row.velocity(), None);
    assert!(row.effects().is_empty());
}
