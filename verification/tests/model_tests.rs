use xim::model::Model;
use xim::{Caret, UsizeMax};

#[test]
fn counter_stays_clamped() {
    let c = UsizeMax::new(5, 3);
    assert_eq!(c.get(), 3);
    assert_eq!(c.get_maximum(), 3);

    let mut c = UsizeMax::new(0, 10);
    c.add_assign(4);
    assert_eq!(c.get(), 4);
    c.add_assign(usize::MAX);
    assert_eq!(c.get(), 10);
    c.sub_assign(3);
    assert_eq!(c.get(), 7);
    c.sub_assign(100);
    assert_eq!(c.get(), 0);
    c.set_value(25);
    assert_eq!(c.get(), 10);
    c.set_maximum(4);
    assert_eq!(c.get(), 4);
    assert!(c.get() <= c.get_maximum());

    let c = UsizeMax::new(9, 20).add(5).sub(2).rem(7);
    assert_eq!(c.get(), 5);
    assert!(c.get() <= c.get_maximum());
}

#[test]
fn edit_splices_and_reports_length() {
    let mut model = Model::new();
    model.open("scratch".to_string(), vec![1, 2, 3, 4, 5]);

    // replacement of a middle range by a longer one
    assert_eq!(model.edit(1, 3, &[9, 9, 9]), Ok(()));
    assert_eq!(model.buffer, vec![1, 9, 9, 9, 4, 5]);
    assert_eq!(model.buffer.len(), 5 - 2 + 3);

    // swapped bounds are normalized
    assert_eq!(model.edit(4, 2, &[]), Ok(()));
    assert_eq!(model.buffer, vec![1, 9, 4, 5]);

    // a range past the end changes nothing
    assert_eq!(model.edit(2, 5, &[7]), Err("no data to edit".to_string()));
    assert_eq!(model.buffer, vec![1, 9, 4, 5]);

    // pure insertion at the end
    assert_eq!(model.edit(4, 4, &[8]), Ok(()));
    assert_eq!(model.buffer, vec![1, 9, 4, 5, 8]);
}

#[test]
fn edit_reclamps_the_caret() {
    let mut model = Model::new();
    model.open("scratch".to_string(), vec![0; 8]);
    model.set_index(7);
    assert_eq!(model.get_index(), 7);

    // shrinking the buffer pulls the on-byte cursor back in range
    assert_eq!(model.edit(2, 8, &[]), Ok(()));
    assert_eq!(model.buffer.len(), 2);
    assert_eq!(model.get_index(), 1);
    match model.caret {
        Caret::Offset(_) => {}
        _ => panic!("caret variant should be preserved"),
    }
}

#[test]
fn index_movement_saturates() {
    let mut model = Model::new();
    model.open("scratch".to_string(), vec![10, 20, 30]);
    assert_eq!(model.get_index(), 0);
    model.dec_index(1);
    assert_eq!(model.get_index(), 0);
    model.inc_index(2);
    assert_eq!(model.get_index(), 2);
    model.inc_index(16);
    assert_eq!(model.get_index(), 2);
    model.set_index(1);
    assert_eq!(model.get_index(), 1);
}

#[test]
fn model_undo_redo_restores_buffer_and_caret() {
    let mut model = Model::new();
    model.open("scratch".to_string(), vec![1, 2, 3]);

    model.edit(0, 1, &[9]).unwrap();
    model.snapshot();
    model.set_index(2);
    model.edit(3, 3, &[4]).unwrap();
    model.snapshot();
    assert_eq!(model.buffer, vec![9, 2, 3, 4]);

    assert!(model.undo());
    assert_eq!(model.buffer, vec![9, 2, 3]);
    assert_eq!(model.get_index(), 0);

    assert!(model.undo());
    assert_eq!(model.buffer, vec![1, 2, 3]);

    assert!(!model.undo());

    assert!(model.redo());
    assert_eq!(model.buffer, vec![9, 2, 3]);
    assert!(model.redo());
    assert_eq!(model.buffer, vec![9, 2, 3, 4]);
    assert_eq!(model.get_index(), 2);
    assert!(!model.redo());
}

#[test]
fn is_modified_compares_bytes() {
    let mut model = Model::new();
    model.open("scratch".to_string(), vec![1, 2]);
    assert!(!model.is_modified(&vec![1, 2]));
    assert!(model.is_modified(&vec![1, 3]));
    assert!(model.is_modified(&vec![]));
}
