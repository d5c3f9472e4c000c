use xim::history::History;

#[test]
fn basic_undo_redo() {
    let mut hist: History<u8> = History::new();
    hist.init(0);

    hist.snapshot(1);
    hist.snapshot(2);

    assert_eq!(hist.undo(), Some(&1));
    assert_eq!(hist.undo(), Some(&0));
    assert_eq!(hist.undo(), None);
    assert_eq!(hist.redo(), Some(&1));
    assert_eq!(hist.redo(), Some(&2));
    assert_eq!(hist.checkout(), Some(&2));
    assert_eq!(hist.redo(), None);
    assert_eq!(hist.undo(), Some(&1));
    assert_eq!(hist.undo(), Some(&0));
    assert_eq!(hist.undo(), None);
    assert_eq!(hist.undo(), None);
    assert_eq!(hist.checkout(), Some(&0));
    hist.snapshot(3);
    assert_eq!(hist.undo(), Some(&0));
    assert_eq!(hist.redo(), Some(&3));
    assert_eq!(hist.checkout(), Some(&3));
}

#[test]
fn undo_on_floor_is_refused() {
    let mut hist: History<u32> = History::new();
    hist.init(7);
    assert_eq!(hist.undo(), None);
    assert_eq!(hist.checkout(), Some(&7));
}

#[test]
fn snapshot_discards_redo() {
    let mut hist: History<u8> = History::new();
    hist.init(0);
    hist.snapshot(1);
    assert_eq!(hist.undo(), Some(&0));
    hist.snapshot(9);
    assert_eq!(hist.redo(), None);
    assert_eq!(hist.checkout(), Some(&9));
}

#[test]
fn checkout_on_empty_history() {
    let hist: History<u8> = History::new();
    assert_eq!(hist.checkout(), None);
}
