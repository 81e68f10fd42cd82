use imbolc::chopper::{Slice, SliceList};

#[test]
fn cutting_and_removing_slices() {
    let mut l = SliceList { slices: vec![Slice { id: 0, start: 0.0f32, end: 1.0f32 }], selected: 0, next_slice_id: 1 };
    l.remove_selected();
    assert_eq!(l.slices.len(), 1);
    l.split_at(0, 0.5);
    assert_eq!(l.slices, vec![Slice { id: 0, start: 0.0, end: 0.5 }, Slice { id: 1, start: 0.5, end: 1.0 }]);
    assert_eq!(l.selected, 1);
    assert_eq!(l.next_slice_id, 2);
    l.split_at(0, 0.25);
    assert_eq!(l.slices[1], Slice { id: 2, start: 0.25, end: 0.5 });
    assert_eq!(l.selected, 1);
    l.remove_selected();
    assert_eq!(l.slices, vec![Slice { id: 0, start: 0.0, end: 0.5 }, Slice { id: 1, start: 0.5, end: 1.0 }]);
    assert_eq!(l.selected, 0);
    l.remove_selected();
    assert_eq!(l.slices, vec![Slice { id: 1, start: 0.0, end: 1.0 }]);
    assert_eq!(l.selected, 0);
}

#[test]
fn adding_a_slice_outside_every_slice_changes_nothing() {
    let mut l = SliceList { slices: vec![Slice { id: 0, start: 0.0f32, end: 0.5f32 }], selected: 0, next_slice_id: 1 };
    l.add_slice(None, 0.75);
    assert_eq!(l.slices.len(), 1);
    assert_eq!(l.next_slice_id, 1);
    l.add_slice(Some(0), 0.25);
    assert_eq!(l.slices, vec![Slice { id: 0, start: 0.0, end: 0.25 }, Slice { id: 1, start: 0.25, end: 0.5 }]);
    assert_eq!(l.selected, 1);
}
