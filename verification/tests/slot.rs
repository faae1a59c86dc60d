use self_ref_box::slot::{lengthen_slot, shorten_slot, SelfRefSlot, SlotState};

#[test]
fn a_slot_reports_its_state() {
    let none: SelfRefSlot<u8, u16, u32> = SelfRefSlot::NoRef(1);
    let shared: SelfRefSlot<u8, u16, u32> = SelfRefSlot::SharedRef(2);
    let exclusive: SelfRefSlot<u8, u16, u32> = SelfRefSlot::ExclusiveRef(3);
    assert_eq!(none.state(), SlotState::NoRef);
    assert_eq!(shared.state(), SlotState::SharedRef);
    assert_eq!(exclusive.state(), SlotState::ExclusiveRef);
}

#[test]
fn a_shared_view_is_packaged_and_given_up() {
    let slot: SelfRefSlot<Vec<u8>, (Vec<u8>, usize), (Vec<u8>, bool)> =
        SelfRefSlot::NoRef(vec![4, 5, 6]);
    let shared = slot.share(|owned| {
        let len = owned.len();
        (owned, len)
    });
    assert!(matches!(&shared, SelfRefSlot::SharedRef((owned, 3)) if owned == &vec![4, 5, 6]));
    let released = shared.release_shared(|(owned, _)| owned);
    assert!(matches!(&released, SelfRefSlot::NoRef(owned) if owned == &vec![4, 5, 6]));
}

#[test]
fn an_exclusive_view_is_packaged_and_given_up() {
    let slot: SelfRefSlot<Vec<u8>, (Vec<u8>, usize), (Vec<u8>, bool)> =
        SelfRefSlot::NoRef(vec![4, 5, 6]);
    let exclusive = slot.borrow_exclusively(|mut owned| {
        owned.push(7);
        (owned, true)
    });
    assert_eq!(exclusive.state(), SlotState::ExclusiveRef);
    let released = exclusive.release_exclusive(|(owned, _)| owned);
    assert!(matches!(&released, SelfRefSlot::NoRef(owned) if owned == &vec![4, 5, 6, 7]));
}

#[test]
fn a_view_changes_its_kind_only_by_way_of_no_view() {
    let slot: SelfRefSlot<u8, u8, u8> = SelfRefSlot::NoRef(1);
    let mut states = vec![slot.state()];
    let slot = slot.share(|n| n + 1);
    states.push(slot.state());
    let slot = slot.release_shared(|s| s + 1);
    states.push(slot.state());
    let slot = slot.borrow_exclusively(|n| n + 1);
    states.push(slot.state());
    let slot = slot.release_exclusive(|e| e + 1);
    states.push(slot.state());
    assert_eq!(
        states,
        vec![
            SlotState::NoRef,
            SlotState::SharedRef,
            SlotState::NoRef,
            SlotState::ExclusiveRef,
            SlotState::NoRef,
        ]
    );
    assert!(matches!(slot, SelfRefSlot::NoRef(5)));
}

#[test]
fn a_clone_is_in_the_same_state_with_the_same_payload() {
    let none: SelfRefSlot<String, u16, u32> = SelfRefSlot::NoRef(String::from("owned"));
    let shared: SelfRefSlot<String, u16, u32> = SelfRefSlot::SharedRef(2);
    let exclusive: SelfRefSlot<String, u16, u32> = SelfRefSlot::ExclusiveRef(3);
    assert!(matches!(none.clone(), SelfRefSlot::NoRef(text) if text == "owned"));
    assert!(matches!(shared.clone(), SelfRefSlot::SharedRef(2)));
    assert!(matches!(exclusive.clone(), SelfRefSlot::ExclusiveRef(3)));
    assert!(matches!(none, SelfRefSlot::NoRef(text) if text == "owned"));
}

#[test]
fn a_slot_of_copy_payloads_is_copy() {
    let slot: SelfRefSlot<u8, u16, u32> = SelfRefSlot::SharedRef(9);
    let copy = slot;
    assert!(matches!(slot, SelfRefSlot::SharedRef(9)));
    assert!(matches!(copy, SelfRefSlot::SharedRef(9)));
}

#[test]
fn a_slot_is_printed_with_its_variant() {
    let slot: SelfRefSlot<u8, u16, u32> = SelfRefSlot::NoRef(42);
    assert_eq!(format!("{:?}", slot), "NoRef(42)");
    let slot: SelfRefSlot<u8, u16, u32> = SelfRefSlot::SharedRef(1);
    assert_eq!(format!("{:?}", slot), "SharedRef(1)");
    let slot: SelfRefSlot<u8, u16, u32> = SelfRefSlot::ExclusiveRef(2);
    assert_eq!(format!("{:?}", slot), "ExclusiveRef(2)");
}

#[test]
fn span_casts_keep_state_and_payload() {
    let slot: SelfRefSlot<String, u8, u8> = SelfRefSlot::SharedRef(17);
    let short = shorten_slot::<String, u8, u8>(slot);
    assert!(matches!(short, SelfRefSlot::SharedRef(17)));
    let long = lengthen_slot::<String, u8, u8>(short);
    assert!(matches!(long, SelfRefSlot::SharedRef(17)));

    let slot: SelfRefSlot<String, u8, u8> = SelfRefSlot::ExclusiveRef(3);
    assert!(matches!(shorten_slot::<String, u8, u8>(slot), SelfRefSlot::ExclusiveRef(3)));

    let slot: SelfRefSlot<String, u8, u8> = SelfRefSlot::NoRef(String::from("kept"));
    let cast = lengthen_slot::<String, u8, u8>(shorten_slot::<String, u8, u8>(slot));
    assert!(matches!(cast, SelfRefSlot::NoRef(text) if text == "kept"));
}
