use self_ref_box::family::Varying;
use self_ref_box::self_ref::SelfRef;
use self_ref_box::slot::{shorten_slot, SelfRefSlot, SlotState};
use self_ref_box::uninhabited::{NeverExclusiveRef, NeverNoRef, NeverSharedRef};

fn is_self_ref<'varying, 'upper, T: SelfRef<'varying, 'upper>>()
where
    for<'lower> Varying<'varying, 'lower, 'upper, T>: Sized,
{
}

#[test]
fn the_never_families_can_be_views() {
    is_self_ref::<NeverSharedRef>();
    is_self_ref::<NeverExclusiveRef>();
    is_self_ref::<u8>();
}

#[test]
fn a_slot_that_never_lends_is_always_without_a_view() {
    type Never<'a, F> = Varying<'a, 'a, 'static, F>;
    let slot: SelfRefSlot<u8, Never<'_, NeverSharedRef>, Never<'_, NeverExclusiveRef>> =
        SelfRefSlot::NoRef(3);
    let slot = match slot {
        SelfRefSlot::NoRef(owned) => SelfRefSlot::NoRef(owned + 1),
        SelfRefSlot::SharedRef(never) => match never {},
        SelfRefSlot::ExclusiveRef(never) => match never {},
    };
    let slot = shorten_slot::<u8, NeverSharedRef, NeverExclusiveRef>(slot);
    assert_eq!(slot.state(), SlotState::NoRef);
    assert!(matches!(slot, SelfRefSlot::NoRef(4)));
}

#[test]
fn a_slot_that_is_never_without_a_view_has_no_owned_state() {
    let slot: SelfRefSlot<NeverNoRef, u8, u8> = SelfRefSlot::SharedRef(1);
    let seen = match slot {
        SelfRefSlot::NoRef(NeverNoRef::Never(never)) => match never {},
        SelfRefSlot::SharedRef(view) => view,
        SelfRefSlot::ExclusiveRef(view) => view,
    };
    assert_eq!(seen, 1);
}
