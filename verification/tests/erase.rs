use self_ref_box::data_source::{DataSource, Raw};
use self_ref_box::erase::{DefaultErase, EraseSelfRef, LifetimeErase};
use self_ref_box::family::Varying;
use self_ref_box::slot::{lengthen_slot, shorten_slot, SelfRefSlot};
use std::rc::Rc;

#[test]
fn erased_no_ref_comes_back_as_it_was() {
    let slot: SelfRefSlot<i32, u8, u8> = SelfRefSlot::NoRef(42);
    let erased = LifetimeErase::erase(slot);
    let back: SelfRefSlot<i32, u8, u8> = LifetimeErase::unerase(erased);
    assert!(matches!(back, SelfRefSlot::NoRef(42)));
}

#[test]
fn each_state_survives_erasure() {
    let shared: SelfRefSlot<i32, String, Vec<u8>> = SelfRefSlot::SharedRef(String::from("view"));
    let back = DefaultErase::unerase(DefaultErase::erase(shared));
    assert!(matches!(back, SelfRefSlot::SharedRef(text) if text == "view"));

    let exclusive: SelfRefSlot<i32, String, Vec<u8>> = SelfRefSlot::ExclusiveRef(vec![1, 2]);
    let back = DefaultErase::unerase(DefaultErase::erase(exclusive));
    assert!(matches!(back, SelfRefSlot::ExclusiveRef(bytes) if bytes == vec![1, 2]));
}

#[test]
fn erasing_again_gives_the_same_storage() {
    let slot: SelfRefSlot<i32, u8, u8> = SelfRefSlot::SharedRef(7);
    let erased = LifetimeErase::erase(slot);
    let again = LifetimeErase::erase(LifetimeErase::unerase(erased));
    assert!(matches!(LifetimeErase::unerase_ref(&again), SelfRefSlot::SharedRef(7)));
}

#[test]
fn references_see_what_unerase_takes() {
    let slot: SelfRefSlot<Vec<u8>, u8, u8> = SelfRefSlot::NoRef(vec![1, 2, 3]);
    let mut erased = LifetimeErase::erase(slot);
    assert!(matches!(LifetimeErase::unerase_ref(&erased), SelfRefSlot::NoRef(v) if v == &vec![1, 2, 3]));
    assert!(matches!(LifetimeErase::unerase_mut(&mut erased), SelfRefSlot::NoRef(v) if v == &vec![1, 2, 3]));
    assert!(matches!(LifetimeErase::unerase(erased), SelfRefSlot::NoRef(v) if v == vec![1, 2, 3]));
}

#[test]
fn what_is_written_behind_the_reference_is_taken_out() {
    let slot: SelfRefSlot<Vec<u8>, u8, u8> = SelfRefSlot::NoRef(vec![1]);
    let mut erased = LifetimeErase::erase(slot);
    if let SelfRefSlot::NoRef(owned) = LifetimeErase::unerase_mut(&mut erased) {
        owned.push(2);
    }
    *LifetimeErase::unerase_mut(&mut erased) = match LifetimeErase::unerase_ref(&erased) {
        SelfRefSlot::NoRef(owned) => SelfRefSlot::SharedRef(owned.len() as u8),
        _ => unreachable!(),
    };
    assert!(matches!(LifetimeErase::unerase(erased), SelfRefSlot::SharedRef(2)));
}

#[test]
fn erased_raw_owners_come_back_and_are_put_together() {
    let (data, aux) = vec![1u8, 2, 3].into_raw_data();
    let slot: SelfRefSlot<(Raw<Vec<u8>>, usize), u8, u8> = SelfRefSlot::NoRef((data, aux));
    let erased = LifetimeErase::erase(slot);
    let moved = Box::new(erased);
    match LifetimeErase::unerase(*moved) {
        SelfRefSlot::NoRef((data, aux)) => {
            assert_eq!(<Vec<u8> as DataSource>::as_ref(&data), &[1, 2, 3]);
            assert_eq!(<Vec<u8> as DataSource>::from_raw_data(data, aux), vec![1, 2, 3]);
        }
        _ => unreachable!(),
    }
}

#[test]
fn dropping_the_storage_drops_what_the_slot_holds() {
    let owner = Rc::new(5u8);
    let watch = Rc::downgrade(&owner);
    let (data, aux) = owner.into_raw_data();
    let slot: SelfRefSlot<(Raw<Rc<u8>>, ()), u8, u8> = SelfRefSlot::NoRef((data, aux));
    let erased = LifetimeErase::erase(slot);
    assert!(watch.upgrade().is_some());
    drop(erased);
    assert!(watch.upgrade().is_none());
}

type At<'a, F> = Varying<'a, 'a, 'static, F>;

fn store<'a>(slot: SelfRefSlot<String, At<'a, u8>, At<'a, u8>>) -> DefaultErase<String, u8, u8> {
    DefaultErase::erase(lengthen_slot::<String, u8, u8>(slot))
}

fn take<'a>(erased: DefaultErase<String, u8, u8>) -> SelfRefSlot<String, At<'a, u8>, At<'a, u8>> {
    shorten_slot::<String, u8, u8>(DefaultErase::unerase(erased))
}

#[test]
fn a_slot_is_stored_at_the_longest_span_and_taken_out_at_a_shorter_one() {
    let erased = store(SelfRefSlot::ExclusiveRef(9));
    assert!(matches!(take(erased), SelfRefSlot::ExclusiveRef(9)));
    let erased = store(SelfRefSlot::NoRef(String::from("owned")));
    assert!(matches!(take(erased), SelfRefSlot::NoRef(text) if text == "owned"));
}
