use flexrc::arc::AtomicRc;
use flexrc::rc::FastRc;
use flexrc::LocalHybridRc;
use flexrc::LocalRc;
use flexrc::LocalTrackedRc;
use flexrc::SharedHybridRc;
use flexrc::SharedRc;
use flexrc::SharedTrackedRc;
use std::cell::Cell;
use std::rc::Rc;

struct Counted {
    drops: Rc<Cell<u32>>,
    value: u32,
}

impl Drop for Counted {
    fn drop(&mut self) {
        self.drops.set(self.drops.get() + 1);
    }
}

impl Clone for Counted {
    fn clone(&self) -> Self {
        Counted { drops: self.drops.clone(), value: self.value }
    }
}

fn same_record<T>(a: &T, b: &T) -> bool {
    std::ptr::eq(a, b)
}

#[test]
fn local_six_handles_destructor_runs_on_the_sixth_drop() {
    let drops = Rc::new(Cell::new(0));
    let rc = LocalRc::new(Counted { drops: drops.clone(), value: 42 });
    let mut all = vec![rc];
    for _ in 0..5 {
        let next = all[0].clone();
        all.push(next);
    }
    assert_eq!(all.len(), 6);
    for remaining in (0..6).rev() {
        assert_eq!(drops.get(), 0);
        let gone = all.pop().unwrap();
        assert_eq!(gone.value, 42);
        drop(gone);
        assert_eq!(drops.get(), if remaining == 0 { 1 } else { 0 });
    }
    assert_eq!(drops.get(), 1);
}

#[test]
fn hybrid_destructor_waits_for_the_last_handle_of_either_flavour() {
    let drops = Rc::new(Cell::new(0));
    let local = LocalHybridRc::new(Counted { drops: drops.clone(), value: 7 });
    let shared = local.try_to_other().unwrap();
    let shared_two = shared.clone();
    drop(local);
    assert_eq!(drops.get(), 0);
    drop(shared);
    assert_eq!(drops.get(), 0);
    assert_eq!(shared_two.value, 7);
    drop(shared_two);
    assert_eq!(drops.get(), 1);

    let shared = SharedHybridRc::new(Counted { drops: drops.clone(), value: 8 });
    let local = shared.try_to_other().unwrap();
    drop(shared);
    assert_eq!(drops.get(), 1);
    assert_eq!(local.value, 8);
    drop(local);
    assert_eq!(drops.get(), 2);
}

#[test]
fn unique_exactly_with_one_live_handle() {
    let rc = LocalRc::new(1u8);
    assert!(rc.is_unique());
    let other = rc.clone();
    assert!(!rc.is_unique());
    assert!(!other.is_unique());
    drop(other);
    assert!(rc.is_unique());

    let rc = SharedRc::new(1u8);
    assert!(rc.is_unique());
    let other = rc.clone();
    assert!(!rc.is_unique());
    drop(other);
    assert!(rc.is_unique());

    let local = LocalHybridRc::new(1u8);
    assert!(local.is_unique());
    let shared = local.try_to_other().unwrap();
    assert!(!local.is_unique());
    assert!(!shared.is_unique());
    drop(local);
    assert!(shared.is_unique());
    let local = shared.try_to_other().unwrap();
    assert!(!shared.is_unique());
    drop(shared);
    assert!(local.is_unique());
}

#[test]
fn get_mut_succeeds_exactly_for_the_unique_handle() {
    let mut rc = LocalRc::new(10u32);
    *rc.get_mut().unwrap() = 11;
    assert_eq!(*rc, 11);
    let other = rc.clone();
    assert!(rc.get_mut().is_none());
    assert_eq!(*rc, 11);
    assert_eq!(*other, 11);
    drop(other);
    *rc.get_mut().unwrap() += 1;
    assert_eq!(*rc, 12);

    let mut shared = SharedHybridRc::new(String::from("a"));
    shared.get_mut().unwrap().push('b');
    assert_eq!(&*shared, "ab");
    let local = shared.try_to_other().unwrap();
    assert!(shared.get_mut().is_none());
    drop(local);
    shared.get_mut().unwrap().push('c');
    assert_eq!(&*shared, "abc");
}

#[test]
fn independent_conversion_needs_the_only_handle() {
    let first = LocalRc::new(42u32);
    let second = first.clone();
    let first = match first.try_into_other() {
        Ok(_) => panic!("two live handles must not convert"),
        Err(same) => same,
    };
    assert_eq!(*first, 42);
    assert!(!first.is_unique());
    assert!(first.try_to_other().is_none());
    drop(second);
    let shared = match first.try_into_other() {
        Ok(shared) => shared,
        Err(_) => panic!("the only handle must convert"),
    };
    assert_eq!(*shared, 42);
    assert!(shared.is_unique());
    assert!(shared.try_to_other().is_none());
}

#[test]
fn independent_round_trip_keeps_the_record() {
    let drops = Rc::new(Cell::new(0));
    let local = LocalRc::new(Counted { drops: drops.clone(), value: 5 });
    let address = format!("{:p}", &*local);
    let shared = local.try_into_other().ok().unwrap();
    assert_eq!(format!("{:p}", &*shared), address);
    let back = shared.try_into_other().ok().unwrap();
    assert_eq!(format!("{:p}", &*back), address);
    assert_eq!(back.value, 5);
    assert!(back.is_unique());
    assert_eq!(drops.get(), 0);
    drop(back);
    assert_eq!(drops.get(), 1);
}

#[test]
fn hybrid_round_trip_keeps_the_record() {
    let drops = Rc::new(Cell::new(0));
    let local = LocalHybridRc::new(Counted { drops: drops.clone(), value: 5 });
    let witness = local.clone();
    let shared = local.try_into_other().ok().unwrap();
    assert!(same_record(&*shared, &*witness));
    drop(witness);
    assert!(shared.is_unique());
    let back = shared.try_into_other().ok().unwrap();
    assert!(back.is_unique());
    assert_eq!(back.value, 5);
    let again = back.try_into_other().ok().unwrap();
    assert!(again.is_unique());
    assert_eq!(drops.get(), 0);
    drop(again);
    assert_eq!(drops.get(), 1);
}

#[test]
fn into_other_clones_the_payload_when_not_unique() {
    let drops = Rc::new(Cell::new(0));
    let first = LocalRc::new(Counted { drops: drops.clone(), value: 9 });
    let second = first.clone();
    let shared = first.into_other();
    assert_eq!(shared.value, 9);
    assert!(!same_record(&*shared, &*second));
    assert!(shared.is_unique());
    assert!(second.is_unique());
    drop(shared);
    assert_eq!(drops.get(), 1);
    let moved = second.into_other();
    assert_eq!(moved.value, 9);
    assert_eq!(drops.get(), 1);
    drop(moved);
    assert_eq!(drops.get(), 2);
}

#[test]
fn short_names_convert_like_the_long_ones() {
    let rc: FastRc<u32> = FastRc::new(3);
    let arc: AtomicRc<u32> = rc.try_into_arc().ok().unwrap();
    assert_eq!(*arc, 3);
    let other = arc.clone();
    let arc = match arc.try_into_rc() {
        Ok(_) => panic!("two live handles must not convert"),
        Err(same) => same,
    };
    let copied: FastRc<u32> = arc.into_rc();
    assert_eq!(*copied, 3);
    assert!(copied.is_unique());
    assert!(other.is_unique());
    let rc: FastRc<u32> = other.into_rc();
    let arc: AtomicRc<u32> = rc.into_arc();
    assert_eq!(*arc, 3);
    let rc = FastRc::from_ref(&7u32);
    assert_eq!(*rc, 7);
}

#[test]
fn hybrid_claim_is_lost_while_the_local_side_is_held() {
    let shared = SharedHybridRc::new(42u32);
    let for_b = shared.clone();
    // thread A claims the thread-confined side
    let local_a = shared.try_to_other().unwrap();
    // thread B asks before A lets go
    let for_b = match for_b.try_into_other() {
        Ok(_) => panic!("the claim is held"),
        Err(same) => same,
    };
    assert!(for_b.try_to_other().is_none());
    assert_eq!(*for_b, 42);
    // A's claim stands: A can still clone and drop on its side
    let local_a2 = local_a.clone();
    drop(local_a2);
    assert!(for_b.try_to_other().is_none());
    drop(local_a);
    // A has let go: B's retry wins
    let local_b = for_b.try_to_other().unwrap();
    assert_eq!(*local_b, 42);
    drop(shared);
    drop(for_b);
    assert!(local_b.is_unique());
}

#[test]
fn hybrid_claim_across_threads() {
    loom::model(|| {
        let shared = SharedHybridRc::new(42u32);
        let for_b = shared.clone();
        let local_a = shared.try_to_other().unwrap();
        let for_b = loom::thread::spawn(move || {
            assert!(for_b.try_to_other().is_none());
            for_b
        })
        .join()
        .unwrap();
        drop(local_a);
        let won = loom::thread::spawn(move || {
            let local_b = for_b.try_to_other();
            local_b.is_some()
        })
        .join()
        .unwrap();
        assert!(won);
        assert!(shared.is_unique());
        assert_eq!(*shared, 42);
    });
}

#[test]
fn hybrid_promotion_never_fails() {
    let local = LocalHybridRc::new(1u32);
    let others: Vec<LocalHybridRc<u32>> = (0..3).map(|_| local.clone()).collect();
    let shared = local.try_to_other().unwrap();
    let shared_two = local.try_to_other().unwrap();
    let shared_three = local.try_into_other().ok().unwrap();
    assert_eq!(*shared + *shared_two + *shared_three, 3);
    drop(others);
    drop(shared);
    drop(shared_two);
    assert!(shared_three.is_unique());
}

#[test]
fn tracked_owner_claims_again_and_others_are_turned_away() {
    let shared: SharedTrackedRc<u32> = SharedTrackedRc::new(42);
    let local_a = shared.try_to_local_on(1).unwrap();
    // another thread is turned away, the owner is let in again
    assert!(shared.try_to_local_on(2).is_none());
    let local_a2 = shared.try_to_local_on(1).unwrap();
    assert!(shared.try_to_local_on(2).is_none());
    // a claimant without a name is never the owner
    assert!(shared.try_to_other().is_none());
    drop(local_a);
    assert!(shared.try_to_local_on(2).is_none());
    drop(local_a2);
    // the side is free: the other thread wins and is the owner from now on
    let local_b = shared.try_to_local_on(2).unwrap();
    assert!(shared.try_to_local_on(1).is_none());
    let local_b2 = shared.try_to_local_on(2).unwrap();
    drop(local_b);
    drop(local_b2);
    let keep = shared.clone();
    let local = shared.try_into_local_on(1).ok().unwrap();
    assert_eq!(*local, 42);
    drop(keep);
    assert!(local.is_unique());
}

#[test]
fn tracked_record_born_local_names_its_owner() {
    let local: LocalTrackedRc<u32> = LocalTrackedRc::new_on_thread(5, 3);
    let shared = local.try_to_other().unwrap();
    assert!(shared.try_to_local_on(4).is_none());
    let again = shared.try_to_local_on(3).unwrap();
    assert_eq!(*again, 5);
    drop(again);
    drop(local);
    assert!(shared.is_unique());

    let unnamed: LocalTrackedRc<u32> = LocalTrackedRc::new(6);
    let shared = unnamed.try_to_other().unwrap();
    assert!(shared.try_to_local_on(3).is_none());
    assert!(shared.try_to_other().is_none());
    drop(unnamed);
    assert!(shared.try_to_other().is_some());
}

#[test]
fn tracked_claim_refuses_an_identity_with_the_lock_bit() {
    let shared: SharedTrackedRc<u32> = SharedTrackedRc::new(1);
    let locked = usize::MAX / 2 + 1;
    let shared = match shared.try_into_local_on(locked) {
        Ok(_) => panic!("such an identity cannot be recorded"),
        Err(same) => same,
    };
    assert!(shared.try_to_local_on(usize::MAX).is_none());
    assert!(shared.is_unique());
    assert!(shared.try_to_local_on(usize::MAX / 2).is_some());
}

#[test]
fn try_clone_gives_a_handle_while_the_counter_has_room() {
    let rc = SharedHybridRc::new(5u32);
    let other = rc.try_clone().unwrap();
    assert_eq!(*other, 5);
    assert!(same_record(&*rc, &*other));
    assert!(!rc.is_unique());
    drop(other);
    assert!(rc.is_unique());
    let local = LocalRc::new(6u32);
    let more: Vec<LocalRc<u32>> = (0..100).map(|_| local.try_clone().unwrap()).collect();
    assert!(!local.is_unique());
    drop(more);
    assert!(local.is_unique());
}

#[test]
fn a_new_handle_is_the_only_one() {
    let mut local = LocalRc::new(1u8);
    assert!(local.get_mut().is_some());
    let mut shared = SharedRc::new(1u8);
    assert!(shared.get_mut().is_some());
    let mut hybrid_local = LocalHybridRc::new(1u8);
    assert!(hybrid_local.get_mut().is_some());
    let mut hybrid_shared = SharedHybridRc::new(1u8);
    assert!(hybrid_shared.get_mut().is_some());
    let mut owned = LocalTrackedRc::new_on_thread(1u8, 9);
    assert!(owned.get_mut().is_some());
    let mut unowned = SharedTrackedRc::new(1u8);
    assert!(unowned.get_mut().is_some());
}
