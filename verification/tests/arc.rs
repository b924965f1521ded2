use atomic_primitives::arc::{Arc, ArcData, Weak};
use atomic_primitives::counts::LOCKED;
use std::cell::{Cell, RefCell};

struct DetectDrop<'a>(&'a Cell<usize>);

impl Drop for DetectDrop<'_> {
    fn drop(&mut self) {
        self.0.set(self.0.get() + 1);
    }
}

/// Releases a strong handle as an owner of the payload does: destroys the
/// payload where the handle was the last strong one, and says whether the
/// control block is to be freed.
fn drop_strong<T>(arc: Arc<'_>, payload: &RefCell<Option<T>>) -> bool {
    match arc.release().0 {
        Some(weak) => {
            drop(payload.borrow_mut().take());
            weak.release().0
        }
        None => false,
    }
}

#[test]
fn test() {
    let num_drops = Cell::new(0);
    let payload = RefCell::new(Some(("hello", DetectDrop(&num_drops))));
    let mut block = ArcData::new();

    let x = Arc::new(&mut block);
    let y = Arc::downgrade(&x).0.unwrap();
    let z = Arc::downgrade(&x).0.unwrap();

    {
        let upgraded = y.upgrade().0.unwrap().unwrap();
        assert_eq!(payload.borrow().as_ref().unwrap().0, "hello");
        assert!(!drop_strong(upgraded, &payload));
        assert!(!y.release().0);
    }

    assert_eq!(payload.borrow().as_ref().unwrap().0, "hello");
    assert_eq!(num_drops.get(), 0);
    let again = z.upgrade().0.unwrap();
    assert!(again.is_some());
    assert!(!drop_strong(again.unwrap(), &payload));

    assert!(!drop_strong(x, &payload));
    assert_eq!(num_drops.get(), 1);
    assert!(z.upgrade().0.unwrap().is_none());
    assert!(z.release().0);
}

#[test]
fn sole_handle_gets_access() {
    let mut block = ArcData::new();
    let mut x = Arc::new(&mut block);
    assert!(Arc::get_mut(&mut x).0);
    assert!(Arc::get_mut(&mut x).0);
    let last = x.release().0;
    assert!(last.is_some());
    assert!(last.unwrap().release().0);
}

#[test]
fn second_strong_handle_blocks_access() {
    let mut block = ArcData::new();
    let mut x = Arc::new(&mut block);
    let mut y = x.try_clone().0.unwrap();
    assert!(!Arc::get_mut(&mut x).0);
    assert!(!Arc::get_mut(&mut y).0);
    assert!(y.release().0.is_none());
    assert!(Arc::get_mut(&mut x).0);
    assert!(x.release().0.unwrap().release().0);
}

#[test]
fn weak_handle_blocks_access_until_released() {
    let mut block = ArcData::new();
    let mut x = Arc::new(&mut block);
    assert!(Arc::get_mut(&mut x).0);
    let w = Arc::downgrade(&x).0.unwrap();
    assert!(!Arc::get_mut(&mut x).0);
    let v = w.try_clone().0.unwrap();
    assert!(!w.release().0);
    assert!(!Arc::get_mut(&mut x).0);
    assert!(!v.release().0);
    assert!(Arc::get_mut(&mut x).0);
    assert!(x.release().0.unwrap().release().0);
}

#[test]
fn refused_access_leaves_the_counts_alone() {
    let mut block = ArcData::new();
    let mut x = Arc::new(&mut block);
    let w = Arc::downgrade(&x).0.unwrap();
    assert!(!Arc::get_mut(&mut x).0);
    assert!(!Arc::get_mut(&mut x).0);
    let u = w.upgrade().0.unwrap().unwrap();
    assert!(!w.release().0);
    assert!(!Arc::get_mut(&mut x).0);
    assert!(u.release().0.is_none());
    assert!(Arc::get_mut(&mut x).0);
    assert!(x.release().0.unwrap().release().0);
}

#[test]
fn granted_access_unlocks_the_count() {
    let mut block = ArcData::new();
    let mut x = Arc::new(&mut block);
    assert!(Arc::get_mut(&mut x).0);
    let w = Arc::downgrade(&x).0;
    assert!(w.is_ok());
    assert!(!w.unwrap().release().0);
    assert!(Arc::get_mut(&mut x).0);
    assert!(x.release().0.unwrap().release().0);
}

#[test]
fn payload_goes_with_the_last_strong_handle() {
    for n in [0usize, 1, 2, 7, 100] {
        let mut block = ArcData::new();
        let first = Arc::new(&mut block);
        let mut handles = Vec::new();
        for _ in 0..n {
            handles.push(first.try_clone().0.unwrap());
        }
        handles.push(first);
        let mut destroyed = 0;
        let mut freed = 0;
        for handle in handles {
            if let Some(weak) = handle.release().0 {
                destroyed += 1;
                if weak.release().0 {
                    freed += 1;
                }
            }
        }
        assert_eq!(destroyed, 1);
        assert_eq!(freed, 1);
    }
}

#[test]
fn release_order_does_not_matter() {
    let mut block = ArcData::new();
    let a = Arc::new(&mut block);
    let b = a.try_clone().0.unwrap();
    let c = b.try_clone().0.unwrap();
    assert!(a.release().0.is_none());
    assert!(c.release().0.is_none());
    let last = b.release().0;
    assert!(last.is_some());
    assert!(last.unwrap().release().0);
}

#[test]
fn upgrade_keeps_the_payload_alive() {
    let mut block = ArcData::new();
    let x = Arc::new(&mut block);
    let w = Arc::downgrade(&x).0.unwrap();
    let u = w.upgrade().0.unwrap().unwrap();
    assert!(x.release().0.is_none());
    let v = w.upgrade().0.unwrap();
    assert!(v.is_some());
    assert!(v.unwrap().release().0.is_none());
    let last = u.release().0;
    assert!(last.is_some());
    assert!(w.upgrade().0.unwrap().is_none());
    assert!(!last.unwrap().release().0);
    assert!(w.release().0);
}

#[test]
fn no_upgrade_after_the_last_strong_handle() {
    let mut block = ArcData::new();
    let x = Arc::new(&mut block);
    let w1 = Arc::downgrade(&x).0.unwrap();
    let w2 = w1.try_clone().0.unwrap();
    let group = x.release().0.unwrap();
    assert!(w1.upgrade().0.unwrap().is_none());
    assert!(w2.upgrade().0.unwrap().is_none());
    assert!(group.upgrade().0.unwrap().is_none());
    assert!(!group.release().0);
    assert!(w1.upgrade().0.unwrap().is_none());
    assert!(!w1.release().0);
    assert!(w2.upgrade().0.unwrap().is_none());
    assert!(w2.release().0);
}

#[test]
fn block_is_freed_by_the_last_handle_of_either_kind() {
    let mut block = ArcData::new();
    let x = Arc::new(&mut block);
    let w = Arc::downgrade(&x).0.unwrap();
    let group = x.release().0.unwrap();
    assert!(!w.release().0);
    assert!(group.release().0);
}

#[test]
fn weak_clones_all_count() {
    let mut block = ArcData::new();
    let x = Arc::new(&mut block);
    let w = Arc::downgrade(&x).0.unwrap();
    let mut weaks: Vec<Weak> = Vec::new();
    for _ in 0..10 {
        weaks.push(w.try_clone().0.unwrap());
    }
    weaks.push(w);
    let group = x.release().0.unwrap();
    assert!(!group.release().0);
    let mut freed = 0;
    for weak in weaks {
        if weak.release().0 {
            freed += 1;
        }
    }
    assert_eq!(freed, 1);
}

#[test]
fn block_can_be_taken_into_use_again() {
    let mut block = ArcData::new();
    {
        let x = Arc::new(&mut block);
        let w = Arc::downgrade(&x).0.unwrap();
        assert!(x.release().0.unwrap().upgrade().0.unwrap().is_none());
        drop(w);
    }
    let mut y = Arc::new(&mut block);
    assert!(Arc::get_mut(&mut y).0);
    let w = Arc::downgrade(&y).0.unwrap();
    assert!(w.upgrade().0.unwrap().unwrap().release().0.is_none());
    assert!(!w.release().0);
    assert!(y.release().0.unwrap().release().0);
}

#[test]
fn payload_is_destroyed_once_under_mixed_use() {
    let num_drops = Cell::new(0);
    let payload = RefCell::new(Some(DetectDrop(&num_drops)));
    let mut block = ArcData::new();
    let mut frees = 0;
    let x = Arc::new(&mut block);
    let mut strongs = vec![x];
    let mut weaks: Vec<Weak> = Vec::new();
    for round in 0..200usize {
        match round % 5 {
            0 => {
                if let Some(s) = strongs.last() {
                    strongs.push(s.try_clone().0.unwrap());
                }
            }
            1 => {
                if let Some(s) = strongs.last() {
                    weaks.push(Arc::downgrade(s).0.unwrap());
                }
            }
            2 => {
                if let Some(w) = weaks.last() {
                    if let Some(s) = w.upgrade().0.unwrap() {
                        strongs.push(s);
                    }
                }
            }
            3 => {
                let others = strongs.len() + weaks.len() - 1;
                if let Some(s) = strongs.last_mut() {
                    assert_eq!(Arc::get_mut(s).0, others == 0);
                }
            }
            _ => {
                if round % 2 == 0 {
                    if let Some(w) = weaks.pop() {
                        assert!(!w.release().0);
                    }
                }
            }
        }
        assert_eq!(num_drops.get(), 0);
    }
    assert!(!strongs.is_empty());
    for s in strongs {
        if drop_strong(s, &payload) {
            frees += 1;
        }
    }
    assert_eq!(num_drops.get(), 1);
    for w in &weaks {
        assert!(w.upgrade().0.unwrap().is_none());
    }
    for w in weaks {
        if w.release().0 {
            frees += 1;
        }
    }
    assert_eq!(num_drops.get(), 1);
    assert_eq!(frees, 1);
}

#[test]
fn clone_reports_the_strong_count_it_found() {
    let mut block = ArcData::new();
    let a = Arc::new(&mut block);
    let (b, found) = a.try_clone();
    assert_eq!(found, 1);
    let (c, found) = a.try_clone();
    assert_eq!(found, 2);
    let b = b.unwrap();
    let (d, found) = b.try_clone();
    assert_eq!(found, 3);
    for (handle, expected) in [(c.unwrap(), 4), (d.unwrap(), 3), (b, 2)] {
        let (last, found) = handle.release();
        assert!(last.is_none());
        assert_eq!(found, expected);
    }
    let (last, found) = a.release();
    assert_eq!(found, 1);
    assert_eq!(last.unwrap().release(), (true, 1));
}

#[test]
fn release_reports_the_count_it_found() {
    let mut block = ArcData::new();
    let x = Arc::new(&mut block);
    let w = Arc::downgrade(&x).0.unwrap();
    let v = w.try_clone().0.unwrap();
    assert_eq!(v.release(), (false, 3));
    let (group, found) = x.release();
    assert_eq!(found, 1);
    assert_eq!(w.release(), (false, 2));
    assert_eq!(group.unwrap().release(), (true, 1));
}

#[test]
fn weak_clone_reports_the_allocation_count_it_found() {
    let mut block = ArcData::new();
    let x = Arc::new(&mut block);
    let w = Arc::downgrade(&x).0.unwrap();
    let (v, found) = w.try_clone();
    assert_eq!(found, 2);
    let (u, found) = w.try_clone();
    assert_eq!(found, 3);
    assert_eq!(u.unwrap().release(), (false, 4));
    assert_eq!(v.unwrap().release(), (false, 3));
    assert_eq!(w.release(), (false, 2));
    assert_eq!(x.release().0.unwrap().release(), (true, 1));
}

#[test]
fn downgrade_reports_the_count_it_replaced() {
    let mut block = ArcData::new();
    let x = Arc::new(&mut block);
    let (w1, seen) = Arc::downgrade(&x);
    assert_eq!(seen, Ok(1));
    let (w2, seen) = Arc::downgrade(&x);
    assert_eq!(seen, Ok(2));
    assert_eq!(w1.unwrap().release(), (false, 3));
    let (w3, seen) = Arc::downgrade(&x);
    assert_eq!(seen, Ok(2));
    assert_eq!(w3.unwrap().release(), (false, 3));
    assert_eq!(w2.unwrap().release(), (false, 2));
    assert_eq!(x.release().0.unwrap().release(), (true, 1));
}

#[test]
fn upgrade_reports_how_its_loop_ended() {
    let mut block = ArcData::new();
    let x = Arc::new(&mut block);
    let w = Arc::downgrade(&x).0.unwrap();
    let (a, seen) = w.upgrade();
    assert_eq!(seen, Ok(1));
    let (b, seen) = w.upgrade();
    assert_eq!(seen, Ok(2));
    assert_eq!(b.unwrap().unwrap().release().1, 3);
    assert_eq!(a.unwrap().unwrap().release().1, 2);
    let (group, found) = x.release();
    assert_eq!(found, 1);
    let (none, seen) = w.upgrade();
    assert_eq!(seen, Err(0));
    assert!(none.unwrap().is_none());
    let (none, seen) = group.as_ref().unwrap().upgrade();
    assert_eq!(seen, Err(0));
    assert!(none.unwrap().is_none());
    assert_eq!(group.unwrap().release(), (false, 2));
    assert_eq!(w.release(), (true, 1));
}

#[test]
fn get_mut_reports_what_it_found() {
    let mut block = ArcData::new();
    let mut x = Arc::new(&mut block);
    assert_eq!(Arc::get_mut(&mut x), (true, Ok(1), Some(1)));
    let mut y = x.try_clone().0.unwrap();
    assert_eq!(Arc::get_mut(&mut x), (false, Ok(1), Some(2)));
    assert_eq!(Arc::get_mut(&mut y), (false, Ok(1), Some(2)));
    let w = Arc::downgrade(&x).0.unwrap();
    assert_eq!(Arc::get_mut(&mut x), (false, Err(2), None));
    assert!(y.release().0.is_none());
    assert_eq!(Arc::get_mut(&mut x), (false, Err(2), None));
    assert_eq!(w.release(), (false, 2));
    assert_eq!(Arc::get_mut(&mut x), (true, Ok(1), Some(1)));
    assert_ne!(Arc::get_mut(&mut x).1, Ok(LOCKED));
    assert_eq!(x.release().0.unwrap().release(), (true, 1));
}
