use rude_honker::stepper::Stepper;

#[test]
fn stepper_walks_full_step_sequence() {
    let mut s = Stepper::new();
    assert_eq!(s.current_phase(), 0);
    assert_eq!(s.step(true), (false, false));
    assert_eq!(s.step(true), (false, true));
    assert_eq!(s.step(true), (true, true));
    assert_eq!(s.step(true), (true, false));
    assert_eq!(s.current_phase(), 0);
    assert_eq!(s.step(true), (false, false));
}

#[test]
fn stepper_backward_undoes_forward() {
    let mut s = Stepper::new();
    s.step(true);
    s.step(true);
    let p = s.current_phase();
    s.step(true);
    s.step(false);
    assert_eq!(s.current_phase(), p);
    let mut t = Stepper::new();
    assert_eq!(t.step(false), (false, false));
    assert_eq!(t.current_phase(), 3);
    assert_eq!(t.step(false), (true, false));
    assert_eq!(t.current_phase(), 2);
}

#[test]
fn stepper_changes_one_pin_per_step() {
    let mut f = Stepper::new();
    let mut last = f.step(true);
    for _ in 0..8 {
        let cur = f.step(true);
        assert_eq!((last.0 != cur.0) as u8 + (last.1 != cur.1) as u8, 1);
        last = cur;
    }
}

#[test]
fn stepper_one_pin_changes_backward() {
    let mut b = Stepper::new();
    let mut last = b.step(false);
    for _ in 0..8 {
        let cur = b.step(false);
        assert_eq!((last.0 != cur.0) as u8 + (last.1 != cur.1) as u8, 1);
        last = cur;
    }
}
