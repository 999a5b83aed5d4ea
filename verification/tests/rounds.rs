use oom_guard::guard::{begin_round, fault_hook_aborts, settle, Outcome, PolicyFlag, Verdict};
use oom_guard::layout::Layout;
use oom_guard::mailbox::{oom_hook, Mailbox};
use oom_guard::AllocError;

fn layout(size: usize, align: usize) -> Layout {
    Layout::from_size_align(size, align).expect("alignment must be a power of two")
}

#[test]
fn mailbox_single_slot() {
    let mut m = Mailbox::new();
    assert!(!m.has_error());
    assert!(m.take().is_none());

    let e = AllocError::new(layout(64, 8));
    m.inject(e);
    assert!(m.has_error());

    let taken = m.take().expect("a descriptor was pending");
    assert_eq!(taken.layout(), layout(64, 8));
    assert!(!m.has_error());

    m.clear();
    assert!(!m.has_error());
    m.clear();
    assert!(!m.has_error());
}

#[test]
fn success_round_delivers_value() {
    let mut flag = PolicyFlag::new();
    let mut m = Mailbox::new();
    begin_round(&mut flag, &mut m);

    match settle(&mut m, Outcome::Completed(42)) {
        Verdict::Deliver(Ok(v)) => assert_eq!(v, 42),
        _ => panic!("a completed computation must deliver its value"),
    }
    assert!(!m.has_error());
}

#[test]
fn oom_round_delivers_layout_and_resets() {
    let mut flag = PolicyFlag::new();
    let mut m = Mailbox::new();
    let l = layout(1 << 30, 16);

    begin_round(&mut flag, &mut m);
    oom_hook(&mut m, l);
    match settle::<u32>(&mut m, Outcome::Unwound) {
        Verdict::Deliver(Err(e)) => assert_eq!(e.layout(), l),
        _ => panic!("an exhaustion unwind must deliver the pending descriptor"),
    }
    assert!(!m.has_error());

    // The next round on the same thread starts from a clean slate.
    let l2 = layout(128, 1);
    begin_round(&mut flag, &mut m);
    oom_hook(&mut m, l2);
    match settle::<u32>(&mut m, Outcome::Unwound) {
        Verdict::Deliver(Err(e)) => assert_eq!(e.layout(), l2),
        _ => panic!("an exhaustion unwind must deliver the pending descriptor"),
    }
    assert!(!m.has_error());
}

#[test]
fn foreign_fault_is_fatal() {
    let mut flag = PolicyFlag::new();
    let mut m = Mailbox::new();
    begin_round(&mut flag, &mut m);

    // No descriptor was injected: the unwind came from some other fault.
    assert!(matches!(settle::<u32>(&mut m, Outcome::Unwound), Verdict::Fatal));
}

#[test]
fn fault_hook_aborts_iff_mailbox_empty() {
    let mut m = Mailbox::new();
    assert!(fault_hook_aborts(&m));

    m.inject(AllocError::new(layout(32, 4)));
    assert!(!fault_hook_aborts(&m));

    m.clear();
    assert!(fault_hook_aborts(&m));
}

#[test]
fn flag_installs_exactly_once() {
    let mut flag = PolicyFlag::new();
    assert!(flag.try_install());
    assert!(!flag.try_install());
    assert!(!flag.try_install());

    let mut m = Mailbox::new();
    assert!(!begin_round(&mut flag, &mut m));
}

#[test]
fn first_round_installs_and_clears() {
    let mut flag = PolicyFlag::new();
    let mut m = Mailbox::new();
    m.inject(AllocError::new(layout(8, 8)));

    // Leftover state is discarded on entry, and the first round installs.
    assert!(begin_round(&mut flag, &mut m));
    assert!(!m.has_error());
}

#[test]
fn mailboxes_are_independent() {
    let la = layout(512, 8);
    let lb = layout(2048, 32);

    let mut flag = PolicyFlag::new();
    let mut ma = Mailbox::new();
    let mut mb = Mailbox::new();
    begin_round(&mut flag, &mut ma);
    begin_round(&mut flag, &mut mb);

    oom_hook(&mut ma, la);
    assert!(!mb.has_error());
    oom_hook(&mut mb, lb);

    match settle::<()>(&mut ma, Outcome::Unwound) {
        Verdict::Deliver(Err(e)) => assert_eq!(e.layout(), la),
        _ => panic!("each mailbox must deliver its own descriptor"),
    }
    match settle::<()>(&mut mb, Outcome::Unwound) {
        Verdict::Deliver(Err(e)) => assert_eq!(e.layout(), lb),
        _ => panic!("each mailbox must deliver its own descriptor"),
    }
}
