use usbfly::capture::{capture_starts_now, CaptureAction, CaptureArming, CaptureStarter, MAX_CAPTURE_ATTEMPTS};
use usbfly::speed::Speed;

fn run(starter: &mut CaptureStarter, mut ok: impl FnMut(u8, u8) -> bool) -> Vec<CaptureAction> {
    let mut actions = Vec::new();
    let mut last_ok = false;
    for _ in 0..1000 {
        let a = starter.next_action(last_ok);
        actions.push(a);
        match a {
            CaptureAction::Write { request, value } => last_ok = ok(request, value),
            CaptureAction::Finish(_) => break,
            _ => {},
        }
    }
    actions
}

#[test]
fn starter_prepares_then_starts_at_chosen_speed() {
    let mut s = CaptureStarter::new(Speed::High);
    let actions = run(&mut s, |_, _| true);
    assert_eq!(
        actions,
        vec![
            CaptureAction::Write { request: 1, value: 2 },
            CaptureAction::Sleep(500),
            CaptureAction::Write { request: 0xFF, value: 0 },
            CaptureAction::Sleep(2000),
            CaptureAction::Write { request: 2, value: 1 },
            CaptureAction::Sleep(300),
            CaptureAction::Write { request: 3, value: 3 },
            CaptureAction::Sleep(300),
            CaptureAction::CreateQueue,
            CaptureAction::Write { request: 1, value: 3 },
            CaptureAction::StartProcessing,
            CaptureAction::Sleep(500),
            CaptureAction::Finish(true),
        ]
    );
    assert_eq!(s.next_action(false), CaptureAction::Finish(true));
}

#[test]
fn starter_falls_back_to_next_candidate() {
    let mut s = CaptureStarter::new(Speed::Low);
    let actions = run(&mut s, |req, value| !(req == 1 && value == 7));
    let starts: Vec<u8> = actions
        .iter()
        .filter_map(|a| match a {
            CaptureAction::Write { request: 1, value } if value % 2 == 1 => Some(*value),
            _ => None,
        })
        .collect();
    assert_eq!(starts, vec![7, 1]);
    assert_eq!(*actions.last().unwrap(), CaptureAction::Finish(true));
}

#[test]
fn starter_gives_up_after_every_round_fails() {
    let mut s = CaptureStarter::new(Speed::Full);
    let actions = run(&mut s, |req, value| !(req == 1 && value % 2 == 1));
    assert_eq!(*actions.last().unwrap(), CaptureAction::Finish(false));
    let starts = actions
        .iter()
        .filter(|a| matches!(a, CaptureAction::Write { request: 1, value } if value % 2 == 1))
        .count();
    assert_eq!(starts, 3 * MAX_CAPTURE_ATTEMPTS as usize);
    assert!(actions.contains(&CaptureAction::Sleep(400)));
    assert!(actions.contains(&CaptureAction::Sleep(800)));
    assert!(actions.contains(&CaptureAction::Sleep(1600)));
    assert!(actions.contains(&CaptureAction::Sleep(3000)));
    assert!(actions.contains(&CaptureAction::Sleep(1000)));
    for a in &actions {
        if let CaptureAction::Write { request: 1, value } = a {
            if value % 2 == 1 {
                assert!(*value == 5 || *value == 1 || *value == 3);
            }
        }
    }
}

#[test]
fn capture_starts_now_only_for_gsg_devices() {
    assert!(capture_starts_now(0x1d50));
    assert!(!capture_starts_now(0x046d));
}

#[test]
fn arming_waits_for_a_device_of_another_vendor() {
    let mut a = CaptureArming::new();
    assert!(!a.receiver_ready && !a.pending_sender && !a.capture_on_connect);
    assert!(a.begin(0x1d50));
    assert!(a.receiver_ready);
    assert!(!a.pending_sender && !a.capture_on_connect);
    let mut b = CaptureArming::new();
    assert!(!b.begin(0x1234));
    assert!(b.receiver_ready && b.pending_sender && b.capture_on_connect);
}
