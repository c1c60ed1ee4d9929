use usbfly::prepare::{PrepAction, QueueStarter, StepOutcome};
use usbfly::speed::Speed;

fn run(writes_ok: bool, speeds: Option<Vec<Speed>>) -> Vec<PrepAction> {
    let mut s = QueueStarter::new();
    let mut last = StepOutcome::Done;
    let mut actions = Vec::new();
    for _ in 0..200 {
        let a = s.next_action(&last);
        actions.push(a);
        last = match a {
            PrepAction::Write { .. } => {
                if writes_ok {
                    StepOutcome::Done
                } else {
                    StepOutcome::Failed
                }
            },
            PrepAction::QuerySpeeds => match &speeds {
                Some(v) => StepOutcome::Speeds(v.clone()),
                None => StepOutcome::Failed,
            },
            PrepAction::Finish(_) => break,
            _ => StepOutcome::Done,
        };
    }
    actions
}

fn w(request: u8, value: u8) -> PrepAction {
    PrepAction::Write { request, value }
}

#[test]
fn queue_starter_happy_path() {
    let actions = run(true, Some(vec![Speed::Full, Speed::High]));
    assert_eq!(
        actions,
        vec![
            w(1, 2),
            PrepAction::Sleep(800),
            PrepAction::QuerySpeeds,
            w(4, 0),
            PrepAction::Sleep(200),
            w(0xFF, 0),
            PrepAction::Sleep(2500),
            w(2, 3),
            PrepAction::Sleep(300),
            w(3, 3),
            w(0x0A, 3),
            PrepAction::Sleep(200),
            PrepAction::CreateQueue,
            w(1, 3),
            PrepAction::Sleep(500),
            PrepAction::StartProcessing,
            PrepAction::Sleep(500),
            PrepAction::Finish(true),
        ]
    );
}

#[test]
fn queue_starter_uses_every_fallback_then_gives_up() {
    let actions = run(false, None);
    assert_eq!(
        actions,
        vec![
            w(1, 2),
            w(1, 0),
            PrepAction::Sleep(800),
            PrepAction::QuerySpeeds,
            w(2, 0),
            w(4, 0),
            PrepAction::Sleep(200),
            w(0xFF, 0),
            w(0x0F, 1),
            PrepAction::Sleep(2500),
            w(2, 3),
            w(2, 1),
            PrepAction::Sleep(300),
            w(3, 3),
            w(3, 1),
            w(0x0A, 3),
            w(0x0A, 1),
            w(0x0A, 5),
            PrepAction::Sleep(200),
            PrepAction::CreateQueue,
            w(1, 3),
            PrepAction::Sleep(300),
            w(1, 1),
            PrepAction::Sleep(300),
            w(1, 5),
            PrepAction::Sleep(300),
            PrepAction::Finish(false),
        ]
    );
}

#[test]
fn queue_starter_picks_best_reported_speed() {
    let actions = run(true, Some(vec![Speed::Full, Speed::Low]));
    assert!(actions.contains(&w(0x0A, 5)));
    let actions = run(true, Some(vec![Speed::Auto]));
    assert!(actions.contains(&w(0x0A, 1)));
}
