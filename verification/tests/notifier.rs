use std::collections::HashMap;
use yumetouch::config::NotificationMode;
use yumetouch::detector::DetectorEvent;
use yumetouch::notifier::{
    AnyNotifier, CompositeNotifier, DialogNotifier, NotificationCenterNotifier, Notifier,
    GIVING_UP, PROMPT_TIMEOUT_SECONDS, PROMPT_TIMEOUT_TEXT,
};
use yumetouch::request::{Action, Banner, ChildKind, Command, Request};
use yumetouch::runner::{build_notifier, effective_mode, route};

const ALERT: &str =
    r#"display alert "YubiKey" message "Touch your YubiKey" buttons {"OK"} giving up after 30"#;

fn icon_script(icon: &str) -> String {
    format!(
        r#"display dialog "Touch your YubiKey" with title "YubiKey" buttons {{"OK"}} default button "OK" with icon POSIX file "{}" giving up after 30"#,
        icon
    )
}

fn strings(items: &[&str]) -> Vec<String> {
    items.iter().map(|s| s.to_string()).collect()
}

fn from(origin: &[usize], action: Action) -> Request {
    Request { origin: origin.to_vec(), action }
}

fn banner(sound: &str, icon: Option<&str>) -> Action {
    Action::Notify(Banner {
        title: "YubiKey".to_string(),
        message: "Touch your YubiKey".to_string(),
        sound: sound.to_string(),
        icon: icon.map(|s| s.to_string()),
    })
}

fn alert() -> Action {
    Action::Spawn(
        ChildKind::Dialog,
        Command { program: "osascript".to_string(), args: strings(&["-e", ALERT]) },
    )
}

fn dialog(icon: &str) -> Action {
    Action::Spawn(
        ChildKind::Dialog,
        Command { program: "osascript".to_string(), args: strings(&["-e", &icon_script(icon)]) },
    )
}

fn play(sound: &str) -> Action {
    Action::Spawn(
        ChildKind::Sound,
        Command {
            program: "afplay".to_string(),
            args: vec![format!("/System/Library/Sounds/{}.aiff", sound)],
        },
    )
}

/// A host that keeps count of the children in each slot, and fails the
/// requests at the given places of a plan.
struct Host {
    live: HashMap<(Vec<usize>, ChildKind), usize>,
    banners: usize,
    failed: usize,
}

impl Host {
    fn new() -> Host {
        Host { live: HashMap::new(), banners: 0, failed: 0 }
    }

    fn perform(&mut self, plan: &[Request], failing: &[usize]) {
        for (place, request) in plan.iter().enumerate() {
            let fails = failing.contains(&place);
            match &request.action {
                Action::Notify(_) => {
                    if fails {
                        self.failed += 1;
                    } else {
                        self.banners += 1;
                    }
                }
                Action::Terminate(kind) => {
                    self.live.remove(&(request.origin.clone(), *kind));
                }
                Action::Spawn(kind, _) => {
                    if fails {
                        self.failed += 1;
                    } else {
                        *self.live.entry((request.origin.clone(), *kind)).or_insert(0) += 1;
                    }
                }
            }
        }
    }

    fn most_in_one_slot(&self) -> usize {
        self.live.values().copied().max().unwrap_or(0)
    }

    fn children(&self) -> usize {
        self.live.values().sum()
    }
}

#[test]
fn banner_is_one_notification() {
    let mut n = NotificationCenterNotifier::new("Funk", None);
    assert_eq!(n.notify_touch_needed(), vec![from(&[], banner("Funk", None))]);
    let mut n = NotificationCenterNotifier::new("Glass", Some("/c/icon.png".to_string()));
    assert_eq!(n.notify_touch_needed(), vec![from(&[], banner("Glass", Some("/c/icon.png")))]);
    assert_eq!(n.notify_touch_needed(), vec![from(&[], banner("Glass", Some("/c/icon.png")))]);
}

#[test]
fn banner_cannot_be_withdrawn() {
    let mut n = NotificationCenterNotifier::new("Funk", None);
    assert_eq!(n.dismiss(), vec![]);
    n.notify_touch_needed();
    assert_eq!(n.dismiss(), vec![]);
}

#[test]
fn dialog_launches_an_alert_and_a_sound() {
    let mut n = DialogNotifier::new("Funk", None);
    assert_eq!(n.notify_touch_needed(), vec![from(&[], alert()), from(&[], play("Funk"))]);
}

#[test]
fn dialog_with_an_icon_shows_it() {
    let mut n = DialogNotifier::new("Glass", Some("/c/icon.png".to_string()));
    assert_eq!(
        n.notify_touch_needed(),
        vec![from(&[], dialog("/c/icon.png")), from(&[], play("Glass"))]
    );
}

#[test]
fn prompt_with_an_icon_gives_up_after_30_seconds() {
    for icon in ["/c/icon.png", "", "/Users/zoë/Library/Caches/yumetouch/icon.png"] {
        let mut n = DialogNotifier::new("Funk", Some(icon.to_string()));
        let plan = n.notify_touch_needed();
        match &plan[0].action {
            Action::Spawn(ChildKind::Dialog, command) => {
                assert_eq!(command.program, "osascript");
                assert_eq!(command.args.len(), 2);
                assert_eq!(command.args[0], "-e");
                assert!(command.args[1].ends_with(" giving up after 30"));
                assert!(command.args[1].contains("\"Touch your YubiKey\""));
                assert!(command.args[1].contains("with title \"YubiKey\""));
                assert!(command.args[1].contains("buttons {\"OK\"}"));
                assert!(command.args[1].contains(&format!("with icon POSIX file \"{}\"", icon)));
            }
            other => panic!("not a dialog launch: {:?}", other),
        }
    }
}

#[test]
fn timeout_is_30_seconds() {
    assert_eq!(PROMPT_TIMEOUT_SECONDS, 30);
    assert_eq!(PROMPT_TIMEOUT_TEXT.parse::<u64>(), Ok(PROMPT_TIMEOUT_SECONDS));
    assert_eq!(format!("{}{}", GIVING_UP, PROMPT_TIMEOUT_TEXT), " giving up after 30");
}

#[test]
fn alert_gives_up_after_30_seconds() {
    let mut n = DialogNotifier::new("Funk", None);
    let plan = n.notify_touch_needed();
    match &plan[0].action {
        Action::Spawn(ChildKind::Dialog, command) => {
            assert_eq!(command.program, "osascript");
            assert_eq!(command.args.len(), 2);
            assert_eq!(command.args[0], "-e");
            assert!(command.args[1].ends_with(" giving up after 30"));
            assert!(command.args[1].contains("buttons {\"OK\"}"));
        }
        other => panic!("not a dialog launch: {:?}", other),
    }
}

#[test]
fn second_notify_ends_the_first_pair_before_it_launches() {
    let mut n = DialogNotifier::new("Funk", None);
    n.notify_touch_needed();
    assert_eq!(
        n.notify_touch_needed(),
        vec![
            from(&[], Action::Terminate(ChildKind::Dialog)),
            from(&[], Action::Terminate(ChildKind::Sound)),
            from(&[], alert()),
            from(&[], play("Funk")),
        ]
    );
}

#[test]
fn repeated_notify_leaves_one_dialog_and_one_sound() {
    let mut n = DialogNotifier::new("Funk", None);
    let mut host = Host::new();
    for _ in 0..5 {
        let plan = n.notify_touch_needed();
        host.perform(&plan, &[]);
        assert_eq!(host.most_in_one_slot(), 1);
        assert_eq!(host.children(), 2);
    }
    host.perform(&n.dismiss(), &[]);
    assert_eq!(host.children(), 0);
}

#[test]
fn failed_launches_leave_no_slot_with_two_children() {
    let mut n = DialogNotifier::new("Funk", None);
    let mut host = Host::new();
    host.perform(&n.notify_touch_needed(), &[0]);
    assert_eq!(host.children(), 1);
    host.perform(&n.notify_touch_needed(), &[3]);
    assert_eq!(host.most_in_one_slot(), 1);
    assert_eq!(host.children(), 1);
    host.perform(&n.notify_touch_needed(), &[]);
    assert_eq!(host.most_in_one_slot(), 1);
    assert_eq!(host.children(), 2);
}

#[test]
fn dismiss_ends_prompt_and_sound() {
    let mut n = DialogNotifier::new("Funk", None);
    n.notify_touch_needed();
    assert_eq!(
        n.dismiss(),
        vec![
            from(&[], Action::Terminate(ChildKind::Dialog)),
            from(&[], Action::Terminate(ChildKind::Sound)),
        ]
    );
}

#[test]
fn dismiss_without_prompt_asks_nothing() {
    let mut n = DialogNotifier::new("Funk", None);
    assert_eq!(n.dismiss(), vec![]);
    assert_eq!(n.kill_children(), vec![]);
    assert_eq!(n.notify_touch_needed(), vec![from(&[], alert()), from(&[], play("Funk"))]);
}

#[test]
fn dismiss_twice_asks_nothing_the_second_time() {
    let mut n = DialogNotifier::new("Funk", None);
    n.notify_touch_needed();
    assert_eq!(n.dismiss().len(), 2);
    assert_eq!(n.dismiss(), vec![]);
    assert_eq!(n.dismiss(), vec![]);
}

#[test]
fn kill_children_is_what_dismiss_does() {
    let mut n = DialogNotifier::new("Funk", None);
    n.notify_touch_needed();
    assert_eq!(
        n.kill_children(),
        vec![
            from(&[], Action::Terminate(ChildKind::Dialog)),
            from(&[], Action::Terminate(ChildKind::Sound)),
        ]
    );
    assert_eq!(n.dismiss(), vec![]);
}

#[test]
fn composite_calls_its_members_in_order() {
    let mut n = CompositeNotifier::new(vec![
        AnyNotifier::Banner(NotificationCenterNotifier::new("Funk", None)),
        AnyNotifier::Dialog(DialogNotifier::new("Funk", None)),
    ]);
    assert_eq!(
        n.notify_touch_needed(),
        vec![from(&[0], banner("Funk", None)), from(&[1], alert()), from(&[1], play("Funk"))]
    );
    assert_eq!(
        n.dismiss(),
        vec![
            from(&[1], Action::Terminate(ChildKind::Dialog)),
            from(&[1], Action::Terminate(ChildKind::Sound)),
        ]
    );
    assert_eq!(n.dismiss(), vec![]);
}

#[test]
fn composite_without_members_asks_nothing() {
    let mut n = CompositeNotifier::new(vec![]);
    assert_eq!(n.notify_touch_needed(), vec![]);
    assert_eq!(n.dismiss(), vec![]);
}

#[test]
fn nested_composites_name_the_way_up() {
    let inner = CompositeNotifier::new(vec![
        AnyNotifier::Dialog(DialogNotifier::new("Ping", None)),
        AnyNotifier::Banner(NotificationCenterNotifier::new("Ping", None)),
    ]);
    let mut outer = CompositeNotifier::new(vec![
        AnyNotifier::Dialog(DialogNotifier::new("Funk", None)),
        AnyNotifier::Composite(inner),
    ]);
    assert_eq!(
        outer.notify_touch_needed(),
        vec![
            from(&[0], alert()),
            from(&[0], play("Funk")),
            from(&[0, 1], alert()),
            from(&[0, 1], play("Ping")),
            from(&[1, 1], banner("Ping", None)),
        ]
    );
    assert_eq!(
        outer.dismiss(),
        vec![
            from(&[0], Action::Terminate(ChildKind::Dialog)),
            from(&[0], Action::Terminate(ChildKind::Sound)),
            from(&[0, 1], Action::Terminate(ChildKind::Dialog)),
            from(&[0, 1], Action::Terminate(ChildKind::Sound)),
        ]
    );
}

#[test]
fn two_dialogs_in_one_composite_keep_their_own_children() {
    let mut n = CompositeNotifier::new(vec![
        AnyNotifier::Dialog(DialogNotifier::new("Funk", None)),
        AnyNotifier::Dialog(DialogNotifier::new("Ping", None)),
    ]);
    let mut host = Host::new();
    for _ in 0..3 {
        host.perform(&n.notify_touch_needed(), &[]);
        assert_eq!(host.most_in_one_slot(), 1);
        assert_eq!(host.children(), 4);
    }
    host.perform(&n.dismiss(), &[]);
    assert_eq!(host.children(), 0);
}

#[test]
fn failure_of_one_member_does_not_keep_the_call_from_the_others() {
    let mut n = CompositeNotifier::new(vec![
        AnyNotifier::Banner(NotificationCenterNotifier::new("Funk", None)),
        AnyNotifier::Dialog(DialogNotifier::new("Funk", None)),
        AnyNotifier::Banner(NotificationCenterNotifier::new("Glass", None)),
    ]);
    let plan = n.notify_touch_needed();
    let mut host = Host::new();
    host.perform(&plan, &[0]);
    assert_eq!(host.failed, 1);
    assert_eq!(host.children(), 2);
    assert_eq!(host.banners, 1);

    let plan = n.notify_touch_needed();
    assert_eq!(plan.len(), 6);
    let mut host = Host::new();
    host.perform(&plan, &[3, 4]);
    assert_eq!(host.failed, 2);
    assert_eq!(host.banners, 2);
    assert_eq!(plan[5], from(&[2], banner("Glass", None)));
}

#[test]
fn any_notifier_does_what_its_variant_does() {
    let mut n = AnyNotifier::Dialog(DialogNotifier::new("Funk", None));
    assert_eq!(n.notify_touch_needed(), vec![from(&[], alert()), from(&[], play("Funk"))]);
    assert_eq!(n.dismiss().len(), 2);
    let mut n = AnyNotifier::Banner(NotificationCenterNotifier::new("Funk", None));
    assert_eq!(n.notify_touch_needed(), vec![from(&[], banner("Funk", None))]);
    assert_eq!(n.dismiss(), vec![]);
}

#[test]
fn command_line_mode_wins_over_the_configured_one() {
    let mut config = yumetouch::config::Config::default();
    config.notification.mode = NotificationMode::Dialog;
    assert_eq!(effective_mode(None, &config), NotificationMode::Dialog);
    assert_eq!(effective_mode(Some(NotificationMode::Both), &config), NotificationMode::Both);
    assert_eq!(
        effective_mode(Some(NotificationMode::Notification), &config),
        NotificationMode::Notification
    );
}

#[test]
fn notification_mode_builds_a_banner() {
    let mut n = build_notifier(&NotificationMode::Notification, "Funk", Some("/i.png".to_string()));
    assert_eq!(n.notify_touch_needed(), vec![from(&[], banner("Funk", Some("/i.png")))]);
    assert_eq!(n.dismiss(), vec![]);
}

#[test]
fn dialog_mode_builds_a_dialog() {
    let mut n = build_notifier(&NotificationMode::Dialog, "Funk", Some("/i.png".to_string()));
    assert_eq!(n.dismiss(), vec![]);
    assert_eq!(
        n.notify_touch_needed(),
        vec![from(&[], dialog("/i.png")), from(&[], play("Funk"))]
    );
}

#[test]
fn both_builds_banner_then_dialog() {
    let mut n = build_notifier(&NotificationMode::Both, "Glass", None);
    assert_eq!(n.dismiss(), vec![]);
    assert_eq!(
        n.notify_touch_needed(),
        vec![from(&[0], banner("Glass", None)), from(&[1], alert()), from(&[1], play("Glass"))]
    );
}

#[test]
fn events_are_routed_to_notify_and_dismiss() {
    let mut n = build_notifier(&NotificationMode::Dialog, "Funk", None);
    assert_eq!(
        route(&mut n, DetectorEvent::TouchStarted),
        vec![from(&[], alert()), from(&[], play("Funk"))]
    );
    assert_eq!(
        route(&mut n, DetectorEvent::TouchCompleted),
        vec![
            from(&[], Action::Terminate(ChildKind::Dialog)),
            from(&[], Action::Terminate(ChildKind::Sound)),
        ]
    );
    assert_eq!(route(&mut n, DetectorEvent::TouchCompleted), vec![]);
}
