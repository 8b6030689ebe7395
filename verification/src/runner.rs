//! The wiring between configuration, detector and notifier.

use crate::config::{Config, NotificationMode};
use crate::detector::{law_run_completes_every_touch, run_events, DetectorEvent, Sample};
use crate::host::{idle, law_dismiss_leaves_idle};
use crate::notifier::{
    after, models, plan_of, AnyNotifier, Call, CompositeNotifier, DialogNotifier,
    NotificationCenterNotifier, Notifier, NotifierModel,
};
use crate::request::Request;
use vstd::prelude::*;

verus! {

/// The mode to run in: the one that was asked for on the command line, else
/// the configured one.
pub fn effective_mode(requested: Option<NotificationMode>, config: &Config) -> (mode:
    NotificationMode)
    ensures
        mode == match requested {
            Some(given) => given,
            None => config.notification.mode,
        },
{
    match requested {
        Some(given) => given,
        None => config.notification.mode,
    }
}

/// The notifier that `mode` stands for: a banner, a dialog, or a composite of
/// the two, banner first.
pub open spec fn notifier_for(
    mode: NotificationMode,
    sound: Seq<char>,
    icon: Option<Seq<char>>,
) -> NotifierModel {
    let banner = NotifierModel::Banner { sound, icon };
    let dialog = NotifierModel::Dialog { sound, icon, dialog_child: false, sound_child: false };
    match mode {
        NotificationMode::Notification => banner,
        NotificationMode::Dialog => dialog,
        NotificationMode::Both => NotifierModel::Composite { members: seq![banner, dialog] },
    }
}

/// The one notifier of the daemon, with no prompt active.
pub fn build_notifier(mode: &NotificationMode, sound: &str, icon_path: Option<String>) -> (notifier:
    AnyNotifier)
    ensures
        notifier.model() == notifier_for(*mode, sound@, icon_path.deep_view()),
{
    match mode {
        NotificationMode::Notification => AnyNotifier::Banner(
            NotificationCenterNotifier::new(sound, icon_path),
        ),
        NotificationMode::Dialog => AnyNotifier::Dialog(DialogNotifier::new(sound, icon_path)),
        NotificationMode::Both => {
            let mut notifiers: Vec<AnyNotifier> = Vec::new();
            notifiers.push(
                AnyNotifier::Banner(NotificationCenterNotifier::new(sound, icon_path.clone())),
            );
            notifiers.push(AnyNotifier::Dialog(DialogNotifier::new(sound, icon_path)));
            assert(models(notifiers@) =~= notifier_for(
                *mode,
                sound@,
                icon_path.deep_view(),
            )->members);
            AnyNotifier::Composite(CompositeNotifier::new(notifiers))
        },
    }
}

/// The call that answers `event`.
pub open spec fn call_for(event: DetectorEvent) -> Call {
    match event {
        DetectorEvent::TouchStarted => Call::Notify,
        DetectorEvent::TouchCompleted => Call::Dismiss,
    }
}

/// Hands `event` to `notifier`: a touch that started raises the prompt, one
/// that completed withdraws it.
pub fn route(notifier: &mut AnyNotifier, event: DetectorEvent) -> (plan: Vec<Request>)
    ensures
        plan.deep_view() == plan_of(call_for(event), old(notifier).model()),
        final(notifier).model() == after(call_for(event), old(notifier).model()),
{
    match event {
        DetectorEvent::TouchStarted => notifier.notify_touch_needed(),
        DetectorEvent::TouchCompleted => notifier.dismiss(),
    }
}

/// The notifier after `events` were handed to it, one after the other.
pub open spec fn after_events(model: NotifierModel, events: Seq<DetectorEvent>) -> NotifierModel
    decreases events.len(),
{
    if events.len() == 0 {
        model
    } else {
        after(call_for(events.last()), after_events(model, events.drop_last()))
    }
}

/// No prompt outlives the run: a notifier with no prompt active that is
/// handed the events of a whole run, in order, has no prompt active at the
/// end, whatever the signal did and whenever shutdown came.
pub proof fn law_no_prompt_outlives_the_run(
    grace: u64,
    samples: Seq<Sample>,
    model: NotifierModel,
)
    requires
        idle(model),
    ensures
        idle(after_events(model, run_events(grace, samples))),
{
    let events = run_events(grace, samples);
    law_run_completes_every_touch(grace, samples);
    if events.len() > 0 {
        assert(events.last() == events[events.len() - 1]);
        assert(events.last() == DetectorEvent::TouchCompleted);
        law_dismiss_leaves_idle(after_events(model, events.drop_last()));
    }
}

} // verus!
