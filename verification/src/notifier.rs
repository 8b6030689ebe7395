//! The notifier capability and its three variants.

use crate::request::{
    all_under, positions, under, Action, ActionView, Banner, BannerView, ChildKind, Command,
    CommandView, Request, RequestView,
};
use vstd::prelude::*;
use vstd::string::*;

verus! {

/// Title of every prompt.
pub const PROMPT_TITLE: &'static str = "YubiKey";

/// Text of every prompt.
pub const PROMPT_MESSAGE: &'static str = "Touch your YubiKey";

/// The program that shows the modal prompt.
pub const DIALOG_PROGRAM: &'static str = "osascript";

/// The program that plays the audio cue.
pub const SOUND_PROGRAM: &'static str = "afplay";

/// Where the system keeps its sounds.
pub const SOUND_DIRECTORY: &'static str = "/System/Library/Sounds/";

/// File extension of a system sound.
pub const SOUND_EXTENSION: &'static str = ".aiff";

/// Seconds after which a prompt that nobody answers goes away by itself.
pub const PROMPT_TIMEOUT_SECONDS: u64 = 30;

/// The same number of seconds, as the scripts write it.
pub const PROMPT_TIMEOUT_TEXT: &'static str = "30";

/// The clause that bounds a prompt, up to the number of seconds.
pub const GIVING_UP: &'static str = " giving up after ";

/// The prompt without an icon, up to its title.
pub const ALERT_OPENING: &'static str = "display alert \"";

/// The prompt without an icon, between its title and its message.
pub const ALERT_MESSAGE: &'static str = "\" message \"";

/// The prompt with an icon, up to its message.
pub const DIALOG_OPENING: &'static str = "display dialog \"";

/// The prompt with an icon, between its message and its title.
pub const DIALOG_TITLE: &'static str = "\" with title \"";

/// The one button of a prompt, after the text before it is closed.
pub const OK_BUTTON: &'static str = "\" buttons {\"OK\"}";

/// The prompt with an icon, between its button and the path of the icon.
pub const DIALOG_ICON: &'static str = " default button \"OK\" with icon POSIX file \"";

/// The end of a quoted text.
pub const CLOSING_QUOTE: &'static str = "\"";

/// What a notifier is, as far as its plans depend on it.
pub enum NotifierModel {
    /// Raises a banner that nothing can withdraw.
    Banner { sound: Seq<char>, icon: Option<Seq<char>> },
    /// Raises a modal prompt with an audio cue, and tracks for each of the two
    /// whether a child that it asked for may still be running.
    Dialog { sound: Seq<char>, icon: Option<Seq<char>>, dialog_child: bool, sound_child: bool },
    /// Hands every call on to its members, in order.
    Composite { members: Seq<NotifierModel> },
}

/// A request of the notifier that was called itself.
pub open spec fn own(action: ActionView) -> RequestView {
    RequestView { origin: Seq::empty(), action }
}

/// The banner that asks for a touch.
pub open spec fn touch_banner(sound: Seq<char>, icon: Option<Seq<char>>) -> BannerView {
    BannerView { title: PROMPT_TITLE@, message: PROMPT_MESSAGE@, sound, icon }
}

/// The clause that makes a prompt go away by itself after the timeout.
pub open spec fn timeout_clause() -> Seq<char> {
    GIVING_UP@ + PROMPT_TIMEOUT_TEXT@
}

/// The script of the prompt without an icon: an alert.
pub open spec fn alert_script() -> Seq<char> {
    ALERT_OPENING@ + PROMPT_TITLE@ + ALERT_MESSAGE@ + PROMPT_MESSAGE@ + OK_BUTTON@
        + timeout_clause()
}

/// The script of the prompt that shows the icon at `icon`: a dialog.
pub open spec fn icon_script(icon: Seq<char>) -> Seq<char> {
    DIALOG_OPENING@ + PROMPT_MESSAGE@ + DIALOG_TITLE@ + PROMPT_TITLE@ + OK_BUTTON@ + DIALOG_ICON@
        + icon + CLOSING_QUOTE@ + timeout_clause()
}

/// The script of the modal prompt: with title, message and an OK button, and
/// bounded by the timeout, with the icon or without.
pub open spec fn prompt_script(icon: Option<Seq<char>>) -> Seq<char> {
    match icon {
        Some(path) => icon_script(path),
        None => alert_script(),
    }
}

/// The command that shows the modal prompt.
pub open spec fn dialog_command(icon: Option<Seq<char>>) -> CommandView {
    CommandView { program: DIALOG_PROGRAM@, args: seq!["-e"@, prompt_script(icon)] }
}

/// The number that a decimal digit stands for.
pub open spec fn digit(c: char) -> nat {
    if c == '1' {
        1
    } else if c == '2' {
        2
    } else if c == '3' {
        3
    } else if c == '4' {
        4
    } else if c == '5' {
        5
    } else if c == '6' {
        6
    } else if c == '7' {
        7
    } else if c == '8' {
        8
    } else if c == '9' {
        9
    } else {
        0
    }
}

/// The number that `text` writes in decimal digits.
pub open spec fn decimal(text: Seq<char>) -> nat
    decreases text.len(),
{
    if text.len() == 0 {
        0
    } else {
        decimal(text.drop_last()) * 10 + digit(text.last())
    }
}

/// The timeout that the scripts write is the timeout: 30 seconds.
pub proof fn law_timeout_is_30_seconds()
    ensures
        PROMPT_TIMEOUT_SECONDS == 30,
        decimal(PROMPT_TIMEOUT_TEXT@) == PROMPT_TIMEOUT_SECONDS,
        timeout_clause() == " giving up after 30"@,
{
    reveal_strlit("30");
    reveal_strlit(" giving up after ");
    reveal_strlit(" giving up after 30");
    reveal_with_fuel(decimal, 3);
    let text = PROMPT_TIMEOUT_TEXT@;
    assert(text.drop_last() =~= seq!['3']);
    assert(text.drop_last().drop_last() =~= Seq::empty());
    assert(timeout_clause() =~= " giving up after 30"@);
}

/// Every prompt is bounded: whatever the icon, the command runs one script,
/// and that script ends in the clause that makes the prompt go away by itself
/// after the timeout.
pub proof fn law_every_prompt_gives_up(icon: Option<Seq<char>>)
    ensures
        dialog_command(icon).program == DIALOG_PROGRAM@,
        dialog_command(icon).args == seq!["-e"@, prompt_script(icon)],
        timeout_clause().is_suffix_of(prompt_script(icon)),
        timeout_clause().is_suffix_of(dialog_command(icon).args.last()),
{
    let script = prompt_script(icon);
    let clause = timeout_clause();
    assert(script.subrange(script.len() - clause.len(), script.len() as int) =~= clause);
}

/// The file of the system sound called `sound`.
pub open spec fn sound_file(sound: Seq<char>) -> Seq<char> {
    SOUND_DIRECTORY@ + sound + SOUND_EXTENSION@
}

/// The command that plays the audio cue.
pub open spec fn sound_command(sound: Seq<char>) -> CommandView {
    CommandView { program: SOUND_PROGRAM@, args: seq![sound_file(sound)] }
}

/// The requests that end the children of a dialog notifier: the prompt first,
/// then the sound, each only if it is tracked.
pub open spec fn terminations(dialog_child: bool, sound_child: bool) -> Seq<RequestView> {
    (if dialog_child {
        seq![own(ActionView::Terminate(ChildKind::Dialog))]
    } else {
        Seq::empty()
    }) + (if sound_child {
        seq![own(ActionView::Terminate(ChildKind::Sound))]
    } else {
        Seq::empty()
    })
}

/// The requests that launch the prompt of a dialog notifier and its sound.
pub open spec fn launches(sound: Seq<char>, icon: Option<Seq<char>>) -> Seq<RequestView> {
    seq![
        own(ActionView::Spawn(ChildKind::Dialog, dialog_command(icon))),
        own(ActionView::Spawn(ChildKind::Sound, sound_command(sound))),
    ]
}

/// The two operations of a notifier.
#[derive(Debug, Clone, Copy, PartialEq, Eq, Structural)]
pub enum Call {
    /// `notify_touch_needed`
    Notify,
    /// `dismiss`
    Dismiss,
}

/// The plans of the members of a composite, one after the other, each seen
/// from the composite.
pub open spec fn fan_out(plans: Seq<Seq<RequestView>>) -> Seq<RequestView>
    decreases plans.len(),
{
    if plans.len() == 0 {
        Seq::empty()
    } else {
        fan_out(plans.drop_last()) + all_under(plans.len() - 1, plans.last())
    }
}

/// What `call` asks of the host when it is made on `model`.
pub open spec fn plan_of(call: Call, model: NotifierModel) -> Seq<RequestView>
    decreases model,
{
    match model {
        NotifierModel::Banner { sound, icon } => match call {
            Call::Notify => seq![own(ActionView::Notify(touch_banner(sound, icon)))],
            Call::Dismiss => Seq::empty(),
        },
        NotifierModel::Dialog { sound, icon, dialog_child, sound_child } => terminations(
            dialog_child,
            sound_child,
        ) + (match call {
            Call::Notify => launches(sound, icon),
            Call::Dismiss => Seq::empty(),
        }),
        NotifierModel::Composite { members } => fan_out(plans_of(call, members)),
    }
}

/// What `call` asks of the host for each of `members`.
pub open spec fn plans_of(call: Call, members: Seq<NotifierModel>) -> Seq<Seq<RequestView>>
    decreases members,
{
    Seq::new(
        members.len(),
        |i: int|
            if 0 <= i < members.len() {
                plan_of(call, members[i])
            } else {
                Seq::empty()
            },
    )
}

/// The notifier after `call` was made on `model`.
pub open spec fn after(call: Call, model: NotifierModel) -> NotifierModel
    decreases model,
{
    match model {
        NotifierModel::Banner { .. } => model,
        NotifierModel::Dialog { sound, icon, .. } => NotifierModel::Dialog {
            sound,
            icon,
            dialog_child: call is Notify,
            sound_child: call is Notify,
        },
        NotifierModel::Composite { members } => NotifierModel::Composite {
            members: after_all(call, members),
        },
    }
}

/// Each of `members` after `call` was made on it.
pub open spec fn after_all(call: Call, members: Seq<NotifierModel>) -> Seq<NotifierModel>
    decreases members,
{
    Seq::new(
        members.len(),
        |i: int|
            if 0 <= i < members.len() {
                after(call, members[i])
            } else {
                NotifierModel::Composite { members: Seq::empty() }
            },
    )
}

/// What `notify_touch_needed` asks of the host.
pub open spec fn notify_plan(model: NotifierModel) -> Seq<RequestView> {
    plan_of(Call::Notify, model)
}

/// The notifier after `notify_touch_needed`.
pub open spec fn after_notify(model: NotifierModel) -> NotifierModel {
    after(Call::Notify, model)
}

/// What `dismiss` asks of the host.
pub open spec fn dismiss_plan(model: NotifierModel) -> Seq<RequestView> {
    plan_of(Call::Dismiss, model)
}

/// The notifier after `dismiss`.
pub open spec fn after_dismiss(model: NotifierModel) -> NotifierModel {
    after(Call::Dismiss, model)
}

/// What `plans_of` and `after_all` hold, member by member.
pub proof fn lemma_members(call: Call, members: Seq<NotifierModel>)
    ensures
        plans_of(call, members).len() == members.len(),
        after_all(call, members).len() == members.len(),
        forall|i: int|
            0 <= i < members.len() ==> #[trigger] plans_of(call, members)[i] == plan_of(
                call,
                members[i],
            ),
        forall|i: int|
            0 <= i < members.len() ==> #[trigger] after_all(call, members)[i] == after(
                call,
                members[i],
            ),
{
    reveal_with_fuel(plans_of, 2);
    reveal_with_fuel(after_all, 2);
}

/// The plans of the first members of a composite stay as they are when
/// further members follow.
proof fn lemma_fan_out_prefix(plans: Seq<Seq<RequestView>>, shorter: int, longer: int)
    requires
        0 <= shorter <= longer <= plans.len(),
    ensures
        fan_out(plans.take(shorter)).len() <= fan_out(plans.take(longer)).len(),
        fan_out(plans.take(longer)).subrange(0, fan_out(plans.take(shorter)).len() as int)
            == fan_out(plans.take(shorter)),
    decreases longer - shorter,
{
    if shorter == longer {
        let whole = fan_out(plans.take(shorter));
        assert(whole.subrange(0, whole.len() as int) =~= whole);
    } else {
        lemma_fan_out_prefix(plans, shorter, longer - 1);
        assert(plans.take(longer).drop_last() =~= plans.take(longer - 1));
        let first = fan_out(plans.take(shorter));
        let before = fan_out(plans.take(longer - 1));
        let now = fan_out(plans.take(longer));
        assert(now.subrange(0, first.len() as int) =~= before.subrange(0, first.len() as int));
    }
}

/// Where the plan of the member at `position` begins in the plan of the
/// composite of `members`.
pub open spec fn offset_of(call: Call, members: Seq<NotifierModel>, position: int) -> int {
    fan_out(plans_of(call, members).take(position)).len() as int
}

/// A composite hands each call on to every member: the plan of the composite
/// holds the whole plan of each member, as seen from the composite, after the
/// plans of the members before it. What becomes of the requests of one member
/// has no part in what is asked for the others.
pub proof fn law_composite_reaches_every_member(
    call: Call,
    members: Seq<NotifierModel>,
    position: int,
)
    requires
        0 <= position < members.len(),
    ensures
        0 <= offset_of(call, members, position),
        offset_of(call, members, position) + plan_of(call, members[position]).len() <= plan_of(
            call,
            (NotifierModel::Composite { members }),
        ).len(),
        plan_of(call, (NotifierModel::Composite { members })).subrange(
            offset_of(call, members, position),
            offset_of(call, members, position) + plan_of(call, members[position]).len(),
        ) == all_under(position, plan_of(call, members[position])),
{
    lemma_members(call, members);
    let plans = plans_of(call, members);
    let before = fan_out(plans.take(position));
    let with_member = fan_out(plans.take(position + 1));
    let part = plan_of(call, members[position]);
    assert(plans.take(position + 1).drop_last() =~= plans.take(position));
    assert(with_member == before + all_under(position, part));
    lemma_fan_out_prefix(plans, position + 1, plans.len() as int);
    assert(plans.take(plans.len() as int) =~= plans);
    let whole = fan_out(plans);
    let from = before.len() as int;
    let to = from + part.len();
    assert(whole.subrange(from, to) =~= with_member.subrange(from, to));
    assert(with_member.subrange(from, to) =~= all_under(position, part));
}

/// Whatever a dialog notifier has to end first, `notify_touch_needed` then
/// launches the bounded prompt, and after it the sound.
pub proof fn law_dialog_launches_a_bounded_prompt(model: NotifierModel)
    requires
        (model is Dialog),
    ensures
        notify_plan(model).len() >= 2,
        notify_plan(model)[notify_plan(model).len() - 2] == own(
            ActionView::Spawn(ChildKind::Dialog, dialog_command(model->Dialog_icon)),
        ),
        notify_plan(model).last() == own(
            ActionView::Spawn(ChildKind::Sound, sound_command(model->Dialog_sound)),
        ),
        timeout_clause().is_suffix_of(dialog_command(model->Dialog_icon).args.last()),
{
    law_every_prompt_gives_up(model->Dialog_icon);
}

/// A dialog notifier that is called again before it was dismissed first ends
/// the prompt and the sound of the earlier call, and only then launches the
/// new pair.
pub proof fn law_second_notify_ends_the_first_pair(model: NotifierModel)
    requires
        (model is Dialog),
    ensures
        notify_plan(after_notify(model)) == seq![
            own(ActionView::Terminate(ChildKind::Dialog)),
            own(ActionView::Terminate(ChildKind::Sound)),
            own(ActionView::Spawn(ChildKind::Dialog, dialog_command(model->Dialog_icon))),
            own(ActionView::Spawn(ChildKind::Sound, sound_command(model->Dialog_sound))),
        ],
{
    assert(notify_plan(after_notify(model)) =~= seq![
        own(ActionView::Terminate(ChildKind::Dialog)),
        own(ActionView::Terminate(ChildKind::Sound)),
        own(ActionView::Spawn(ChildKind::Dialog, dialog_command(model->Dialog_icon))),
        own(ActionView::Spawn(ChildKind::Sound, sound_command(model->Dialog_sound))),
    ]);
}

/// The capability of asking for the user's attention and letting go of it.
/// Neither operation fails: what goes wrong happens in the host, which logs
/// it and carries on.
pub trait Notifier {
    /// What the notifier is, as far as its plans depend on it.
    spec fn model(&self) -> NotifierModel;

    /// Asks for the user's attention.
    fn notify_touch_needed(&mut self) -> (plan: Vec<Request>)
        ensures
            plan.deep_view() == notify_plan(old(self).model()),
            final(self).model() == after_notify(old(self).model()),
    ;

    /// Withdraws the prompt that an earlier call raised, if there is one.
    fn dismiss(&mut self) -> (plan: Vec<Request>)
        ensures
            plan.deep_view() == dismiss_plan(old(self).model()),
            final(self).model() == after_dismiss(old(self).model()),
    ;
}

/// A request of the notifier that is called.
fn own_request(action: Action) -> (request: Request)
    ensures
        request@ == own(action@),
{
    let request = Request { origin: Vec::new(), action };
    assert(positions(request.origin@) =~= Seq::empty());
    request
}

/// Builds a command from its program and arguments.
fn command(program: &str, args: Vec<String>) -> (command: Command)
    ensures
        command@ == (CommandView { program: program@, args: args.deep_view() }),
{
    Command { program: String::from_str(program), args }
}

/// Raises a banner through the notification service.
pub struct NotificationCenterNotifier {
    sound: String,
    icon_path: Option<String>,
}

impl NotificationCenterNotifier {
    pub fn new(sound: &str, icon_path: Option<String>) -> (notifier: NotificationCenterNotifier)
        ensures
            notifier.model() == (NotifierModel::Banner {
                sound: sound@,
                icon: icon_path.deep_view(),
            }),
    {
        NotificationCenterNotifier { sound: String::from_str(sound), icon_path }
    }
}

impl Notifier for NotificationCenterNotifier {
    closed spec fn model(&self) -> NotifierModel {
        NotifierModel::Banner { sound: self.sound@, icon: self.icon_path.deep_view() }
    }

    fn notify_touch_needed(&mut self) -> (plan: Vec<Request>) {
        let banner = Banner {
            title: String::from_str(PROMPT_TITLE),
            message: String::from_str(PROMPT_MESSAGE),
            sound: self.sound.clone(),
            icon: self.icon_path.clone(),
        };
        let mut plan: Vec<Request> = Vec::new();
        plan.push(own_request(Action::Notify(banner)));
        assert(plan.deep_view() =~= notify_plan(self.model()));
        plan
    }

    /// A banner cannot be withdrawn: nothing is asked of the host.
    fn dismiss(&mut self) -> (plan: Vec<Request>) {
        let plan: Vec<Request> = Vec::new();
        assert(plan.deep_view() =~= dismiss_plan(self.model()));
        plan
    }
}

/// Shows a modal prompt in the foreground and plays an audio cue, each in a
/// child process of the host, and keeps track of both.
pub struct DialogNotifier {
    sound: String,
    icon_path: Option<String>,
    dialog_child: bool,
    sound_child: bool,
}

impl DialogNotifier {
    pub fn new(sound: &str, icon_path: Option<String>) -> (notifier: DialogNotifier)
        ensures
            notifier.model() == (NotifierModel::Dialog {
                sound: sound@,
                icon: icon_path.deep_view(),
                dialog_child: false,
                sound_child: false,
            }),
    {
        DialogNotifier {
            sound: String::from_str(sound),
            icon_path,
            dialog_child: false,
            sound_child: false,
        }
    }

    /// Ends the children that are tracked, the prompt first, and tracks
    /// neither any longer.
    pub fn kill_children(&mut self) -> (plan: Vec<Request>)
        ensures
            plan.deep_view() == dismiss_plan(old(self).model()),
            final(self).model() == after_dismiss(old(self).model()),
    {
        let mut plan: Vec<Request> = Vec::new();
        if self.dialog_child {
            plan.push(own_request(Action::Terminate(ChildKind::Dialog)));
        }
        self.dialog_child = false;
        if self.sound_child {
            plan.push(own_request(Action::Terminate(ChildKind::Sound)));
        }
        self.sound_child = false;
        assert(plan.deep_view() =~= dismiss_plan(old(self).model()));
        plan
    }

    /// The command that shows the prompt: a dialog with the icon where there
    /// is one, else a plain alert, each of which gives up after the timeout.
    fn dialog_command(&self) -> (command: Command)
        ensures
            command@ == dialog_command(self.icon_path.deep_view()),
    {
        let mut script = match &self.icon_path {
            Some(path) => {
                let mut script = String::from_str(DIALOG_OPENING);
                script.append(PROMPT_MESSAGE);
                script.append(DIALOG_TITLE);
                script.append(PROMPT_TITLE);
                script.append(OK_BUTTON);
                script.append(DIALOG_ICON);
                script.append(path.as_str());
                script.append(CLOSING_QUOTE);
                script
            },
            None => {
                let mut script = String::from_str(ALERT_OPENING);
                script.append(PROMPT_TITLE);
                script.append(ALERT_MESSAGE);
                script.append(PROMPT_MESSAGE);
                script.append(OK_BUTTON);
                script
            },
        };
        script.append(GIVING_UP);
        script.append(PROMPT_TIMEOUT_TEXT);
        assert(script@ =~= prompt_script(self.icon_path.deep_view()));
        let mut args: Vec<String> = Vec::new();
        args.push(String::from_str("-e"));
        args.push(script);
        let command = command(DIALOG_PROGRAM, args);
        assert(command@.args =~= dialog_command(self.icon_path.deep_view()).args);
        command
    }

    /// The command that plays the configured sound.
    fn sound_command(&self) -> (command: Command)
        ensures
            command@ == sound_command(self.sound@),
    {
        let mut file = String::from_str(SOUND_DIRECTORY);
        file.append(self.sound.as_str());
        file.append(SOUND_EXTENSION);
        let mut args: Vec<String> = Vec::new();
        args.push(file);
        let command = command(SOUND_PROGRAM, args);
        assert(command@.args =~= sound_command(self.sound@).args);
        command
    }
}

impl Notifier for DialogNotifier {
    closed spec fn model(&self) -> NotifierModel {
        NotifierModel::Dialog {
            sound: self.sound@,
            icon: self.icon_path.deep_view(),
            dialog_child: self.dialog_child,
            sound_child: self.sound_child,
        }
    }

    /// Ends what an earlier call left running, then launches the prompt and
    /// the sound.
    fn notify_touch_needed(&mut self) -> (plan: Vec<Request>) {
        let mut plan = self.kill_children();
        plan.push(own_request(Action::Spawn(ChildKind::Dialog, self.dialog_command())));
        self.dialog_child = true;
        plan.push(own_request(Action::Spawn(ChildKind::Sound, self.sound_command())));
        self.sound_child = true;
        assert(plan.deep_view() =~= notify_plan(old(self).model()));
        plan
    }

    fn dismiss(&mut self) -> (plan: Vec<Request>) {
        self.kill_children()
    }
}

/// The models of `notifiers`, in order.
pub open spec fn models(notifiers: Seq<AnyNotifier>) -> Seq<NotifierModel> {
    Seq::new(notifiers.len(), |i: int| notifiers[i].model())
}

/// Appends `part`, the plan of the member at `position`, to the plan of a
/// composite.
fn hand_on(plan: &mut Vec<Request>, position: usize, part: Vec<Request>)
    ensures
        final(plan).deep_view() == old(plan).deep_view() + all_under(
            position as int,
            part.deep_view(),
        ),
{
    let mut part = part;
    let ghost given = part.deep_view();
    let n = part.len();
    let mut j: usize = 0;
    while j < n
        invariant
            j <= n,
            n == part.len(),
            n == given.len(),
            forall|k: int| 0 <= k < j ==> part[k]@ == under(position as int, given[k]),
            forall|k: int| j <= k < n ==> part[k]@ == given[k],
        decreases n - j,
    {
        let ghost origin = part[j as int].origin@;
        part[j].origin.push(position);
        assert(positions(origin.push(position)) =~= positions(origin).push(position as int));
        j = j + 1;
    }
    assert(part.deep_view() =~= all_under(position as int, given));
    let ghost before = plan.deep_view();
    plan.append(&mut part);
    assert(plan.deep_view() =~= before + all_under(position as int, given));
}

/// Any of the three notifiers.
pub enum AnyNotifier {
    Banner(NotificationCenterNotifier),
    Dialog(DialogNotifier),
    Composite(CompositeNotifier),
}

/// Hands every call on to each of its members, in order. No member is left
/// out because a request of another went wrong.
pub struct CompositeNotifier {
    notifiers: Vec<AnyNotifier>,
}

impl CompositeNotifier {
    /// A composite is modelled by the models of its members.
    proof fn lemma_model(&self)
        ensures
            self.model() == (NotifierModel::Composite { members: models(self.notifiers@) }),
    {
        reveal_with_fuel(<CompositeNotifier as Notifier>::model, 2);
        assert(self.model()->members =~= models(self.notifiers@));
    }

    pub fn new(notifiers: Vec<AnyNotifier>) -> (notifier: CompositeNotifier)
        ensures
            notifier.model() == (NotifierModel::Composite { members: models(notifiers@) }),
    {
        let notifier = CompositeNotifier { notifiers };
        proof {
            notifier.lemma_model();
        }
        notifier
    }

    /// Makes `call` on each member, in order, and puts their plans together.
    fn hand_to_members(&mut self, call: Call) -> (plan: Vec<Request>)
        ensures
            plan.deep_view() == plan_of(call, old(self).model()),
            final(self).model() == after(call, old(self).model()),
        decreases *old(self), 0int,
    {
        let mut plan: Vec<Request> = Vec::new();
        let n = self.notifiers.len();
        let mut i: usize = 0;
        let ghost before = self.notifiers@;
        let ghost members = models(before);
        let ghost plans = plans_of(call, members);
        proof {
            self.lemma_model();
            lemma_members(call, members);
            assert(plans.take(0) =~= Seq::empty());
        }
        while i < n
            invariant
                i <= n,
                n == self.notifiers.len(),
                n == before.len(),
                before == old(self).notifiers@,
                members == models(before),
                plans.len() == n,
                forall|k: int| 0 <= k < n ==> plans[k] == plan_of(call, #[trigger] members[k]),
                forall|k: int|
                    0 <= k < i ==> self.notifiers[k].model() == after(call, #[trigger] members[k]),
                forall|k: int| i <= k < n ==> self.notifiers[k] == before[k],
                plan.deep_view() == fan_out(plans.take(i as int)),
            decreases n - i,
        {
            assert(decreases_to!(*old(self) => before[i as int]));
            assert(members[i as int] == before[i as int].model());
            let part = match call {
                Call::Notify => self.notifiers[i].notify_touch_needed(),
                Call::Dismiss => self.notifiers[i].dismiss(),
            };
            hand_on(&mut plan, i, part);
            proof {
                let upto = plans.take(i + 1);
                assert(upto.drop_last() =~= plans.take(i as int));
                assert(upto.last() == plans[i as int]);
                assert(fan_out(upto) == fan_out(upto.drop_last()) + all_under(
                    upto.len() - 1,
                    upto.last(),
                ));
            }
            i = i + 1;
        }
        proof {
            assert(plans.take(n as int) =~= plans);
            self.lemma_model();
            assert(models(self.notifiers@) =~= after_all(call, members));
        }
        plan
    }
}

impl Notifier for AnyNotifier {
    open spec fn model(&self) -> NotifierModel
        decreases self,
    {
        match self {
            AnyNotifier::Banner(notifier) => notifier.model(),
            AnyNotifier::Dialog(notifier) => notifier.model(),
            AnyNotifier::Composite(notifier) => notifier.model(),
        }
    }

    fn notify_touch_needed(&mut self) -> (plan: Vec<Request>)
        decreases *old(self), 1int,
    {
        match self {
            AnyNotifier::Banner(notifier) => notifier.notify_touch_needed(),
            AnyNotifier::Dialog(notifier) => notifier.notify_touch_needed(),
            AnyNotifier::Composite(notifier) => notifier.notify_touch_needed(),
        }
    }

    fn dismiss(&mut self) -> (plan: Vec<Request>)
        decreases *old(self), 1int,
    {
        match self {
            AnyNotifier::Banner(notifier) => notifier.dismiss(),
            AnyNotifier::Dialog(notifier) => notifier.dismiss(),
            AnyNotifier::Composite(notifier) => notifier.dismiss(),
        }
    }
}

impl Notifier for CompositeNotifier {
    closed spec fn model(&self) -> NotifierModel
        decreases self,
    {
        NotifierModel::Composite {
            members: Seq::new(
                self.notifiers@.len(),
                |i: int|
                    if 0 <= i < self.notifiers@.len() {
                        self.notifiers@[i].model()
                    } else {
                        NotifierModel::Composite { members: Seq::empty() }
                    },
            ),
        }
    }

    fn notify_touch_needed(&mut self) -> (plan: Vec<Request>)
        decreases *old(self), 1int,
    {
        self.hand_to_members(Call::Notify)
    }

    fn dismiss(&mut self) -> (plan: Vec<Request>)
        decreases *old(self), 1int,
    {
        self.hand_to_members(Call::Dismiss)
    }
}

} // verus!
