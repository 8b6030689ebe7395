//! The requests that a notifier makes of its host.
//!
//! A notifier performs nothing itself. Each of its operations returns a plan:
//! the requests that the host carries out, in order. A request that fails is
//! logged by the host and the plan goes on.

use vstd::prelude::*;

verus! {

/// The two child processes that a dialog prompt consists of.
#[derive(Debug, Clone, Copy, PartialEq, Eq, Hash, Structural)]
pub enum ChildKind {
    /// The modal prompt in the foreground.
    Dialog,
    /// The audio cue that goes with it.
    Sound,
}

/// A program and its arguments.
#[derive(Debug, PartialEq, Eq)]
pub struct Command {
    pub program: String,
    pub args: Vec<String>,
}

pub struct CommandView {
    pub program: Seq<char>,
    pub args: Seq<Seq<char>>,
}

impl View for Command {
    type V = CommandView;

    open spec fn view(&self) -> CommandView {
        CommandView { program: self.program@, args: self.args.deep_view() }
    }
}

impl DeepView for Command {
    type V = CommandView;

    open spec fn deep_view(&self) -> CommandView {
        self@
    }
}

/// A one-shot notification of the operating system.
#[derive(Debug, PartialEq, Eq)]
pub struct Banner {
    pub title: String,
    pub message: String,
    pub sound: String,
    pub icon: Option<String>,
}

pub struct BannerView {
    pub title: Seq<char>,
    pub message: Seq<char>,
    pub sound: Seq<char>,
    pub icon: Option<Seq<char>>,
}

impl View for Banner {
    type V = BannerView;

    open spec fn view(&self) -> BannerView {
        BannerView {
            title: self.title@,
            message: self.message@,
            sound: self.sound@,
            icon: self.icon.deep_view(),
        }
    }
}

impl DeepView for Banner {
    type V = BannerView;

    open spec fn deep_view(&self) -> BannerView {
        self@
    }
}

/// What the host is asked to do.
#[derive(Debug, PartialEq, Eq)]
pub enum Action {
    /// Deliver the banner through the notification service.
    Notify(Banner),
    /// Kill the child that the issuing notifier holds in this slot and wait
    /// for it to exit, then clear the slot. Nothing happens if it is empty.
    Terminate(ChildKind),
    /// Launch the command and keep the child in this slot of the issuing
    /// notifier. The slot stays empty if the launch fails.
    Spawn(ChildKind, Command),
}

pub enum ActionView {
    Notify(BannerView),
    Terminate(ChildKind),
    Spawn(ChildKind, CommandView),
}

impl View for Action {
    type V = ActionView;

    open spec fn view(&self) -> ActionView {
        match self {
            Action::Notify(banner) => ActionView::Notify(banner@),
            Action::Terminate(kind) => ActionView::Terminate(*kind),
            Action::Spawn(kind, command) => ActionView::Spawn(*kind, command@),
        }
    }
}

impl DeepView for Action {
    type V = ActionView;

    open spec fn deep_view(&self) -> ActionView {
        self@
    }
}

/// An action together with the notifier that asks for it.
#[derive(Debug, PartialEq, Eq)]
pub struct Request {
    /// Where the issuing notifier stands: empty for the notifier that was
    /// called, else its position in each composite on the way up from it,
    /// innermost first.
    pub origin: Vec<usize>,
    pub action: Action,
}

pub struct RequestView {
    pub origin: Seq<int>,
    pub action: ActionView,
}

impl View for Request {
    type V = RequestView;

    open spec fn view(&self) -> RequestView {
        RequestView { origin: positions(self.origin@), action: self.action@ }
    }
}

impl DeepView for Request {
    type V = RequestView;

    open spec fn deep_view(&self) -> RequestView {
        self@
    }
}

/// `origin` as positions in the mathematical sense.
pub open spec fn positions(origin: Seq<usize>) -> Seq<int> {
    Seq::new(origin.len(), |i: int| origin[i] as int)
}

/// `request` as seen from a composite that holds its issuer at `position`.
pub open spec fn under(position: int, request: RequestView) -> RequestView {
    RequestView { origin: request.origin.push(position), action: request.action }
}

/// Every request of `plan` as seen from a composite that holds their issuer
/// at `position`.
pub open spec fn all_under(position: int, plan: Seq<RequestView>) -> Seq<RequestView> {
    Seq::new(plan.len(), |i: int| under(position, plan[i]))
}

} // verus!
