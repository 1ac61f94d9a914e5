use vstd::prelude::*;

verus! {

/// How a command's execution ended, as reported to the process.
#[derive(Clone, Copy, Debug, PartialEq, Eq, Structural)]
pub enum ExitCode {
    Success,
    UnknownError,
    InvalidArguments,
}

impl ExitCode {
    /// The numeric process exit status of this outcome.
    pub open spec fn spec_code(self) -> i32 {
        match self {
            ExitCode::Success => 0,
            ExitCode::UnknownError => 1,
            ExitCode::InvalidArguments => 2,
        }
    }

    pub fn code(self) -> (r: i32)
        ensures
            r == self.spec_code(),
    {
        match self {
            ExitCode::Success => 0,
            ExitCode::UnknownError => 1,
            ExitCode::InvalidArguments => 2,
        }
    }
}

/// The category of operation that a lifecycle event describes.
#[derive(Clone, Copy, Debug, PartialEq, Eq, Structural)]
pub enum ActivityKind {
    Activate,
    Config,
    Current,
    Deactivate,
    Fetch,
    Help,
    Install,
    Notion,
    Pin,
    Use,
    Version,
}

/// One lifecycle record: an activity started, or ended with an outcome.
#[derive(Clone, Copy, Debug, PartialEq, Eq, Structural)]
pub enum Event {
    Start(ActivityKind),
    End(ActivityKind, ExitCode),
}

/// The log of lifecycle events recorded during one invocation of the tool.
pub struct Session {
    events: Vec<Event>,
}

impl View for Session {
    type V = Seq<Event>;

    closed spec fn view(&self) -> Seq<Event> {
        self.events@
    }
}

impl Session {
    pub fn new() -> (r: Session)
        ensures
            r@ == Seq::<Event>::empty(),
    {
        Session { events: Vec::new() }
    }

    /// Records that an activity of the given kind has started.
    pub fn add_event_start(&mut self, kind: ActivityKind)
        ensures
            final(self)@ == old(self)@.push(Event::Start(kind)),
    {
        self.events.push(Event::Start(kind));
    }

    /// Records that an activity of the given kind has ended with `code`.
    pub fn add_event_end(&mut self, kind: ActivityKind, code: ExitCode)
        ensures
            final(self)@ == old(self)@.push(Event::End(kind, code)),
    {
        self.events.push(Event::End(kind, code));
    }

    /// The events recorded so far, oldest first.
    pub fn events(&self) -> (r: &Vec<Event>)
        ensures
            r@ == self@,
    {
        &self.events
    }
}

} // verus!
