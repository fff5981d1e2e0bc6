//! The lifecycle of an interface as a state machine that performs no I/O.
//!
//! An operation is a `Session`. Each step names the one thing to do next: send
//! a request to the kernel, read what it answers, or run a program. The caller
//! does it and reports what happened as an `Event`; the session decides what
//! follows, until the operation is done or has failed.
use vstd::prelude::*;
use vstd::utf8::encode_utf8;
use crate::address::Cidr;
use crate::channel::{Channel, ChannelState, Reply};
use crate::command::{addconf, link_del, route_add, Command, CommandModel};
use crate::error::{ErrorModel, WgError, EACCES, EEXIST, ENODEV, EPERM};
use crate::link::{
    add_address, add_address_request, create_link, create_link_request, find_link,
    find_link_request, set_up, set_up_request, MAX_NAME_LEN,
};

verus! {

/// How far an interface has come, as far as an operation knows. An operation
/// does not ask the kernel where the interface stands: it starts from the
/// state that it needs the interface to be in, and counts on from there with
/// each step that succeeds.
#[derive(Debug, Clone, Copy, PartialEq, Eq)]
pub enum LinkState {
    /// The kernel has no link of that name.
    Absent,
    /// The link exists.
    Created,
    /// The link has its address.
    Addressed,
    /// The link is up.
    Up,
    /// The link is up and the tunnel has its key and port.
    ConfiguredUp,
}

/// The operation that a session carries out.
#[derive(Debug, Clone, Copy, PartialEq, Eq)]
pub enum Goal {
    /// Create the link.
    AddLink,
    /// Give the link an address.
    AddAddress,
    /// Raise the link.
    LinkUp,
    /// Create, address, raise, route and configure.
    Up,
    /// Remove the link.
    Down,
    /// Push configuration text to the tunnel.
    AddConfig,
}

/// The step whose outcome a session is waiting for.
#[derive(Debug, Clone, Copy, PartialEq, Eq)]
pub enum Phase {
    /// The request that creates the link is outstanding.
    Creating,
    /// The link is being looked up, to give it its address.
    FindingForAddress,
    /// The request that assigns the address is outstanding.
    Addressing,
    /// The link is being looked up, to raise it.
    FindingForUp,
    /// The request that raises the link is outstanding.
    Raising,
    /// The program that installs the route is running.
    Routing,
    /// The program that takes the configuration is running.
    Configuring,
    /// The program that removes the link is running.
    Removing,
}

/// What happened to the action that a session asked for.
#[derive(Debug, Clone, PartialEq, Eq)]
pub enum Event {
    /// The channel delivered a datagram.
    Datagram(Vec<u8>),
    /// The bounded wait for a datagram ran out.
    Timeout,
    /// The program ended, successfully or not, with or without an exit code.
    Exited { success: bool, exit: Option<i32> },
}

/// An `Event` as plain values.
pub enum EventModel {
    Datagram(Seq<u8>),
    Timeout,
    Exited { success: bool, exit: Option<i32> },
}

impl View for Event {
    type V = EventModel;

    open spec fn view(&self) -> EventModel {
        match self {
            Event::Datagram(bytes) => EventModel::Datagram(bytes@),
            Event::Timeout => EventModel::Timeout,
            Event::Exited { success, exit } => EventModel::Exited { success: *success, exit: *exit },
        }
    }
}

/// What the caller is to do next.
#[derive(Debug, Clone, PartialEq, Eq)]
pub enum Action {
    /// Open a new channel, close the one before it, send these bytes on it,
    /// and report the next datagram or the timeout.
    Open(Vec<u8>),
    /// Send these bytes on the channel that is open, and report the next
    /// datagram or the timeout.
    Send(Vec<u8>),
    /// Report the next datagram on the open channel, or the timeout.
    Receive,
    /// Run this program and report how it ended.
    Run(Command),
    /// Nothing new: the event answered no action of this session and was
    /// dropped.
    Wait,
}

/// An `Action` as plain values.
pub enum ActionModel {
    Open(Seq<u8>),
    Send(Seq<u8>),
    Receive,
    Run(CommandModel),
    Wait,
}

impl View for Action {
    type V = ActionModel;

    open spec fn view(&self) -> ActionModel {
        match self {
            Action::Open(bytes) => ActionModel::Open(bytes@),
            Action::Send(bytes) => ActionModel::Send(bytes@),
            Action::Receive => ActionModel::Receive,
            Action::Run(command) => ActionModel::Run(command@),
            Action::Wait => ActionModel::Wait,
        }
    }
}

/// An operation under way.
#[derive(Debug)]
pub struct Session {
    goal: Goal,
    phase: Phase,
    state: LinkState,
    iface: String,
    cidr: Option<Cidr>,
    config: String,
    channel: Channel,
}

/// A `Session` as plain values.
pub struct SessionModel {
    /// The operation.
    pub goal: Goal,
    /// The step that is under way.
    pub phase: Phase,
    /// How far the interface has come, as far as the operation knows.
    pub state: LinkState,
    /// The interface's name.
    pub iface: Seq<char>,
    /// The address to assign, if the operation was given one.
    pub cidr: Option<Cidr>,
    /// The configuration text to push.
    pub config: Seq<char>,
    /// The channel of the exchange under way.
    pub channel: Channel,
}

/// Where an operation stands after a step.
#[derive(Debug)]
pub enum Step {
    /// The operation goes on: do this, and resume the session with what
    /// happened.
    Next(Session, Action),
    /// The operation is done and has brought the interface to this state.
    Done(LinkState),
    /// The operation has failed, and nothing is undone. The state is the one
    /// that the operation started from, moved on by the steps of its own
    /// that succeeded: what it took for granted at the start is not
    /// verified, and the error may say that it did not hold. A failed
    /// removal reports the interface as it was taken to be, and a creation
    /// refused with `LinkExists` reports it absent.
    Failed { state: LinkState, error: WgError },
}

/// A `Step` as plain values.
pub enum StepModel {
    Next(SessionModel, ActionModel),
    Done(LinkState),
    Failed { state: LinkState, error: ErrorModel },
}

impl View for Step {
    type V = StepModel;

    open spec fn view(&self) -> StepModel {
        match self {
            Step::Next(session, action) => StepModel::Next(session@, action@),
            Step::Done(state) => StepModel::Done(*state),
            Step::Failed { state, error } => StepModel::Failed { state: *state, error: error@ },
        }
    }
}

impl Goal {
    /// The step that the operation starts with.
    pub open spec fn first(self) -> Phase {
        match self {
            Goal::AddLink => Phase::Creating,
            Goal::AddAddress => Phase::FindingForAddress,
            Goal::LinkUp => Phase::FindingForUp,
            Goal::Up => Phase::Creating,
            Goal::Down => Phase::Removing,
            Goal::AddConfig => Phase::Configuring,
        }
    }

    /// The operation talks to the kernel, and so puts the interface's name
    /// into requests.
    pub open spec fn names_link(self) -> bool {
        self != Goal::Down && self != Goal::AddConfig
    }

    /// The state that the operation takes the interface to be in when it
    /// starts: the one it needs. Nothing verifies it.
    pub open spec fn start(self) -> LinkState {
        match self {
            Goal::AddLink => LinkState::Absent,
            Goal::AddAddress => LinkState::Created,
            Goal::LinkUp => LinkState::Addressed,
            Goal::Up => LinkState::Absent,
            Goal::Down => LinkState::ConfiguredUp,
            Goal::AddConfig => LinkState::Up,
        }
    }
}

impl Phase {
    /// The step is an exchange with the kernel, not the run of a program.
    pub open spec fn is_exchange(self) -> bool {
        match self {
            Phase::Routing | Phase::Configuring | Phase::Removing => false,
            _ => true,
        }
    }

    /// The step looks the link up by its name.
    pub open spec fn is_lookup(self) -> bool {
        self == Phase::FindingForAddress || self == Phase::FindingForUp
    }

    /// What a kernel error code means at this step. Where the link is being
    /// created, the two codes for missing privilege are `PermissionDenied`
    /// and "exists" is `LinkExists`. Where the link is being looked up, "no
    /// such device" is `LinkNotFound`. Every other code, at every step, is
    /// handed on as it came, as `KernelRejected`.
    pub open spec fn rejection(self, code: i32) -> ErrorModel {
        if self == Phase::Creating && (code == -EPERM || code == -EACCES) {
            ErrorModel::PermissionDenied
        } else if self == Phase::Creating && code == -EEXIST {
            ErrorModel::LinkExists
        } else if self.is_lookup() && code == -ENODEV {
            ErrorModel::LinkNotFound
        } else {
            ErrorModel::KernelRejected { code }
        }
    }

    /// What the failure of an exchange means at this step: a rejection by the
    /// kernel goes by its code, any other failure stays what it is.
    pub open spec fn refine(self, error: ErrorModel) -> ErrorModel {
        match error {
            ErrorModel::KernelRejected { code } => self.rejection(code),
            _ => error,
        }
    }
}

impl SessionModel {
    /// The interface's name as the bytes that go into a request.
    pub open spec fn name(self) -> Seq<u8> {
        encode_utf8(self.iface)
    }

    /// Where the operation puts the name into requests, the name is short
    /// enough to be encoded as an attribute, and the step is one of the
    /// operation's own.
    pub open spec fn wf(self) -> bool {
        &&& self.goal.names_link() ==> self.name().len() <= MAX_NAME_LEN
        &&& self.phase.is_exchange() ==> self.goal.names_link()
    }

    /// The address that the operation can assign: the one it was given, if
    /// its prefix is no longer than the address.
    pub open spec fn address(self) -> Option<Cidr> {
        match self.cidr {
            Some(cidr) => if cidr.wf() {
                Some(cidr)
            } else {
                None
            },
            None => None,
        }
    }

    /// The session at another step, on another channel.
    pub open spec fn at(self, phase: Phase, channel: Channel) -> SessionModel {
        SessionModel { phase, channel, ..self }
    }

    /// The session with the interface in another state.
    pub open spec fn reached(self, state: LinkState) -> SessionModel {
        SessionModel { state, ..self }
    }

    /// The channel that a new exchange opens, with its first request sent.
    pub open spec fn fresh() -> Channel {
        (Channel { seq: 0, state: ChannelState::Idle }).sent()
    }

    /// The program that the step runs, where it runs one.
    pub open spec fn command(self) -> CommandModel {
        match self.phase {
            Phase::Routing => route_add(self.iface),
            Phase::Removing => link_del(self.iface),
            _ => addconf(self.iface, self.config),
        }
    }

    /// Taking up a step that starts an exchange of its own or runs a program.
    /// An exchange opens a new channel and sends its first request on it. The
    /// lookup before the address is assigned is where the want of an address
    /// that can be assigned fails the operation, with `InvalidAddress`.
    pub open spec fn enter(self, phase: Phase) -> StepModel {
        match phase {
            Phase::Creating => StepModel::Next(
                self.at(phase, Self::fresh()),
                ActionModel::Open(create_link(self.name(), Self::fresh().seq)),
            ),
            Phase::FindingForAddress => if self.address() is None {
                StepModel::Failed { state: self.state, error: ErrorModel::InvalidAddress }
            } else {
                StepModel::Next(
                    self.at(phase, Self::fresh()),
                    ActionModel::Open(find_link(self.name(), Self::fresh().seq)),
                )
            },
            Phase::FindingForUp => StepModel::Next(
                self.at(phase, Self::fresh()),
                ActionModel::Open(find_link(self.name(), Self::fresh().seq)),
            ),
            _ => StepModel::Next(
                self.at(phase, self.channel),
                ActionModel::Run(self.at(phase, self.channel).command()),
            ),
        }
    }

    /// The start of an operation.
    pub open spec fn begin(goal: Goal, iface: Seq<char>, cidr: Option<Cidr>, config: Seq<char>)
        -> StepModel {
        (SessionModel {
            goal,
            phase: goal.first(),
            state: goal.start(),
            iface,
            cidr,
            config,
            channel: Channel { seq: 0, state: ChannelState::Idle },
        }).enter(goal.first())
    }

    /// What follows when the step under way has succeeded. The steps of `Up`
    /// follow one another: create, look up, address, look up, raise, route,
    /// configure. Every other operation ends with its own step.
    pub open spec fn completed(self) -> StepModel {
        match self.phase {
            Phase::Creating => if self.goal == Goal::Up {
                self.reached(LinkState::Created).enter(Phase::FindingForAddress)
            } else {
                StepModel::Done(LinkState::Created)
            },
            Phase::Addressing => if self.goal == Goal::Up {
                self.reached(LinkState::Addressed).enter(Phase::FindingForUp)
            } else {
                StepModel::Done(LinkState::Addressed)
            },
            Phase::Raising => if self.goal == Goal::Up {
                self.reached(LinkState::Up).enter(Phase::Routing)
            } else {
                StepModel::Done(LinkState::Up)
            },
            Phase::Routing => self.enter(Phase::Configuring),
            Phase::Configuring => StepModel::Done(LinkState::ConfiguredUp),
            Phase::Removing => StepModel::Done(LinkState::Absent),
            Phase::FindingForAddress | Phase::FindingForUp => StepModel::Failed {
                state: self.state,
                error: ErrorModel::LinkNotFound,
            },
        }
    }

    /// What follows when the lookup under way has found the link: the request
    /// that acts on it, sent on the same channel.
    pub open spec fn found(self, index: u32) -> StepModel {
        match (self.phase, self.address()) {
            (Phase::FindingForAddress, Some(cidr)) => StepModel::Next(
                self.at(Phase::Addressing, self.channel.sent()),
                ActionModel::Send(
                    add_address(index, cidr.ip, cidr.prefix, self.channel.sent().seq),
                ),
            ),
            (Phase::FindingForAddress, None) => StepModel::Failed {
                state: self.state,
                error: ErrorModel::InvalidAddress,
            },
            _ => StepModel::Next(
                self.at(Phase::Raising, self.channel.sent()),
                ActionModel::Send(set_up(index, self.channel.sent().seq)),
            ),
        }
    }

    /// What follows when the kernel has answered the request under way
    /// without rejecting it. A lookup goes on with the link it found and
    /// fails with `LinkNotFound` if the answer names none; any other request
    /// has succeeded.
    pub open spec fn answered(self, reply: Reply) -> StepModel {
        if self.phase.is_lookup() {
            match reply {
                Reply::Link { index } => self.found(index),
                Reply::Ack => StepModel::Failed {
                    state: self.state,
                    error: ErrorModel::LinkNotFound,
                },
            }
        } else {
            self.completed()
        }
    }

    /// The step that an event leads to.
    ///
    /// During an exchange, a datagram that holds no verdict on the
    /// outstanding request changes nothing and more is read; a verdict moves
    /// the operation on or fails it; a timeout fails it with
    /// `MalformedResponse`. While a program runs, its end moves the operation
    /// on if it succeeded, and fails it if not: but for the route, whose
    /// failure is passed over. An event of the other kind is dropped.
    pub open spec fn resume(self, event: EventModel) -> StepModel {
        if self.phase.is_exchange() {
            match event {
                EventModel::Datagram(bytes) => match self.channel.verdict(bytes) {
                    None => StepModel::Next(self, ActionModel::Receive),
                    Some(Ok(reply)) => self.at(self.phase, self.channel.received(bytes)).answered(
                        reply,
                    ),
                    Some(Err(error)) => StepModel::Failed {
                        state: self.state,
                        error: self.phase.refine(error@),
                    },
                },
                EventModel::Timeout => StepModel::Failed {
                    state: self.state,
                    error: ErrorModel::MalformedResponse,
                },
                EventModel::Exited { .. } => StepModel::Next(self, ActionModel::Wait),
            }
        } else {
            match event {
                EventModel::Exited { success, exit } => if success || self.phase
                    == Phase::Routing {
                    self.completed()
                } else {
                    StepModel::Failed { state: self.state, error: self.command().failure(exit) }
                },
                _ => StepModel::Next(self, ActionModel::Wait),
            }
        }
    }
}

impl View for Session {
    type V = SessionModel;

    closed spec fn view(&self) -> SessionModel {
        SessionModel {
            goal: self.goal,
            phase: self.phase,
            state: self.state,
            iface: self.iface@,
            cidr: self.cidr,
            config: self.config@,
            channel: self.channel,
        }
    }
}

/// The address, if there is one and its prefix is no longer than the address.
fn usable(cidr: Option<Cidr>) -> (r: Option<Cidr>)
    ensures
        r == match cidr {
            Some(c) => if c.wf() {
                Some(c)
            } else {
                None::<Cidr>
            },
            None => None::<Cidr>,
        },
{
    match cidr {
        Some(c) => {
            if c.prefix <= c.ip.bit_len() {
                Some(c)
            } else {
                None
            }
        },
        None => None,
    }
}

/// The error for a kernel error code at a step.
fn rejection(phase: Phase, code: i32) -> (e: WgError)
    ensures
        e@ == phase.rejection(code),
{
    let creating = match phase {
        Phase::Creating => true,
        _ => false,
    };
    let lookup = match phase {
        Phase::FindingForAddress | Phase::FindingForUp => true,
        _ => false,
    };
    if creating && (code == -EPERM || code == -EACCES) {
        WgError::PermissionDenied
    } else if creating && code == -EEXIST {
        WgError::LinkExists
    } else if lookup && code == -ENODEV {
        WgError::LinkNotFound
    } else {
        WgError::KernelRejected { code }
    }
}

impl Session {
    #[verifier::type_invariant]
    spec fn inv(self) -> bool {
        self@.wf()
    }

    /// How far the interface has come, as far as the operation knows.
    pub fn state(&self) -> (state: LinkState)
        ensures
            state == self@.state,
    {
        self.state
    }

    /// The step whose outcome is awaited.
    pub fn phase(&self) -> (phase: Phase)
        ensures
            phase == self@.phase,
    {
        self.phase
    }

    /// The operation that the session carries out.
    pub fn goal(&self) -> (goal: Goal)
        ensures
            goal == self@.goal,
    {
        self.goal
    }

    /// Starts an operation on the interface `iface`: `cidr` is the address
    /// to assign, where the operation assigns one and its text could be read,
    /// and `config` the configuration text to push, where it pushes one. An
    /// address whose prefix is longer than the address itself counts as none:
    /// the operation fails with `InvalidAddress` where it would assign it.
    pub fn begin(goal: Goal, iface: &str, cidr: Option<Cidr>, config: &str) -> (step: Step)
        requires
            goal.names_link() ==> encode_utf8(iface@).len() <= MAX_NAME_LEN,
        ensures
            step@ == SessionModel::begin(goal, iface@, cidr, config@),
    {
        let (first, start) = match goal {
            Goal::AddLink => (Phase::Creating, LinkState::Absent),
            Goal::AddAddress => (Phase::FindingForAddress, LinkState::Created),
            Goal::LinkUp => (Phase::FindingForUp, LinkState::Addressed),
            Goal::Up => (Phase::Creating, LinkState::Absent),
            Goal::Down => (Phase::Removing, LinkState::ConfiguredUp),
            Goal::AddConfig => (Phase::Configuring, LinkState::Up),
        };
        let session = Session {
            goal,
            phase: first,
            state: start,
            iface: String::from_str(iface),
            cidr,
            config: String::from_str(config),
            channel: Channel::open(),
        };
        session.enter(first)
    }

    /// Takes up a step that starts an exchange of its own or runs a program.
    fn enter(self, phase: Phase) -> (step: Step)
        requires
            phase.is_exchange() ==> self@.goal.names_link(),
        ensures
            step@ == self@.enter(phase),
    {
        proof {
            use_type_invariant(&self);
        }
        let Session { goal, phase: _, state, iface, cidr, config, channel } = self;
        match phase {
            Phase::Creating => {
                let mut fresh = Channel::open();
                let request = create_link_request(iface.as_str().as_bytes(), &mut fresh);
                Step::Next(
                    Session { goal, phase, state, iface, cidr, config, channel: fresh },
                    Action::Open(request),
                )
            },
            Phase::FindingForAddress => {
                if usable(cidr).is_none() {
                    return Step::Failed { state, error: WgError::InvalidAddress };
                }
                let mut fresh = Channel::open();
                let request = find_link_request(iface.as_str().as_bytes(), &mut fresh);
                Step::Next(
                    Session { goal, phase, state, iface, cidr, config, channel: fresh },
                    Action::Open(request),
                )
            },
            Phase::FindingForUp => {
                let mut fresh = Channel::open();
                let request = find_link_request(iface.as_str().as_bytes(), &mut fresh);
                Step::Next(
                    Session { goal, phase, state, iface, cidr, config, channel: fresh },
                    Action::Open(request),
                )
            },
            Phase::Routing => {
                let command = Command::route_add(iface.as_str());
                Step::Next(
                    Session { goal, phase, state, iface, cidr, config, channel },
                    Action::Run(command),
                )
            },
            Phase::Removing => {
                let command = Command::link_del(iface.as_str());
                Step::Next(
                    Session { goal, phase, state, iface, cidr, config, channel },
                    Action::Run(command),
                )
            },
            _ => {
                let command = Command::addconf(iface.as_str(), config.as_str());
                Step::Next(
                    Session { goal, phase, state, iface, cidr, config, channel },
                    Action::Run(command),
                )
            },
        }
    }

    /// Moves on after the step under way has succeeded.
    fn completed(self) -> (step: Step)
        ensures
            step@ == self@.completed(),
    {
        proof {
            use_type_invariant(&self);
        }
        let Session { goal, phase, state, iface, cidr, config, channel } = self;
        let whole = match goal {
            Goal::Up => true,
            _ => false,
        };
        match phase {
            Phase::Creating => {
                if whole {
                    let session = Session {
                        goal,
                        phase,
                        state: LinkState::Created,
                        iface,
                        cidr,
                        config,
                        channel,
                    };
                    session.enter(Phase::FindingForAddress)
                } else {
                    Step::Done(LinkState::Created)
                }
            },
            Phase::Addressing => {
                if whole {
                    let session = Session {
                        goal,
                        phase,
                        state: LinkState::Addressed,
                        iface,
                        cidr,
                        config,
                        channel,
                    };
                    session.enter(Phase::FindingForUp)
                } else {
                    Step::Done(LinkState::Addressed)
                }
            },
            Phase::Raising => {
                if whole {
                    let session = Session {
                        goal,
                        phase,
                        state: LinkState::Up,
                        iface,
                        cidr,
                        config,
                        channel,
                    };
                    session.enter(Phase::Routing)
                } else {
                    Step::Done(LinkState::Up)
                }
            },
            Phase::Routing => {
                let session = Session { goal, phase, state, iface, cidr, config, channel };
                session.enter(Phase::Configuring)
            },
            Phase::Configuring => Step::Done(LinkState::ConfiguredUp),
            Phase::Removing => Step::Done(LinkState::Absent),
            _ => Step::Failed { state, error: WgError::LinkNotFound },
        }
    }

    /// Moves on after the lookup under way has found the link.
    fn found(self, index: u32) -> (step: Step)
        requires
            self@.phase.is_lookup(),
        ensures
            step@ == self@.found(index),
    {
        proof {
            use_type_invariant(&self);
        }
        let Session { goal, phase, state, iface, cidr, config, channel } = self;
        let mut channel = channel;
        match (phase, usable(cidr)) {
            (Phase::FindingForAddress, Some(address)) => {
                let request = add_address_request(
                    index,
                    &address.ip,
                    address.prefix,
                    &mut channel,
                );
                Step::Next(
                    Session { goal, phase: Phase::Addressing, state, iface, cidr, config, channel },
                    Action::Send(request),
                )
            },
            (Phase::FindingForAddress, None) => Step::Failed {
                state,
                error: WgError::InvalidAddress,
            },
            _ => {
                let request = set_up_request(index, &mut channel);
                Step::Next(
                    Session { goal, phase: Phase::Raising, state, iface, cidr, config, channel },
                    Action::Send(request),
                )
            },
        }
    }

    /// Takes the next step of the operation, given what happened to the
    /// action that the step before asked for.
    pub fn resume(self, event: &Event) -> (step: Step)
        ensures
            step@ == self@.resume(event@),
    {
        proof {
            use_type_invariant(&self);
        }
        let exchange = match self.phase {
            Phase::Routing | Phase::Configuring | Phase::Removing => false,
            _ => true,
        };
        let lookup = match self.phase {
            Phase::FindingForAddress | Phase::FindingForUp => true,
            _ => false,
        };
        let routing = match self.phase {
            Phase::Routing => true,
            _ => false,
        };
        match event {
            Event::Datagram(bytes) => {
                if !exchange {
                    return Step::Next(self, Action::Wait);
                }
                let mut channel = self.channel;
                match channel.receive(bytes.as_slice()) {
                    None => Step::Next(self, Action::Receive),
                    Some(Ok(reply)) => {
                        let Session { goal, phase, state, iface, cidr, config, channel: _ } = self;
                        let session = Session { goal, phase, state, iface, cidr, config, channel };
                        if lookup {
                            match reply {
                                Reply::Link { index } => session.found(index),
                                Reply::Ack => Step::Failed {
                                    state,
                                    error: WgError::LinkNotFound,
                                },
                            }
                        } else {
                            session.completed()
                        }
                    },
                    Some(Err(error)) => {
                        let refined = match error {
                            WgError::KernelRejected { code } => rejection(self.phase, code),
                            other => other,
                        };
                        Step::Failed { state: self.state, error: refined }
                    },
                }
            },
            Event::Timeout => {
                if !exchange {
                    return Step::Next(self, Action::Wait);
                }
                Step::Failed { state: self.state, error: WgError::MalformedResponse }
            },
            Event::Exited { success, exit } => {
                if exchange {
                    return Step::Next(self, Action::Wait);
                }
                if *success || routing {
                    self.completed()
                } else {
                    let command = match self.phase {
                        Phase::Routing => Command::route_add(self.iface.as_str()),
                        Phase::Removing => Command::link_del(self.iface.as_str()),
                        _ => Command::addconf(self.iface.as_str(), self.config.as_str()),
                    };
                    Step::Failed { state: self.state, error: command.failed(*exit) }
                }
            },
        }
    }
}

} // verus!
