//! The event reactor: one wait loop for the periodic timer and for the
//! descriptors of the bus connection.
//!
//! The reactor decides; it does not wait, read or send. It names the next
//! thing to do as a [`ReactorAction`] and is told what came of it as a
//! [`ReactorEvent`]. Everything happens on the one thread that runs the
//! loop, one ready source after the other, in the order in which the wait
//! reported them. Nothing that fails while a source is handled ends the
//! loop.

use crate::service::{send_pressure_chrome_signal, PressureSignal};
use vstd::prelude::*;

verus! {

/// Period of the timer, in milliseconds. The first expiry comes after one
/// period.
pub const TIMER_INTERVAL_MS: u64 = 1000;

/// Bit of a dispatch mask that says that the descriptor can be read.
pub const WATCH_READABLE: u32 = 1;

/// Bit of a dispatch mask that says that the descriptor can be written.
pub const WATCH_WRITABLE: u32 = 2;

/// What a readiness report is about.
#[derive(Clone, Copy, PartialEq, Eq, Structural, Debug)]
pub enum Token {
    /// The periodic timer.
    TimerMsg,
    /// The descriptor of the bus connection with this number.
    DBusMsg(i32),
}

/// A descriptor that the bus connection wants watched.
#[derive(Clone, Copy, PartialEq, Eq, Structural, Debug)]
pub struct Watch {
    pub fd: i32,
    pub readable: bool,
    pub writable: bool,
}

/// One entry of the wait set: a descriptor, the readiness to watch for, and
/// the token under which it is reported.
#[derive(Clone, Copy, PartialEq, Eq, Structural, Debug)]
pub struct Registration {
    pub fd: i32,
    pub read: bool,
    pub write: bool,
    pub token: Token,
}

/// One ready source, as the wait reported it.
#[derive(Clone, Copy, PartialEq, Eq, Structural, Debug)]
pub struct Ready {
    pub token: Token,
    pub readable: bool,
    pub writable: bool,
}

/// The wait set for the timer and the descriptors of the connection: the
/// timer first, watched for reading, then each descriptor as the connection
/// wants it watched.
pub open spec fn wait_set(timer_fd: i32, watches: Seq<Watch>) -> Seq<Registration> {
    Seq::new(
        watches.len() + 1,
        |i: int|
            if i == 0 {
                Registration { fd: timer_fd, read: true, write: false, token: Token::TimerMsg }
            } else {
                Registration {
                    fd: watches[i - 1].fd,
                    read: watches[i - 1].readable,
                    write: watches[i - 1].writable,
                    token: Token::DBusMsg(watches[i - 1].fd),
                }
            },
    )
}

/// The mask that tells the connection what a descriptor is ready for.
pub open spec fn dispatch_mask(readable: bool, writable: bool) -> u32 {
    ((if readable {
        WATCH_READABLE as int
    } else {
        0
    }) + (if writable {
        WATCH_WRITABLE as int
    } else {
        0
    })) as u32
}

/// The wait set to register when the daemon starts. It is a snapshot: what
/// the connection wants watched later on is not in it.
pub fn registrations(timer_fd: i32, watches: &Vec<Watch>) -> (set: Vec<Registration>)
    ensures
        set@ == wait_set(timer_fd, watches@),
{
    let mut set: Vec<Registration> = Vec::new();
    set.push(Registration { fd: timer_fd, read: true, write: false, token: Token::TimerMsg });
    let mut i: usize = 0;
    while i < watches.len()
        invariant
            i <= watches@.len(),
            set@.len() == i + 1,
            forall|j: int| 0 <= j < set@.len() ==> set@[j] == wait_set(timer_fd, watches@)[j],
        decreases watches@.len() - i,
    {
        let watch = watches[i];
        set.push(
            Registration {
                fd: watch.fd,
                read: watch.readable,
                write: watch.writable,
                token: Token::DBusMsg(watch.fd),
            },
        );
        i = i + 1;
    }
    assert(set@ =~= wait_set(timer_fd, watches@));
    set
}

/// The mask that tells the connection what a descriptor is ready for.
pub fn watch_events(readable: bool, writable: bool) -> (revents: u32)
    ensures
        revents == dispatch_mask(readable, writable),
{
    let mut revents: u32 = 0;
    if readable {
        revents += WATCH_READABLE;
    }
    if writable {
        revents += WATCH_WRITABLE;
    }
    revents
}

/// What the reactor is doing.
#[derive(Clone, Copy, PartialEq, Eq, Structural, Debug)]
pub enum Phase {
    /// Idle: blocked until a source is ready.
    Waiting,
    /// Handling the timer: its expiration count is being drained.
    Draining,
    /// Handling the timer: the memory pressure is being sampled.
    Sampling,
    /// Handling the timer: the event is being broadcast.
    Broadcasting { signal: PressureSignal },
    /// Handling a descriptor: the connection is dispatching its messages.
    Dispatching { fd: i32, revents: u32 },
}

/// The next thing to do for the reactor.
#[derive(Clone, Copy, PartialEq, Eq, Structural, Debug)]
pub enum ReactorAction {
    /// Block until at least one registered source is ready.
    Wait,
    /// Read the expiration count of the timer, so that it stops being ready.
    DrainTimer,
    /// Ask the memory subsystem for the pressure status, once.
    SamplePressure,
    /// Broadcast the event, once.
    Broadcast { signal: PressureSignal },
    /// Hand the mask to the message dispatcher of the connection.
    Dispatch { fd: i32, revents: u32 },
}

/// What came of a [`ReactorAction`].
#[derive(Clone, Debug, PartialEq, Eq)]
pub enum ReactorEvent {
    /// The wait returned these ready sources, in this order.
    Woken(Vec<Ready>),
    /// The timer was drained of this many expirations.
    Drained { expirations: u64 },
    /// The memory subsystem computed this pressure status.
    Sampled { pressure_level: u8, memory_delta: u64 },
    /// The event went out.
    Sent,
    /// The connection has dispatched what there was.
    Dispatched,
    /// The action failed.
    Failed,
}

/// A [`ReactorEvent`] with the ready sources as a sequence.
pub enum EventView {
    Woken(Seq<Ready>),
    Drained { expirations: u64 },
    Sampled { pressure_level: u8, memory_delta: u64 },
    Sent,
    Dispatched,
    Failed,
}

impl View for ReactorEvent {
    type V = EventView;

    open spec fn view(&self) -> EventView {
        match self {
            ReactorEvent::Woken(ready) => EventView::Woken(ready@),
            ReactorEvent::Drained { expirations } => EventView::Drained {
                expirations: *expirations,
            },
            ReactorEvent::Sampled { pressure_level, memory_delta } => EventView::Sampled {
                pressure_level: *pressure_level,
                memory_delta: *memory_delta,
            },
            ReactorEvent::Sent => EventView::Sent,
            ReactorEvent::Dispatched => EventView::Dispatched,
            ReactorEvent::Failed => EventView::Failed,
        }
    }
}

/// The state of the reactor: the ready sources of the last wait, how many
/// of them have been taken up, and what is being done.
pub struct ReactorView {
    pub ready: Seq<Ready>,
    pub taken: nat,
    pub phase: Phase,
}

impl ReactorView {
    /// The reactor before its first wait.
    pub open spec fn initial() -> ReactorView {
        ReactorView { ready: Seq::empty(), taken: 0, phase: Phase::Waiting }
    }

    /// The reactor as it takes up the next ready source, or goes back to
    /// waiting when none is left.
    pub open spec fn take_up(ready: Seq<Ready>, taken: nat) -> ReactorView {
        if taken < ready.len() {
            let source = ready[taken as int];
            let phase = match source.token {
                Token::TimerMsg => Phase::Draining,
                Token::DBusMsg(fd) => Phase::Dispatching {
                    fd,
                    revents: dispatch_mask(source.readable, source.writable),
                },
            };
            ReactorView { ready, taken: taken + 1, phase }
        } else {
            ReactorView { ready, taken, phase: Phase::Waiting }
        }
    }

    /// What the reactor wants done.
    pub open spec fn action(self) -> ReactorAction {
        match self.phase {
            Phase::Waiting => ReactorAction::Wait,
            Phase::Draining => ReactorAction::DrainTimer,
            Phase::Sampling => ReactorAction::SamplePressure,
            Phase::Broadcasting { signal } => ReactorAction::Broadcast { signal },
            Phase::Dispatching { fd, revents } => ReactorAction::Dispatch { fd, revents },
        }
    }

    /// The reactor after `event` has told what came of its action. An event
    /// that does not answer the action counts as its failure; a failure ends
    /// the handling of the source at hand and nothing else.
    pub open spec fn step(self, event: EventView) -> ReactorView {
        match self.phase {
            Phase::Waiting => match event {
                EventView::Woken(ready) => ReactorView::take_up(ready, 0),
                _ => self,
            },
            Phase::Draining => match event {
                EventView::Drained { .. } => ReactorView { phase: Phase::Sampling, ..self },
                _ => ReactorView::take_up(self.ready, self.taken),
            },
            Phase::Sampling => match event {
                EventView::Sampled { pressure_level, memory_delta } => ReactorView {
                    phase: Phase::Broadcasting {
                        signal: PressureSignal { pressure_level, memory_delta },
                    },
                    ..self
                },
                _ => ReactorView::take_up(self.ready, self.taken),
            },
            Phase::Broadcasting { .. } => ReactorView::take_up(self.ready, self.taken),
            Phase::Dispatching { .. } => ReactorView::take_up(self.ready, self.taken),
        }
    }

    /// The reactor after the events in `events`, one after the other.
    pub open spec fn after(self, events: Seq<EventView>) -> ReactorView
        decreases events.len(),
    {
        if events.len() == 0 {
            self
        } else {
            self.step(events[0]).after(events.drop_first())
        }
    }

    /// The actions that `events` told the outcome of, in order.
    pub open spec fn performed(self, events: Seq<EventView>) -> Seq<ReactorAction>
        decreases events.len(),
    {
        if events.len() == 0 {
            Seq::empty()
        } else {
            seq![self.action()] + self.step(events[0]).performed(events.drop_first())
        }
    }
}

/// The reactor of the daemon.
pub struct Reactor {
    ready: Vec<Ready>,
    taken: usize,
    phase: Phase,
}

impl View for Reactor {
    type V = ReactorView;

    closed spec fn view(&self) -> ReactorView {
        ReactorView { ready: self.ready@, taken: self.taken as nat, phase: self.phase }
    }
}

impl Reactor {
    /// The reactor before its first wait.
    pub fn new() -> (reactor: Reactor)
        ensures
            reactor@ == ReactorView::initial(),
    {
        Reactor { ready: Vec::new(), taken: 0, phase: Phase::Waiting }
    }

    /// What the reactor wants done next.
    pub fn action(&self) -> (action: ReactorAction)
        ensures
            action == self@.action(),
    {
        match self.phase {
            Phase::Waiting => ReactorAction::Wait,
            Phase::Draining => ReactorAction::DrainTimer,
            Phase::Sampling => ReactorAction::SamplePressure,
            Phase::Broadcasting { signal } => ReactorAction::Broadcast { signal },
            Phase::Dispatching { fd, revents } => ReactorAction::Dispatch { fd, revents },
        }
    }

    fn take_up(ready: Vec<Ready>, taken: usize) -> (reactor: Reactor)
        ensures
            reactor@ == ReactorView::take_up(ready@, taken as nat),
    {
        if taken < ready.len() {
            let source = ready[taken];
            let phase = match source.token {
                Token::TimerMsg => Phase::Draining,
                Token::DBusMsg(fd) => Phase::Dispatching {
                    fd,
                    revents: watch_events(source.readable, source.writable),
                },
            };
            Reactor { ready, taken: taken + 1, phase }
        } else {
            Reactor { ready, taken, phase: Phase::Waiting }
        }
    }

    /// Takes what came of the action and decides how the loop goes on.
    pub fn advance(self, event: ReactorEvent) -> (reactor: Reactor)
        ensures
            reactor@ == self@.step(event@),
    {
        match self.phase {
            Phase::Waiting => match event {
                ReactorEvent::Woken(ready) => Self::take_up(ready, 0),
                _ => self,
            },
            Phase::Draining => match event {
                ReactorEvent::Drained { .. } => Reactor { phase: Phase::Sampling, ..self },
                _ => Self::take_up(self.ready, self.taken),
            },
            Phase::Sampling => match event {
                ReactorEvent::Sampled { pressure_level, memory_delta } => Reactor {
                    phase: Phase::Broadcasting {
                        signal: send_pressure_chrome_signal(pressure_level, memory_delta),
                    },
                    ..self
                },
                _ => Self::take_up(self.ready, self.taken),
            },
            Phase::Broadcasting { .. } => Self::take_up(self.ready, self.taken),
            Phase::Dispatching { .. } => Self::take_up(self.ready, self.taken),
        }
    }
}

/// The report of a wait that found the timer ready and nothing else.
pub open spec fn timer_ready() -> Seq<Ready> {
    seq![Ready { token: Token::TimerMsg, readable: true, writable: false }]
}

/// What the reactor is told in the course of one tick of the timer on which
/// everything succeeds.
pub open spec fn tick_events(expirations: u64, signal: PressureSignal) -> Seq<EventView> {
    seq![
        EventView::Woken(timer_ready()),
        EventView::Drained { expirations },
        EventView::Sampled {
            pressure_level: signal.pressure_level,
            memory_delta: signal.memory_delta,
        },
        EventView::Sent,
    ]
}

/// What the reactor does for one tick of the timer: it waits, drains the
/// timer, samples the memory pressure and broadcasts the sample.
pub open spec fn tick_actions(signal: PressureSignal) -> Seq<ReactorAction> {
    seq![
        ReactorAction::Wait,
        ReactorAction::DrainTimer,
        ReactorAction::SamplePressure,
        ReactorAction::Broadcast { signal },
    ]
}

/// The events of one tick for each of `signals`, in order.
pub open spec fn ticks_events(signals: Seq<PressureSignal>) -> Seq<EventView>
    decreases signals.len(),
{
    if signals.len() == 0 {
        Seq::empty()
    } else {
        tick_events(1, signals[0]) + ticks_events(signals.drop_first())
    }
}

/// The actions of one tick for each of `signals`, in order.
pub open spec fn ticks_actions(signals: Seq<PressureSignal>) -> Seq<ReactorAction>
    decreases signals.len(),
{
    if signals.len() == 0 {
        Seq::empty()
    } else {
        tick_actions(signals[0]) + ticks_actions(signals.drop_first())
    }
}

/// Events may be told to a reactor in two portions.
pub proof fn lemma_events_in_portions(
    reactor: ReactorView,
    head: Seq<EventView>,
    tail: Seq<EventView>,
)
    ensures
        reactor.after(head + tail) == reactor.after(head).after(tail),
        reactor.performed(head + tail) == reactor.performed(head) + reactor.after(head).performed(
            tail,
        ),
    decreases head.len(),
{
    if head.len() == 0 {
        assert(head + tail =~= tail);
        assert(reactor.performed(head) + reactor.after(head).performed(tail)
            =~= reactor.performed(tail));
    } else {
        let all = head + tail;
        assert(all[0] == head[0]);
        assert(all.drop_first() =~= head.drop_first() + tail);
        lemma_events_in_portions(reactor.step(head[0]), head.drop_first(), tail);
        assert(reactor.performed(all) =~= reactor.performed(head) + reactor.after(head).performed(
            tail,
        ));
    }
}

/// On a tick of the timer the idle reactor drains the timer, then takes
/// exactly one sample of the memory pressure, then broadcasts it exactly
/// once, and is idle again.
pub proof fn lemma_tick_drains_samples_broadcasts(
    reactor: ReactorView,
    expirations: u64,
    signal: PressureSignal,
)
    requires
        reactor.phase == Phase::Waiting,
    ensures
        reactor.after(tick_events(expirations, signal)).phase == Phase::Waiting,
        reactor.performed(tick_events(expirations, signal)) == tick_actions(signal),
{
    let events = tick_events(expirations, signal);
    let e1 = events.drop_first();
    let e2 = e1.drop_first();
    let e3 = e2.drop_first();
    let e4 = e3.drop_first();
    assert(e4.len() == 0);
    let s1 = reactor.step(events[0]);
    let s2 = s1.step(e1[0]);
    let s3 = s2.step(e2[0]);
    let s4 = s3.step(e3[0]);
    assert(s4.after(e4) == s4);
    assert(s3.after(e3) == s4);
    assert(s2.after(e2) == s4);
    assert(s1.after(e1) == s4);
    assert(reactor.after(events) == s4);
    assert(s4.performed(e4) =~= Seq::<ReactorAction>::empty());
    assert(s3.performed(e3) =~= seq![s3.action()]);
    assert(s2.performed(e2) =~= seq![s2.action(), s3.action()]);
    assert(s1.performed(e1) =~= seq![s1.action(), s2.action(), s3.action()]);
    assert(reactor.performed(events) =~= tick_actions(signal));
}

/// However many times the timer fires while the bus is silent, each tick is
/// handled alike: one drain of the timer, then one sample, then one
/// broadcast of that sample, and nothing in between.
pub proof fn lemma_every_tick_broadcasts_once(reactor: ReactorView, signals: Seq<PressureSignal>)
    requires
        reactor.phase == Phase::Waiting,
    ensures
        reactor.after(ticks_events(signals)).phase == Phase::Waiting,
        reactor.performed(ticks_events(signals)) == ticks_actions(signals),
        ticks_actions(signals).len() == 4 * signals.len(),
        forall|i: int|
            0 <= i < signals.len() ==> ticks_actions(signals)[4 * i + 1]
                == ReactorAction::DrainTimer && #[trigger] ticks_actions(signals)[4 * i + 3]
                == (ReactorAction::Broadcast { signal: signals[i] }),
    decreases signals.len(),
{
    if signals.len() > 0 {
        let first = tick_events(1, signals[0]);
        let rest = signals.drop_first();
        lemma_tick_drains_samples_broadcasts(reactor, 1, signals[0]);
        lemma_every_tick_broadcasts_once(reactor.after(first), rest);
        lemma_events_in_portions(reactor, first, ticks_events(rest));
        let actions = ticks_actions(signals);
        assert forall|i: int| 0 <= i < signals.len() implies actions[4 * i + 1]
            == ReactorAction::DrainTimer && #[trigger] actions[4 * i + 3]
            == (ReactorAction::Broadcast { signal: signals[i] }) by {
            if i > 0 {
                assert(ticks_actions(rest)[4 * (i - 1) + 3] == (ReactorAction::Broadcast {
                    signal: rest[i - 1],
                }));
                assert(actions[4 * i + 1] == ticks_actions(rest)[4 * (i - 1) + 1]);
                assert(actions[4 * i + 3] == ticks_actions(rest)[4 * (i - 1) + 3]);
            }
        }
    }
}

/// A tick on which the memory pressure cannot be computed broadcasts
/// nothing, and the reactor is idle again: the next tick is handled as ever.
pub proof fn lemma_failed_sample_broadcasts_nothing(reactor: ReactorView, expirations: u64)
    requires
        reactor.phase == Phase::Waiting,
    ensures
        ({
            let events = seq![
                EventView::Woken(timer_ready()),
                EventView::Drained { expirations },
                EventView::Failed,
            ];
            &&& reactor.after(events).phase == Phase::Waiting
            &&& reactor.performed(events) == seq![
                ReactorAction::Wait,
                ReactorAction::DrainTimer,
                ReactorAction::SamplePressure,
            ]
        }),
{
    let events = seq![
        EventView::Woken(timer_ready()),
        EventView::Drained { expirations },
        EventView::Failed,
    ];
    let e1 = events.drop_first();
    let e2 = e1.drop_first();
    let e3 = e2.drop_first();
    assert(e3.len() == 0);
    let s1 = reactor.step(events[0]);
    let s2 = s1.step(e1[0]);
    let s3 = s2.step(e2[0]);
    assert(s3.after(e3) == s3);
    assert(s2.after(e2) == s3);
    assert(s1.after(e1) == s3);
    assert(reactor.after(events) == s3);
    assert(s3.performed(e3) =~= Seq::<ReactorAction>::empty());
    assert(s2.performed(e2) =~= seq![s2.action()]);
    assert(s1.performed(e1) =~= seq![s1.action(), s2.action()]);
    assert(reactor.performed(events) =~= seq![
        ReactorAction::Wait,
        ReactorAction::DrainTimer,
        ReactorAction::SamplePressure,
    ]);
}

/// A ready descriptor of the connection is handed to the dispatcher with
/// the mask of what it is ready for, whether or not the dispatch succeeds,
/// and the reactor is idle again.
pub proof fn lemma_ready_descriptor_is_dispatched(
    reactor: ReactorView,
    fd: i32,
    readable: bool,
    writable: bool,
    outcome: EventView,
)
    requires
        reactor.phase == Phase::Waiting,
    ensures
        ({
            let events = seq![
                EventView::Woken(seq![Ready { token: Token::DBusMsg(fd), readable, writable }]),
                outcome,
            ];
            &&& reactor.after(events).phase == Phase::Waiting
            &&& reactor.performed(events) == seq![
                ReactorAction::Wait,
                ReactorAction::Dispatch { fd, revents: dispatch_mask(readable, writable) },
            ]
        }),
{
    let events = seq![
        EventView::Woken(seq![Ready { token: Token::DBusMsg(fd), readable, writable }]),
        outcome,
    ];
    let e1 = events.drop_first();
    let e2 = e1.drop_first();
    assert(e2.len() == 0);
    let s1 = reactor.step(events[0]);
    let s2 = s1.step(e1[0]);
    assert(s2.after(e2) == s2);
    assert(s1.after(e1) == s2);
    assert(reactor.after(events) == s2);
    assert(s2.performed(e2) =~= Seq::<ReactorAction>::empty());
    assert(s1.performed(e1) =~= seq![s1.action()]);
    assert(reactor.performed(events) =~= seq![
        ReactorAction::Wait,
        ReactorAction::Dispatch { fd, revents: dispatch_mask(readable, writable) },
    ]);
}

} // verus!
