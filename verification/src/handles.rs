//! The user interface's ends of the channels to the monitor.
//!
//! `T` is the sending end for commands and `R` the receiving end for snapshots; the library only
//! decides who holds them.
use crate::command::PulseCommand;
use crate::streams::StreamSnapshot;
use vstd::prelude::*;

verus! {

/// The ends that are at hand: none before the start, both after it, and only the sending end once
/// the receiving end has been taken.
#[derive(Debug)]
pub struct Handles<T, R> {
    pub commands: Option<T>,
    pub snapshots: Option<R>,
}

/// How long a subscription without a receiving end lies idle, in seconds.
pub const IDLE_SECONDS: u64 = 86400;

/// What a subscription waits for.
#[derive(Debug)]
pub enum Wait<R> {
    /// The next snapshot from this end.
    Receive(R),
    /// Nothing but the time; then the subscription ends.
    Idle { seconds: u64 },
}

/// The handles before the start.
pub open spec fn unstarted<T, R>() -> Handles<T, R> {
    Handles { commands: None, snapshots: None }
}

/// The handles after a start with the given ends.
pub open spec fn after_start<T, R>(handles: Handles<T, R>, commands: T, snapshots: R) -> Handles<
    T,
    R,
> {
    if handles.commands is Some {
        handles
    } else {
        Handles { commands: Some(commands), snapshots: Some(snapshots) }
    }
}

/// The handles after the receiving end has been asked for.
pub open spec fn after_take<T, R>(handles: Handles<T, R>) -> Handles<T, R> {
    Handles { snapshots: None, ..handles }
}

/// Where a command goes.
pub open spec fn delivered<'a, T, R>(handles: &'a Handles<T, R>, cmd: PulseCommand) -> Option<
    (&'a T, PulseCommand),
> {
    match handles.commands {
        Some(commands) => Some((&commands, cmd)),
        None => None,
    }
}

/// What a subscription waits for.
pub open spec fn awaited<R>(receiver: Option<R>) -> Wait<R> {
    match receiver {
        Some(receiver) => Wait::Receive(receiver),
        None => Wait::Idle { seconds: IDLE_SECONDS },
    }
}

/// What a subscription yields and goes on with.
pub open spec fn yielded<R>(receiver: R, received: Option<StreamSnapshot>) -> Option<
    (StreamSnapshot, Option<R>),
> {
    match received {
        Some(snapshot) => Some((snapshot, Some(receiver))),
        None => None,
    }
}

impl<T, R> Handles<T, R> {
    /// The handles before the start.
    pub fn new() -> (handles: Self)
        ensures
            handles == unstarted::<T, R>(),
    {
        Handles { commands: None, snapshots: None }
    }
}

/// Start the PulseAudio monitor (idempotent): keeps the ends for later use, and says whether the
/// monitor has to be set running. Once started, nothing changes and the ends are dropped.
pub fn start<T, R>(handles: &mut Handles<T, R>, commands: T, snapshots: R) -> (run: bool)
    ensures
        run == (old(handles).commands is None),
        *final(handles) == after_start(*old(handles), commands, snapshots),
{
    if handles.commands.is_some() {
        return false;
    }
    handles.commands = Some(commands);
    handles.snapshots = Some(snapshots);
    true
}

/// Send a command to PulseAudio: says where the command goes. Before the start it goes nowhere.
pub fn send_command<T, R>(handles: &Handles<T, R>, cmd: PulseCommand) -> (delivery: Option<
    (&T, PulseCommand),
>)
    ensures
        delivery == match handles.commands {
            Some(commands) => Some((&commands, cmd)),
            None => None,
        },
        delivery == delivered(handles, cmd),
{
    match &handles.commands {
        Some(commands) => Some((commands, cmd)),
        None => None,
    }
}

/// Take ownership of the receiving end (call once from the subscription).
pub fn take_receiver<T, R>(handles: &mut Handles<T, R>) -> (receiver: Option<R>)
    ensures
        receiver == old(handles).snapshots,
        *final(handles) == after_take(*old(handles)),
{
    handles.snapshots.take()
}

/// What a subscription waits for, given the receiving end that it holds.
pub fn subscription_wait<R>(receiver: Option<R>) -> (wait: Wait<R>)
    ensures
        wait == match receiver {
            Some(receiver) => Wait::Receive(receiver),
            None => Wait::Idle { seconds: IDLE_SECONDS },
        },
        wait == awaited(receiver),
{
    match receiver {
        Some(receiver) => Wait::Receive(receiver),
        None => Wait::Idle { seconds: IDLE_SECONDS },
    }
}

/// What a subscription yields, and what it goes on with, after it has waited at `receiver`; none
/// when the monitor is gone and the subscription ends.
pub fn subscription_yield<R>(receiver: R, received: Option<StreamSnapshot>) -> (next: Option<
    (StreamSnapshot, Option<R>),
>)
    ensures
        next == match received {
            Some(snapshot) => Some((snapshot, Some(receiver))),
            None => None,
        },
        next == yielded(receiver, received),
{
    match received {
        Some(snapshot) => Some((snapshot, Some(receiver))),
        None => None,
    }
}

/// Starting twice is starting once.
pub proof fn start_is_idempotent<T, R>(
    handles: Handles<T, R>,
    commands: T,
    snapshots: R,
    later_commands: T,
    later_snapshots: R,
)
    ensures
        after_start(
            after_start(handles, commands, snapshots),
            later_commands,
            later_snapshots,
        ) == after_start(handles, commands, snapshots),
{
}

/// The receiving end is given out once: whoever asks again, even after another start, gets none.
pub proof fn receiver_is_given_once<T, R>(
    commands: T,
    snapshots: R,
    later_commands: T,
    later_snapshots: R,
)
    ensures
        ({
            let started = after_start(unstarted::<T, R>(), commands, snapshots);
            let taken = after_take(started);
            &&& started.snapshots == Some(snapshots)
            &&& taken.snapshots is None
            &&& after_start(taken, later_commands, later_snapshots).snapshots is None
            &&& after_start(taken, later_commands, later_snapshots).commands == Some(commands)
        }),
{
}

/// One use of the handles: a start with the given ends, or a request for the receiving end.
pub enum Use<T, R> {
    Start(T, R),
    Take,
}

/// The handles after a series of uses.
pub open spec fn after_uses<T, R>(uses: Seq<Use<T, R>>) -> Handles<T, R>
    decreases uses.len(),
{
    if uses.len() == 0 {
        unstarted()
    } else {
        match uses.last() {
            Use::Start(commands, snapshots) => after_start(
                after_uses(uses.drop_last()),
                commands,
                snapshots,
            ),
            Use::Take => after_take(after_uses(uses.drop_last())),
        }
    }
}

/// Whether use `i` is the first start.
pub open spec fn is_first_start<T, R>(uses: Seq<Use<T, R>>, i: int) -> bool {
    &&& 0 <= i < uses.len()
    &&& uses[i] is Start
    &&& forall|j: int| 0 <= j < i ==> (#[trigger] uses[j]) is Take
}

/// Before the first start there is nothing to give out, and a command goes nowhere.
pub proof fn nothing_before_the_start<T, R>(uses: Seq<Use<T, R>>, cmd: PulseCommand)
    requires
        forall|j: int| 0 <= j < uses.len() ==> (#[trigger] uses[j]) is Take,
    ensures
        after_uses(uses).commands is None,
        after_uses(uses).snapshots is None,
        delivered(&after_uses(uses), cmd) is None,
    decreases uses.len(),
{
    if uses.len() > 0 {
        let earlier = uses.drop_last();
        assert(uses[uses.len() - 1] is Take);
        assert forall|j: int| 0 <= j < earlier.len() implies (#[trigger] earlier[j]) is Take by {
            assert(uses[j] is Take);
        }
        nothing_before_the_start(earlier, cmd);
    }
}

/// After the first start, whatever follows, every command goes unchanged to the sending end of that
/// start.
pub proof fn commands_go_to_the_first_start<T, R>(
    uses: Seq<Use<T, R>>,
    start: int,
    cmd: PulseCommand,
)
    requires
        is_first_start(uses, start),
    ensures
        uses[start] matches Use::Start(commands, _) && after_uses(uses).commands == Some(commands)
            && delivered(&after_uses(uses), cmd) == Some((&commands, cmd)),
    decreases uses.len(),
{
    let earlier = uses.drop_last();
    if start == uses.len() - 1 {
        assert forall|j: int| 0 <= j < earlier.len() implies (#[trigger] earlier[j]) is Take by {
            assert(uses[j] is Take);
        }
        nothing_before_the_start(earlier, cmd);
    } else {
        assert(earlier[start] == uses[start]);
        assert forall|j: int| 0 <= j < start implies (#[trigger] earlier[j]) is Take by {
            assert(uses[j] is Take);
        }
        commands_go_to_the_first_start(earlier, start, cmd);
    }
}

/// The receiving end of the first start is there until it is asked for, and none is there after
/// that, whatever follows.
pub proof fn receiver_waits_until_it_is_taken<T, R>(uses: Seq<Use<T, R>>, start: int)
    requires
        is_first_start(uses, start),
    ensures
        ({
            let taken = exists|k: int| start < k < uses.len() && (#[trigger] uses[k]) is Take;
            &&& taken ==> after_uses(uses).snapshots is None
            &&& !taken ==> (uses[start] matches Use::Start(_, snapshots) && after_uses(
                uses,
            ).snapshots == Some(snapshots))
        }),
    decreases uses.len(),
{
    let earlier = uses.drop_last();
    let cmd = PulseCommand::SetAppMute(0, false);
    if start == uses.len() - 1 {
        assert forall|j: int| 0 <= j < earlier.len() implies (#[trigger] earlier[j]) is Take by {
            assert(uses[j] is Take);
        }
        nothing_before_the_start(earlier, cmd);
    } else {
        assert(earlier[start] == uses[start]);
        assert forall|j: int| 0 <= j < start implies (#[trigger] earlier[j]) is Take by {
            assert(uses[j] is Take);
        }
        receiver_waits_until_it_is_taken(earlier, start);
        commands_go_to_the_first_start(earlier, start, cmd);
        assert(uses[uses.len() - 1] == uses.last());
        if exists|k: int| start < k < earlier.len() && (#[trigger] earlier[k]) is Take {
            let k = choose|k: int| start < k < earlier.len() && (#[trigger] earlier[k]) is Take;
            assert(uses[k] is Take);
        }
        if exists|k: int| start < k < uses.len() && (#[trigger] uses[k]) is Take {
            let k = choose|k: int| start < k < uses.len() && (#[trigger] uses[k]) is Take;
            assert(k < earlier.len() ==> earlier[k] is Take);
        }
    }
}

/// What a subscription yields in all, given what comes in whenever it waits.
pub open spec fn yields<R>(receiver: Option<R>, received: Seq<Option<StreamSnapshot>>) -> Seq<
    StreamSnapshot,
>
    decreases received.len(),
{
    if received.len() == 0 {
        Seq::empty()
    } else {
        match awaited(receiver) {
            Wait::Idle { .. } => Seq::empty(),
            Wait::Receive(receiver) => match yielded(receiver, received[0]) {
                Some((snapshot, next)) => seq![snapshot] + yields(next, received.skip(1)),
                None => Seq::empty(),
            },
        }
    }
}

/// A subscription with a receiving end yields exactly the snapshots that come in, in their order,
/// until the monitor is gone.
pub proof fn subscription_yields_what_comes_in<R>(
    receiver: R,
    snapshots: Seq<StreamSnapshot>,
    later: Seq<Option<StreamSnapshot>>,
)
    ensures
        yields(
            Some(receiver),
            snapshots.map_values(|snapshot: StreamSnapshot| Some(snapshot)) + seq![None] + later,
        ) == snapshots,
    decreases snapshots.len(),
{
    let received = snapshots.map_values(|snapshot: StreamSnapshot| Some(snapshot)) + seq![None]
        + later;
    if snapshots.len() > 0 {
        let rest = snapshots.skip(1);
        subscription_yields_what_comes_in(receiver, rest, later);
        assert(received.skip(1) =~= rest.map_values(|snapshot: StreamSnapshot| Some(snapshot))
            + seq![None] + later);
        assert(received[0] == Some(snapshots[0]));
        assert(seq![snapshots[0]] + rest =~= snapshots);
    } else {
        assert(received[0] is None);
        assert(snapshots =~= Seq::<StreamSnapshot>::empty());
    }
}

/// A subscription without a receiving end lies idle for a day and yields nothing.
pub proof fn subscription_without_receiver_is_idle<R>(received: Seq<Option<StreamSnapshot>>)
    ensures
        awaited(None::<R>) == (Wait::<R>::Idle { seconds: 86400 }),
        yields(None::<R>, received) == Seq::<StreamSnapshot>::empty(),
{
}

} // verus!
