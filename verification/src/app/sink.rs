//! The port through which background threads reach the user interface.

use crate::app::command::{UiCommand, UiCommandView};
use vstd::prelude::*;

verus! {

/// The command that could not be delivered, because the user interface is gone.
pub struct SendError(pub UiCommand);

/// Sends commands to the user interface and wakes it up.
pub trait CommandSink: Send + Sync {
    /// Sends a command. An error gives it back: the user interface is gone.
    fn send(&self, command: UiCommand) -> (r: Result<(), SendError>);

    /// Asks the user interface to look at its commands now.
    fn wake(&self);
}

/// The command was handed to the sink, whatever came of it, and the sink was woken.
pub open spec fn dispatched<S: CommandSink + ?Sized>(sink: &S, command: UiCommand) -> bool {
    &&& exists|r: Result<(), SendError>|
        #![trigger call_ensures(S::send, (sink, command), r)]
        call_ensures(S::send, (sink, command), r)
    &&& call_ensures(S::wake, (sink,), ())
}

/// Sending and waking in one step.
pub trait CommandSinkExt: CommandSink {
    /// Sends a command and wakes the user interface, whether or not it was delivered.
    fn dispatch(&self, command: UiCommand)
        ensures
            dispatched(self, command),
    {
        let _ = self.send(command);
        self.wake();
    }
}

impl<T: CommandSink + ?Sized> CommandSinkExt for T {

}

/// A command with this view was handed to the sink, and the sink was woken.
pub open spec fn was_dispatched<S: CommandSink + ?Sized>(sink: &S, command: UiCommandView) -> bool {
    exists|c: UiCommand| c@ == command && #[trigger] dispatched(sink, c)
}

/// A sink with the record of all commands that were dispatched to it. The sink can be
/// reached only through the methods below.
pub struct Outbox<'a, S: CommandSink + ?Sized> {
    sink: &'a S,
    log: Ghost<Seq<UiCommandView>>,
}

/// Between `before` and `after` exactly these commands were dispatched, in this order.
pub open spec fn sent<S: CommandSink + ?Sized>(
    before: Outbox<S>,
    after: Outbox<S>,
    commands: Seq<UiCommandView>,
) -> bool {
    &&& after.sink() == before.sink()
    &&& after.log() == before.log() + commands
    &&& forall|i: int|
        0 <= i < commands.len() ==> was_dispatched(before.sink(), #[trigger] commands[i])
}

/// What is sent step by step is sent in one.
pub proof fn lemma_sent_then<S: CommandSink + ?Sized>(
    a: Outbox<S>,
    b: Outbox<S>,
    c: Outbox<S>,
    first: Seq<UiCommandView>,
    second: Seq<UiCommandView>,
)
    requires
        sent(a, b, first),
        sent(b, c, second),
    ensures
        sent(a, c, first + second),
{
    assert(a.log() + (first + second) =~= a.log() + first + second);
}

/// Where nothing is dispatched, nothing is sent.
pub proof fn lemma_sent_nothing<S: CommandSink + ?Sized>(a: Outbox<S>)
    ensures
        sent(a, a, Seq::empty()),
{
    assert(a.log() + Seq::<UiCommandView>::empty() =~= a.log());
}

impl<'a, S: CommandSink + ?Sized> Outbox<'a, S> {
    /// The sink.
    pub closed spec fn sink(&self) -> &'a S {
        self.sink
    }

    /// All commands so far.
    pub closed spec fn log(&self) -> Seq<UiCommandView> {
        self.log@
    }

    /// A sink that nothing was sent to yet.
    pub fn new(sink: &'a S) -> (r: Self)
        ensures
            r.sink() == sink,
            r.log() == Seq::<UiCommandView>::empty(),
    {
        Outbox { sink, log: Ghost(Seq::empty()) }
    }

    /// Sends a command and wakes the user interface.
    pub fn dispatch(&mut self, command: UiCommand)
        ensures
            sent(*old(self), *final(self), seq![command@]),
    {
        let ghost c = command;
        self.sink.dispatch(command);
        assert(dispatched(self.sink, c));
        self.log = Ghost(self.log@ + seq![c@]);
    }
}

// ── Laws ──

/// What was sent is in the record, in its order and behind what was there, and each command
/// was handed to the sink, which was woken.
pub proof fn law_sent_is_recorded<S: CommandSink + ?Sized>(
    before: Outbox<S>,
    after: Outbox<S>,
    commands: Seq<UiCommandView>,
    i: int,
)
    requires
        sent(before, after, commands),
        0 <= i < commands.len(),
    ensures
        after.sink() == before.sink(),
        after.log().len() == before.log().len() + commands.len(),
        after.log()[before.log().len() + i] == commands[i],
        after.log().take(before.log().len() as int) == before.log(),
        exists|c: UiCommand| c@ == commands[i] && #[trigger] dispatched(before.sink(), c),
        call_ensures(S::wake, (before.sink(),), ()),
{
    assert(after.log().take(before.log().len() as int) =~= before.log());
    assert(was_dispatched(before.sink(), commands[i]));
}

/// A new record is empty, and every command that is dispatched is added to it.
pub proof fn law_dispatched_is_recorded<S: CommandSink + ?Sized>(
    outbox: &mut Outbox<S>,
    command: UiCommand,
    r: (),
)
    requires
        call_ensures(Outbox::<S>::dispatch, (outbox, command), r),
    ensures
        final(outbox).log() == old(outbox).log().push(command@),
        final(outbox).sink() == old(outbox).sink(),
{
    assert(final(outbox).log() =~= old(outbox).log().push(command@));
}

} // verus!
