//! The two ways to open a backend, and the record of those that were tried.

use crate::app::ec::{BoxedBackend, EcError};
use vstd::prelude::*;

verus! {

/// Something that opens one kind of backend.
pub trait Connector: Send + Sync {
    /// Opens the backend.
    fn connect(&self) -> (r: Result<BoxedBackend, EcError>);
}

/// One attempt to open a backend, and what came of it.
pub enum Connection {
    /// Through WMI.
    Wmi(Result<BoxedBackend, EcError>),
    /// Through the WinRing0 driver.
    WinRing0(Result<BoxedBackend, EcError>),
}

/// The attempt came out as the connectors have it.
pub open spec fn connects<W: Connector + ?Sized, R: Connector + ?Sized>(
    wmi: &W,
    winring0: &R,
    connection: Connection,
) -> bool {
    match connection {
        Connection::Wmi(r) => call_ensures(W::connect, (wmi,), r),
        Connection::WinRing0(r) => call_ensures(R::connect, (winring0,), r),
    }
}

/// A pair of connectors with the record of all attempts. The connectors can be reached
/// only through the methods below.
pub struct Connectors<'a, W: Connector + ?Sized, R: Connector + ?Sized> {
    wmi: &'a W,
    winring0: &'a R,
    log: Ghost<Seq<Connection>>,
}

/// Between `before` and `after` exactly these attempts were made, in this order.
pub open spec fn connected<W: Connector + ?Sized, R: Connector + ?Sized>(
    before: Connectors<W, R>,
    after: Connectors<W, R>,
    tried: Seq<Connection>,
) -> bool {
    &&& after.pair() == before.pair()
    &&& after.log() == before.log() + tried
    &&& forall|i: int|
        0 <= i < tried.len() ==> connects(
            before.pair().0,
            before.pair().1,
            #[trigger] tried[i],
        )
}

/// What is tried step by step is tried in one.
pub proof fn lemma_connected_then<W: Connector + ?Sized, R: Connector + ?Sized>(
    a: Connectors<W, R>,
    b: Connectors<W, R>,
    c: Connectors<W, R>,
    first: Seq<Connection>,
    second: Seq<Connection>,
)
    requires
        connected(a, b, first),
        connected(b, c, second),
    ensures
        connected(a, c, first + second),
{
    assert(a.log() + (first + second) =~= a.log() + first + second);
}

impl<'a, W: Connector + ?Sized, R: Connector + ?Sized> Connectors<'a, W, R> {
    /// The connector for WMI and the one for WinRing0.
    pub closed spec fn pair(&self) -> (&'a W, &'a R) {
        (self.wmi, self.winring0)
    }

    /// All attempts so far.
    pub closed spec fn log(&self) -> Seq<Connection> {
        self.log@
    }

    /// A pair of connectors that were not used yet.
    pub fn new(wmi: &'a W, winring0: &'a R) -> (r: Self)
        ensures
            r.pair() == (wmi, winring0),
            r.log() == Seq::<Connection>::empty(),
    {
        Connectors { wmi, winring0, log: Ghost(Seq::empty()) }
    }

    /// Opens the WMI backend: one attempt.
    pub fn wmi(&mut self) -> (r: Result<BoxedBackend, EcError>)
        ensures
            connected(*old(self), *final(self), seq![Connection::Wmi(r)]),
    {
        let r = self.wmi.connect();
        self.log = Ghost(self.log@ + seq![Connection::Wmi(r)]);
        r
    }

    /// Opens the WinRing0 backend: one attempt.
    pub fn winring0(&mut self) -> (r: Result<BoxedBackend, EcError>)
        ensures
            connected(*old(self), *final(self), seq![Connection::WinRing0(r)]),
    {
        let r = self.winring0.connect();
        self.log = Ghost(self.log@ + seq![Connection::WinRing0(r)]);
        r
    }
}

// ── Laws ──

/// What is recorded as an attempt through WMI came from the connector for WMI, and what is
/// recorded as one through WinRing0 from the other.
pub proof fn law_attempts_by_connector<W: Connector + ?Sized, R: Connector + ?Sized>(
    before: Connectors<W, R>,
    after: Connectors<W, R>,
    tried: Seq<Connection>,
    i: int,
)
    requires
        connected(before, after, tried),
        0 <= i < tried.len(),
    ensures
        after.pair() == before.pair(),
        after.log()[before.log().len() + i] == tried[i],
        after.log().len() == before.log().len() + tried.len(),
        tried[i] matches Connection::Wmi(r) ==> call_ensures(W::connect, (before.pair().0,), r),
        tried[i] matches Connection::WinRing0(r) ==> call_ensures(
            R::connect,
            (before.pair().1,),
            r,
        ),
{
    assert(connects(before.pair().0, before.pair().1, tried[i]));
}

/// An attempt adds its result to the record, under the name of its connector.
pub proof fn law_attempts_are_recorded<W: Connector + ?Sized, R: Connector + ?Sized>(
    a: &mut Connectors<W, R>,
    x: Result<BoxedBackend, EcError>,
    b: &mut Connectors<W, R>,
    y: Result<BoxedBackend, EcError>,
)
    requires
        call_ensures(Connectors::<W, R>::wmi, (a,), x),
        call_ensures(Connectors::<W, R>::winring0, (b,), y),
    ensures
        final(a).log() == old(a).log().push(Connection::Wmi(x)),
        final(b).log() == old(b).log().push(Connection::WinRing0(y)),
        call_ensures(W::connect, (old(a).pair().0,), x),
        call_ensures(R::connect, (old(b).pair().1,), y),
{
    let p = *old(a);
    let q = *old(b);
    assert(final(a).log() =~= p.log().push(Connection::Wmi(x)));
    assert(final(b).log() =~= q.log().push(Connection::WinRing0(y)));
    assert(connects(p.pair().0, p.pair().1, seq![Connection::Wmi(x)][0]));
    assert(connects(q.pair().0, q.pair().1, seq![Connection::WinRing0(y)][0]));
}

} // verus!
