//! A backend in use, and the record of what was asked of it.
//!
//! The device behind a [`BoxedBackend`] can be reached only through the methods of this
//! module, and each of them adds one entry to the record. So a function that is handed a
//! backend can say exactly what it asked of the hardware, in which order, and that it asked
//! nothing else.

use crate::app::ec::{
    null_error, placeholder_name, BackendPreference, EcBackend, EcBackendFactory, EcError,
    EcErrorView,
};
use crate::ec::backend::NullBackend;
use vstd::prelude::*;

verus! {

// ── Accesses ──

/// One access to a backend: what was asked, and what it answered.
pub enum Access {
    /// A charge limit was written.
    SetLimit(u8, Result<(), EcError>),
    /// The care bit was written.
    SetCare(bool, Result<(), EcError>),
    /// The code of a performance mode was written.
    SetMode(u8, Result<(), EcError>),
    /// Battery care was read.
    GetCare(Result<bool, EcError>),
    /// The charge limit was read.
    GetLimit(Result<u8, EcError>),
    /// Battery care and the charge limit were read together.
    GetState(Result<(bool, u8), EcError>),
    /// The code of the performance mode was read.
    GetMode(Result<u8, EcError>),
}

/// A setting that is written to the hardware.
#[derive(Debug, Clone, Copy, PartialEq, Eq, Structural)]
pub enum HardwareWrite {
    /// The charge limit.
    Limit(u8),
    /// The care bit.
    Care(bool),
    /// The code of the performance mode.
    Mode(u8),
}

/// The access that writes a setting and is answered so.
pub open spec fn access_of(write: HardwareWrite, answer: Result<(), EcError>) -> Access {
    match write {
        HardwareWrite::Limit(percent) => Access::SetLimit(percent, answer),
        HardwareWrite::Care(enabled) => Access::SetCare(enabled, answer),
        HardwareWrite::Mode(mode) => Access::SetMode(mode, answer),
    }
}

/// The setting that an access writes, if it writes one.
pub open spec fn write_of(access: Access) -> Option<HardwareWrite> {
    match access {
        Access::SetLimit(percent, _) => Some(HardwareWrite::Limit(percent)),
        Access::SetCare(enabled, _) => Some(HardwareWrite::Care(enabled)),
        Access::SetMode(mode, _) => Some(HardwareWrite::Mode(mode)),
        _ => None,
    }
}

/// The settings that are written by a sequence of accesses, in their order.
pub open spec fn writes(accesses: Seq<Access>) -> Seq<HardwareWrite>
    decreases accesses.len(),
{
    if accesses.len() == 0 {
        Seq::empty()
    } else {
        match write_of(accesses.last()) {
            Some(write) => writes(accesses.drop_last()).push(write),
            None => writes(accesses.drop_last()),
        }
    }
}

// ── Devices ──

/// What stands behind a [`BoxedBackend`].
pub enum Device {
    /// A backend of whatever kind.
    Real(Box<dyn EcBackend>),
    /// The placeholder for a missing backend.
    Placeholder(NullBackend),
}

/// The access was answered as the backend answers it.
pub open spec fn gives<B: EcBackend + ?Sized>(backend: &B, access: Access) -> bool {
    match access {
        Access::SetLimit(percent, r) => call_ensures(B::set_charge_limit, (backend, percent), r),
        Access::SetCare(enabled, r) => call_ensures(B::set_battery_care, (backend, enabled), r),
        Access::SetMode(mode, r) => call_ensures(B::set_performance_mode, (backend, mode), r),
        Access::GetCare(r) => call_ensures(B::get_battery_care_enabled, (backend,), r),
        Access::GetLimit(r) => call_ensures(B::get_charge_limit, (backend,), r),
        Access::GetState(r) => call_ensures(B::get_battery_state, (backend,), r),
        Access::GetMode(r) => call_ensures(B::get_performance_mode, (backend,), r),
    }
}

/// A failure for want of a backend.
pub open spec fn is_refusal<T>(r: Result<T, EcError>) -> bool {
    r matches Err(e) && e@ == null_error()
}

/// The access failed for want of a backend.
pub open spec fn is_refused(access: Access) -> bool {
    match access {
        Access::SetLimit(_, r) => is_refusal(r),
        Access::SetCare(_, r) => is_refusal(r),
        Access::SetMode(_, r) => is_refusal(r),
        Access::GetCare(r) => is_refusal(r),
        Access::GetLimit(r) => is_refusal(r),
        Access::GetState(r) => is_refusal(r),
        Access::GetMode(r) => is_refusal(r),
    }
}

/// The backend gives this name.
pub open spec fn is_named<B: EcBackend + ?Sized>(backend: &B, name: Seq<char>) -> bool {
    exists|r: &'static str|
        #![trigger call_ensures(B::name, (backend,), r)]
        call_ensures(B::name, (backend,), r) && name == r@
}

/// The backend says this of itself: whether it is a placeholder.
pub open spec fn says_null<B: EcBackend + ?Sized>(backend: &B, null: bool) -> bool {
    call_ensures(B::is_null, (backend,), null)
}

/// The backend says that it satisfies this preference.
pub open spec fn says_preference<B: EcBackend + ?Sized>(
    backend: &B,
    pref: BackendPreference,
) -> bool {
    call_ensures(B::preference, (backend,), pref)
}

/// The backend says whether any limit can be set.
pub open spec fn says_continuous<B: EcBackend + ?Sized>(backend: &B, continuous: bool) -> bool {
    call_ensures(B::supports_continuous_charge_limit, (backend,), continuous)
}

/// The backend says whether it has to be created anew.
pub open spec fn says_rebuild<B: EcBackend + ?Sized>(backend: &B, rebuild: bool) -> bool {
    call_ensures(B::needs_rebuild, (backend,), rebuild)
}

impl Device {
    /// The access was answered as this device answers it.
    pub open spec fn answers(self, access: Access) -> bool {
        match self {
            Device::Real(backend) => gives(&*backend, access),
            Device::Placeholder(_) => is_refused(access),
        }
    }

    /// The device has this name.
    pub open spec fn named(self, name: Seq<char>) -> bool {
        match self {
            Device::Real(backend) => is_named(&*backend, name),
            Device::Placeholder(_) => name == placeholder_name(),
        }
    }

    /// Whether the device says that it is a placeholder.
    pub open spec fn says_null(self, null: bool) -> bool {
        match self {
            Device::Real(backend) => says_null(&*backend, null),
            Device::Placeholder(_) => null,
        }
    }

    /// The preference that the device says it satisfies.
    pub open spec fn says_preference(self, pref: BackendPreference) -> bool {
        match self {
            Device::Real(backend) => says_preference(&*backend, pref),
            Device::Placeholder(_) => pref == BackendPreference::Auto,
        }
    }

    /// Whether the device says that any limit can be set.
    pub open spec fn says_continuous(self, continuous: bool) -> bool {
        match self {
            Device::Real(backend) => says_continuous(&*backend, continuous),
            Device::Placeholder(_) => !continuous,
        }
    }

    /// Whether the device says that it has to be created anew.
    pub open spec fn says_rebuild(self, rebuild: bool) -> bool {
        match self {
            Device::Real(backend) => says_rebuild(&*backend, rebuild),
            Device::Placeholder(_) => !rebuild,
        }
    }
}

// ── Backends with a record ──

/// A backend of whatever kind, with the record of all accesses to it.
pub struct BoxedBackend {
    device: Device,
    log: Ghost<Seq<Access>>,
}

/// Between `before` and `after` exactly these accesses were made, in this order, and each
/// was answered as the backend answers it.
pub open spec fn recorded(
    before: BoxedBackend,
    after: BoxedBackend,
    accesses: Seq<Access>,
) -> bool {
    &&& after.device() == before.device()
    &&& after.log() == before.log() + accesses
    &&& forall|i: int|
        0 <= i < accesses.len() ==> before.device().answers(#[trigger] accesses[i])
}

/// Between `before` and `after` exactly these settings were written, in this order, and
/// nothing else was asked; what the backend answered is left open.
pub open spec fn wrote(
    before: BoxedBackend,
    after: BoxedBackend,
    list: Seq<HardwareWrite>,
) -> bool {
    exists|answers: Seq<Result<(), EcError>>|
        answers.len() == list.len() && recorded(before, after, #[trigger] answered(list, answers))
}

/// The accesses that write these settings and are answered so.
pub open spec fn answered(
    list: Seq<HardwareWrite>,
    answers: Seq<Result<(), EcError>>,
) -> Seq<Access> {
    Seq::new(list.len(), |i: int| access_of(list[i], answers[i]))
}

/// What is recorded step by step is recorded in one.
pub proof fn lemma_recorded_then(
    a: BoxedBackend,
    b: BoxedBackend,
    c: BoxedBackend,
    first: Seq<Access>,
    second: Seq<Access>,
)
    requires
        recorded(a, b, first),
        recorded(b, c, second),
    ensures
        recorded(a, c, first + second),
{
    assert(a.log() + (first + second) =~= a.log() + first + second);
}

/// What is written step by step is written in one.
pub proof fn lemma_wrote_then(
    a: BoxedBackend,
    b: BoxedBackend,
    c: BoxedBackend,
    first: Seq<HardwareWrite>,
    second: Seq<HardwareWrite>,
)
    requires
        wrote(a, b, first),
        wrote(b, c, second),
    ensures
        wrote(a, c, first + second),
{
    let x = choose|x: Seq<Result<(), EcError>>|
        x.len() == first.len() && recorded(a, b, #[trigger] answered(first, x));
    let y = choose|y: Seq<Result<(), EcError>>|
        y.len() == second.len() && recorded(b, c, #[trigger] answered(second, y));
    lemma_recorded_then(a, b, c, answered(first, x), answered(second, y));
    assert(answered(first + second, x + y) =~= answered(first, x) + answered(second, y));
}

/// Accesses that only read add nothing to what was written.
pub proof fn lemma_reads_write_nothing(first: Seq<Access>, reads: Seq<Access>)
    requires
        forall|i: int| 0 <= i < reads.len() ==> write_of(#[trigger] reads[i]) is None,
    ensures
        writes(first + reads) == writes(first),
    decreases reads.len(),
{
    if reads.len() == 0 {
        assert(first + reads =~= first);
    } else {
        let all = first + reads;
        assert(all.drop_last() =~= first + reads.drop_last());
        assert(all.last() == reads[reads.len() - 1]);
        lemma_reads_write_nothing(first, reads.drop_last());
    }
}

/// Where nothing is asked, nothing is written.
pub proof fn lemma_wrote_nothing(a: BoxedBackend)
    ensures
        recorded(a, a, Seq::empty()),
        wrote(a, a, Seq::empty()),
{
    assert(a.log() + Seq::<Access>::empty() =~= a.log());
    let none = Seq::<Result<(), EcError>>::empty();
    assert(answered(Seq::empty(), none) =~= Seq::<Access>::empty());
}

/// One write is written.
proof fn lemma_wrote_one(
    a: BoxedBackend,
    b: BoxedBackend,
    write: HardwareWrite,
    answer: Result<(), EcError>,
)
    requires
        recorded(a, b, seq![access_of(write, answer)]),
    ensures
        wrote(a, b, seq![write]),
{
    assert(answered(seq![write], seq![answer]) =~= seq![access_of(write, answer)]);
}

impl BoxedBackend {
    /// The device, which nothing but the methods below can reach.
    pub closed spec fn device(&self) -> Device {
        self.device
    }

    /// All accesses so far.
    pub closed spec fn log(&self) -> Seq<Access> {
        self.log@
    }

    /// Whether this stands in for a missing backend.
    pub open spec fn is_placeholder(&self) -> bool {
        self.device() is Placeholder
    }

    /// A backend that nothing was asked of yet.
    pub fn new(backend: Box<dyn EcBackend>) -> (r: Self)
        ensures
            r.device() == Device::Real(backend),
            r.log() == Seq::<Access>::empty(),
    {
        BoxedBackend { device: Device::Real(backend), log: Ghost(Seq::empty()) }
    }

    /// The placeholder for a missing backend.
    pub fn placeholder() -> (r: Self)
        ensures
            r.is_placeholder(),
            r.log() == Seq::<Access>::empty(),
    {
        BoxedBackend { device: Device::Placeholder(NullBackend), log: Ghost(Seq::empty()) }
    }

    /// The name of the backend.
    pub fn name(&self) -> (r: &'static str)
        ensures
            self.device().named(r@),
    {
        match &self.device {
            Device::Real(backend) => backend_name(&**backend),
            Device::Placeholder(null) => null.name(),
        }
    }

    /// Whether this is the placeholder for a missing backend.
    pub fn is_null(&self) -> (r: bool)
        ensures
            self.device().says_null(r),
            self.is_placeholder() ==> r,
    {
        match &self.device {
            Device::Real(backend) => backend_is_null(&**backend),
            Device::Placeholder(null) => null.is_null(),
        }
    }

    /// The preference that the backend satisfies.
    pub fn preference(&self) -> (r: BackendPreference)
        ensures
            self.device().says_preference(r),
    {
        match &self.device {
            Device::Real(backend) => backend_preference(&**backend),
            Device::Placeholder(null) => null.preference(),
        }
    }

    /// Whether any limit from 0 to 100 can be set, and not a fixed set of limits only.
    pub fn supports_continuous_charge_limit(&self) -> (r: bool)
        ensures
            self.device().says_continuous(r),
    {
        match &self.device {
            Device::Real(backend) => backend_is_continuous(&**backend),
            Device::Placeholder(null) => null.supports_continuous_charge_limit(),
        }
    }

    /// Whether the backend has to be created anew before it works again.
    pub fn needs_rebuild(&self) -> (r: bool)
        ensures
            self.device().says_rebuild(r),
    {
        match &self.device {
            Device::Real(backend) => backend_needs_rebuild(&**backend),
            Device::Placeholder(null) => null.needs_rebuild(),
        }
    }

    /// Writes a charge limit: one access.
    pub fn set_charge_limit(&mut self, percent: u8) -> (r: Result<(), EcError>)
        ensures
            recorded(*old(self), *final(self), seq![Access::SetLimit(percent, r)]),
    {
        let r = match &self.device {
            Device::Real(backend) => write_limit(&**backend, percent),
            Device::Placeholder(null) => null.set_charge_limit(percent),
        };
        self.log = Ghost(self.log@ + seq![Access::SetLimit(percent, r)]);
        r
    }

    /// Writes the care bit: one access.
    pub fn set_battery_care(&mut self, enabled: bool) -> (r: Result<(), EcError>)
        ensures
            recorded(*old(self), *final(self), seq![Access::SetCare(enabled, r)]),
    {
        let r = match &self.device {
            Device::Real(backend) => write_care(&**backend, enabled),
            Device::Placeholder(null) => null.set_battery_care(enabled),
        };
        self.log = Ghost(self.log@ + seq![Access::SetCare(enabled, r)]);
        r
    }

    /// Writes the code of a performance mode: one access.
    pub fn set_performance_mode(&mut self, mode: u8) -> (r: Result<(), EcError>)
        ensures
            recorded(*old(self), *final(self), seq![Access::SetMode(mode, r)]),
    {
        let r = match &self.device {
            Device::Real(backend) => write_mode(&**backend, mode),
            Device::Placeholder(null) => null.set_performance_mode(mode),
        };
        self.log = Ghost(self.log@ + seq![Access::SetMode(mode, r)]);
        r
    }

    /// Reads whether battery care is on: one access.
    pub fn get_battery_care_enabled(&mut self) -> (r: Result<bool, EcError>)
        ensures
            recorded(*old(self), *final(self), seq![Access::GetCare(r)]),
    {
        let r = match &self.device {
            Device::Real(backend) => read_care(&**backend),
            Device::Placeholder(null) => null.get_battery_care_enabled(),
        };
        self.log = Ghost(self.log@ + seq![Access::GetCare(r)]);
        r
    }

    /// Reads the charge limit: one access.
    pub fn get_charge_limit(&mut self) -> (r: Result<u8, EcError>)
        ensures
            recorded(*old(self), *final(self), seq![Access::GetLimit(r)]),
    {
        let r = match &self.device {
            Device::Real(backend) => read_limit(&**backend),
            Device::Placeholder(null) => null.get_charge_limit(),
        };
        self.log = Ghost(self.log@ + seq![Access::GetLimit(r)]);
        r
    }

    /// Reads battery care and the charge limit together: one access.
    pub fn get_battery_state(&mut self) -> (r: Result<(bool, u8), EcError>)
        ensures
            recorded(*old(self), *final(self), seq![Access::GetState(r)]),
    {
        let r = match &self.device {
            Device::Real(backend) => read_state(&**backend),
            Device::Placeholder(null) => null.get_battery_state(),
        };
        self.log = Ghost(self.log@ + seq![Access::GetState(r)]);
        r
    }

    /// Reads the code of the performance mode: one access.
    pub fn get_performance_mode(&mut self) -> (r: Result<u8, EcError>)
        ensures
            recorded(*old(self), *final(self), seq![Access::GetMode(r)]),
    {
        let r = match &self.device {
            Device::Real(backend) => read_mode(&**backend),
            Device::Placeholder(null) => null.get_performance_mode(),
        };
        self.log = Ghost(self.log@ + seq![Access::GetMode(r)]);
        r
    }

    /// Writes a setting, whatever the backend answers: one access.
    pub fn write(&mut self, write: HardwareWrite)
        ensures
            wrote(*old(self), *final(self), seq![write]),
    {
        let _answer = match write {
            HardwareWrite::Limit(percent) => self.set_charge_limit(percent),
            HardwareWrite::Care(enabled) => self.set_battery_care(enabled),
            HardwareWrite::Mode(mode) => self.set_performance_mode(mode),
        };
        proof {
            lemma_wrote_one(*old(self), *self, write, _answer);
        }
    }
}

fn backend_name<B: EcBackend + ?Sized>(backend: &B) -> (r: &'static str)
    ensures
        is_named(backend, r@),
{
    backend.name()
}

fn backend_is_null<B: EcBackend + ?Sized>(backend: &B) -> (r: bool)
    ensures
        says_null(backend, r),
{
    backend.is_null()
}

fn backend_preference<B: EcBackend + ?Sized>(backend: &B) -> (r: BackendPreference)
    ensures
        says_preference(backend, r),
{
    backend.preference()
}

fn backend_is_continuous<B: EcBackend + ?Sized>(backend: &B) -> (r: bool)
    ensures
        says_continuous(backend, r),
{
    backend.supports_continuous_charge_limit()
}

fn backend_needs_rebuild<B: EcBackend + ?Sized>(backend: &B) -> (r: bool)
    ensures
        says_rebuild(backend, r),
{
    backend.needs_rebuild()
}

fn write_limit<B: EcBackend + ?Sized>(backend: &B, percent: u8) -> (r: Result<(), EcError>)
    ensures
        gives(backend, Access::SetLimit(percent, r)),
{
    backend.set_charge_limit(percent)
}

fn write_care<B: EcBackend + ?Sized>(backend: &B, enabled: bool) -> (r: Result<(), EcError>)
    ensures
        gives(backend, Access::SetCare(enabled, r)),
{
    backend.set_battery_care(enabled)
}

fn write_mode<B: EcBackend + ?Sized>(backend: &B, mode: u8) -> (r: Result<(), EcError>)
    ensures
        gives(backend, Access::SetMode(mode, r)),
{
    backend.set_performance_mode(mode)
}

fn read_care<B: EcBackend + ?Sized>(backend: &B) -> (r: Result<bool, EcError>)
    ensures
        gives(backend, Access::GetCare(r)),
{
    backend.get_battery_care_enabled()
}

fn read_limit<B: EcBackend + ?Sized>(backend: &B) -> (r: Result<u8, EcError>)
    ensures
        gives(backend, Access::GetLimit(r)),
{
    backend.get_charge_limit()
}

fn read_state<B: EcBackend + ?Sized>(backend: &B) -> (r: Result<(bool, u8), EcError>)
    ensures
        gives(backend, Access::GetState(r)),
{
    backend.get_battery_state()
}

fn read_mode<B: EcBackend + ?Sized>(backend: &B) -> (r: Result<u8, EcError>)
    ensures
        gives(backend, Access::GetMode(r)),
{
    backend.get_performance_mode()
}

// ── Opening backends ──

/// One request to a factory, and what it gave.
pub enum Opening {
    /// A backend for a preference.
    Create(BackendPreference, Result<BoxedBackend, EcError>),
    /// The placeholder.
    Placeholder(BoxedBackend),
}

/// The factory gives this.
pub open spec fn opens<F: EcBackendFactory + ?Sized>(factory: &F, opening: Opening) -> bool {
    match opening {
        Opening::Create(pref, r) => call_ensures(F::create, (factory, pref), r),
        Opening::Placeholder(r) => call_ensures(F::null_backend, (factory,), r),
    }
}

/// A factory with the record of all requests to it. The factory can be reached only
/// through the methods below.
pub struct Opener<'a, F: EcBackendFactory + ?Sized> {
    factory: &'a F,
    log: Ghost<Seq<Opening>>,
}

/// Between `before` and `after` exactly these requests were made, in this order, and the
/// factory gave what it gives.
pub open spec fn requested<F: EcBackendFactory + ?Sized>(
    before: Opener<F>,
    after: Opener<F>,
    openings: Seq<Opening>,
) -> bool {
    &&& after.factory() == before.factory()
    &&& after.log() == before.log() + openings
    &&& forall|i: int| 0 <= i < openings.len() ==> opens(before.factory(), #[trigger] openings[i])
}

/// What is requested step by step is requested in one.
pub proof fn lemma_requested_then<F: EcBackendFactory + ?Sized>(
    a: Opener<F>,
    b: Opener<F>,
    c: Opener<F>,
    first: Seq<Opening>,
    second: Seq<Opening>,
)
    requires
        requested(a, b, first),
        requested(b, c, second),
    ensures
        requested(a, c, first + second),
{
    assert(a.log() + (first + second) =~= a.log() + first + second);
}

impl<'a, F: EcBackendFactory + ?Sized> Opener<'a, F> {
    /// The factory.
    pub closed spec fn factory(&self) -> &'a F {
        self.factory
    }

    /// All requests so far.
    pub closed spec fn log(&self) -> Seq<Opening> {
        self.log@
    }

    /// A factory that nothing was requested of yet.
    pub fn new(factory: &'a F) -> (r: Self)
        ensures
            r.factory() == factory,
            r.log() == Seq::<Opening>::empty(),
    {
        Opener { factory, log: Ghost(Seq::empty()) }
    }

    /// Requests a backend for a preference.
    pub fn create(&mut self, pref: BackendPreference) -> (r: Result<BoxedBackend, EcError>)
        ensures
            requested(*old(self), *final(self), seq![Opening::Create(pref, r)]),
    {
        let r = self.factory.create(pref);
        self.log = Ghost(self.log@ + seq![Opening::Create(pref, r)]);
        r
    }

    /// Requests the placeholder.
    pub fn null_backend(&mut self) -> (r: BoxedBackend)
        ensures
            requested(*old(self), *final(self), seq![Opening::Placeholder(r)]),
    {
        let r = self.factory.null_backend();
        self.log = Ghost(self.log@ + seq![Opening::Placeholder(r)]);
        r
    }
}

// ── Laws ──

/// Every access to the placeholder is refused.
pub proof fn law_placeholder_refuses(
    before: BoxedBackend,
    after: BoxedBackend,
    accesses: Seq<Access>,
    i: int,
)
    requires
        before.is_placeholder(),
        recorded(before, after, accesses),
        0 <= i < accesses.len(),
    ensures
        after.is_placeholder(),
        is_refused(accesses[i]),
{
    assert(before.device().answers(accesses[i]));
}

/// What was written as a list of settings is that list, answers or not.
pub proof fn law_writes_are_the_list(
    list: Seq<HardwareWrite>,
    answers: Seq<Result<(), EcError>>,
)
    requires
        answers.len() == list.len(),
    ensures
        writes(answered(list, answers)) == list,
    decreases list.len(),
{
    let all = answered(list, answers);
    if list.len() > 0 {
        law_writes_are_the_list(list.drop_last(), answers.drop_last());
        assert(all.drop_last() =~= answered(list.drop_last(), answers.drop_last()));
        assert(writes(all) =~= list);
    } else {
        assert(writes(all) =~= list);
    }
}

/// Where a list of settings was written, the record has grown by one entry for each of them:
/// what was recorded before is still there, and each new entry hands the setting of its place
/// to the backend, as it is.
pub proof fn law_each_setting_reaches_the_backend(
    before: BoxedBackend,
    after: BoxedBackend,
    list: Seq<HardwareWrite>,
    i: int,
)
    requires
        wrote(before, after, list),
        0 <= i < list.len(),
    ensures
        ({
            let n = before.log().len() as int;
            let entry = after.log()[n + i];
            &&& after.device() == before.device()
            &&& after.log().len() == n + list.len()
            &&& after.log().take(n) == before.log()
            &&& before.device().answers(entry)
            &&& list[i] matches HardwareWrite::Limit(p) ==> (entry matches Access::SetLimit(q, _)
                && q == p)
            &&& list[i] matches HardwareWrite::Care(b) ==> (entry matches Access::SetCare(c, _)
                && c == b)
            &&& list[i] matches HardwareWrite::Mode(m) ==> (entry matches Access::SetMode(k, _)
                && k == m)
        }),
{
    let answers = choose|answers: Seq<Result<(), EcError>>|
        answers.len() == list.len() && recorded(before, after, #[trigger] answered(list, answers));
    let new = answered(list, answers);
    assert(after.log() =~= before.log() + new);
    assert(after.log().take(before.log().len() as int) =~= before.log());
    assert(before.device().answers(new[i]));
}

/// Nothing was written: the record is what it was.
pub proof fn law_nothing_written_nothing_recorded(before: BoxedBackend, after: BoxedBackend)
    requires
        wrote(before, after, Seq::empty()),
    ensures
        after.log() == before.log(),
        after.device() == before.device(),
{
    let answers = choose|answers: Seq<Result<(), EcError>>|
        answers.len() == 0 && recorded(
            before,
            after,
            #[trigger] answered(Seq::<HardwareWrite>::empty(), answers),
        );
    assert(after.log() =~= before.log());
}

/// An entry of the record is answered as the method of the backend answers that has its
/// name, called with the value that the entry holds.
pub proof fn law_entries_are_calls<B: EcBackend + ?Sized>(
    backend: &B,
    percent: u8,
    enabled: bool,
    mode: u8,
    done: Result<(), EcError>,
    care: Result<bool, EcError>,
    code: Result<u8, EcError>,
    state: Result<(bool, u8), EcError>,
)
    ensures
        gives(backend, Access::SetLimit(percent, done)) ==> call_ensures(
            B::set_charge_limit,
            (backend, percent),
            done,
        ),
        gives(backend, Access::SetCare(enabled, done)) ==> call_ensures(
            B::set_battery_care,
            (backend, enabled),
            done,
        ),
        gives(backend, Access::SetMode(mode, done)) ==> call_ensures(
            B::set_performance_mode,
            (backend, mode),
            done,
        ),
        gives(backend, Access::GetCare(care)) ==> call_ensures(
            B::get_battery_care_enabled,
            (backend,),
            care,
        ),
        gives(backend, Access::GetLimit(code)) ==> call_ensures(
            B::get_charge_limit,
            (backend,),
            code,
        ),
        gives(backend, Access::GetState(state)) ==> call_ensures(
            B::get_battery_state,
            (backend,),
            state,
        ),
        gives(backend, Access::GetMode(code)) ==> call_ensures(
            B::get_performance_mode,
            (backend,),
            code,
        ),
{
}

/// The placeholder answers nothing: every write and every reading fails with the same error,
/// and it says of itself that it is a placeholder, satisfies any preference, cannot be set
/// freely and need not be created anew.
pub proof fn law_placeholder_answers_nothing(
    backend: BoxedBackend,
    percent: u8,
    enabled: bool,
    mode: u8,
    done: Result<(), EcError>,
    code: Result<u8, EcError>,
)
    requires
        backend.is_placeholder(),
    ensures
        backend.device().answers(Access::SetLimit(percent, done)) ==> (done matches Err(e)
            && e@ == EcErrorView::BackendUnavailable("无可用后端"@)),
        backend.device().answers(Access::SetCare(enabled, done)) ==> (done matches Err(e)
            && e@ == EcErrorView::BackendUnavailable("无可用后端"@)),
        backend.device().answers(Access::SetMode(mode, done)) ==> (done matches Err(e)
            && e@ == EcErrorView::BackendUnavailable("无可用后端"@)),
        backend.device().answers(Access::GetLimit(code)) ==> (code matches Err(e)
            && e@ == EcErrorView::BackendUnavailable("无可用后端"@)),
        backend.device().answers(Access::GetMode(code)) ==> (code matches Err(e)
            && e@ == EcErrorView::BackendUnavailable("无可用后端"@)),
        backend.device().named("无后端"@),
        !backend.device().says_null(false),
        backend.device().says_preference(BackendPreference::Auto),
        !backend.device().says_continuous(true),
        !backend.device().says_rebuild(true),
{
}

/// Every write through a backend adds one entry to its record, which holds the value as it was
/// given and the answer as it is returned; and the backend gave that answer.
pub proof fn law_writes_are_recorded(
    a: &mut BoxedBackend,
    percent: u8,
    x: Result<(), EcError>,
    b: &mut BoxedBackend,
    enabled: bool,
    y: Result<(), EcError>,
    c: &mut BoxedBackend,
    mode: u8,
    z: Result<(), EcError>,
)
    requires
        call_ensures(BoxedBackend::set_charge_limit, (a, percent), x),
        call_ensures(BoxedBackend::set_battery_care, (b, enabled), y),
        call_ensures(BoxedBackend::set_performance_mode, (c, mode), z),
    ensures
        final(a).log() == old(a).log().push(Access::SetLimit(percent, x)),
        final(b).log() == old(b).log().push(Access::SetCare(enabled, y)),
        final(c).log() == old(c).log().push(Access::SetMode(mode, z)),
        final(a).device() == old(a).device(),
        final(b).device() == old(b).device(),
        final(c).device() == old(c).device(),
        old(a).device().answers(Access::SetLimit(percent, x)),
        old(b).device().answers(Access::SetCare(enabled, y)),
        old(c).device().answers(Access::SetMode(mode, z)),
{
    lemma_one_entry(*old(a), *final(a), Access::SetLimit(percent, x));
    lemma_one_entry(*old(b), *final(b), Access::SetCare(enabled, y));
    lemma_one_entry(*old(c), *final(c), Access::SetMode(mode, z));
}

/// Every reading through a backend adds one entry to its record, which holds the answer as it
/// is returned; and the backend gave that answer.
pub proof fn law_readings_are_recorded(
    a: &mut BoxedBackend,
    w: Result<bool, EcError>,
    b: &mut BoxedBackend,
    x: Result<u8, EcError>,
    c: &mut BoxedBackend,
    y: Result<(bool, u8), EcError>,
    d: &mut BoxedBackend,
    z: Result<u8, EcError>,
)
    requires
        call_ensures(BoxedBackend::get_battery_care_enabled, (a,), w),
        call_ensures(BoxedBackend::get_charge_limit, (b,), x),
        call_ensures(BoxedBackend::get_battery_state, (c,), y),
        call_ensures(BoxedBackend::get_performance_mode, (d,), z),
    ensures
        final(a).log() == old(a).log().push(Access::GetCare(w)),
        final(b).log() == old(b).log().push(Access::GetLimit(x)),
        final(c).log() == old(c).log().push(Access::GetState(y)),
        final(d).log() == old(d).log().push(Access::GetMode(z)),
        old(a).device().answers(Access::GetCare(w)),
        old(b).device().answers(Access::GetLimit(x)),
        old(c).device().answers(Access::GetState(y)),
        old(d).device().answers(Access::GetMode(z)),
{
    lemma_one_entry(*old(a), *final(a), Access::GetCare(w));
    lemma_one_entry(*old(b), *final(b), Access::GetLimit(x));
    lemma_one_entry(*old(c), *final(c), Access::GetState(y));
    lemma_one_entry(*old(d), *final(d), Access::GetMode(z));
}

proof fn lemma_one_entry(before: BoxedBackend, after: BoxedBackend, access: Access)
    requires
        recorded(before, after, seq![access]),
    ensures
        after.log() == before.log().push(access),
        after.device() == before.device(),
        before.device().answers(access),
{
    assert(after.log() =~= before.log().push(access));
    assert(before.device().answers(seq![access][0]));
}

/// What a backend says of itself is what its device says; and of a new placeholder nothing was
/// asked yet.
pub proof fn law_backends_speak_for_their_device(
    null: BoxedBackend,
    backend: BoxedBackend,
    name: &'static str,
    is_null: bool,
    pref: BackendPreference,
    continuous: bool,
    rebuild: bool,
)
    requires
        call_ensures(BoxedBackend::placeholder, (), null),
        call_ensures(BoxedBackend::name, (&backend,), name),
        call_ensures(BoxedBackend::is_null, (&backend,), is_null),
        call_ensures(BoxedBackend::preference, (&backend,), pref),
        call_ensures(BoxedBackend::supports_continuous_charge_limit, (&backend,), continuous),
        call_ensures(BoxedBackend::needs_rebuild, (&backend,), rebuild),
    ensures
        null.is_placeholder(),
        null.log().len() == 0,
        backend.device().named(name@),
        backend.device().says_null(is_null),
        backend.device().says_preference(pref),
        backend.device().says_continuous(continuous),
        backend.device().says_rebuild(rebuild),
        backend.is_placeholder() ==> name@ == "无后端"@ && is_null && pref
            == BackendPreference::Auto && !continuous && !rebuild,
{
}

/// Writing a setting hands it to the backend as it is, and every request to a factory is
/// recorded with what it gave.
pub proof fn law_requests_are_recorded<F: EcBackendFactory + ?Sized>(
    backend: &mut BoxedBackend,
    write: HardwareWrite,
    x: (),
    a: &mut Opener<F>,
    pref: BackendPreference,
    y: Result<BoxedBackend, EcError>,
    b: &mut Opener<F>,
    z: BoxedBackend,
)
    requires
        call_ensures(BoxedBackend::write, (backend, write), x),
        call_ensures(Opener::<F>::create, (a, pref), y),
        call_ensures(Opener::<F>::null_backend, (b,), z),
    ensures
        ({
            let entry = final(backend).log().last();
            &&& final(backend).log().len() == old(backend).log().len() + 1
            &&& final(backend).log().drop_last() == old(backend).log()
            &&& write matches HardwareWrite::Limit(p) ==> (entry matches Access::SetLimit(q, _)
                && q == p)
            &&& write matches HardwareWrite::Care(p) ==> (entry matches Access::SetCare(q, _) && q
                == p)
            &&& write matches HardwareWrite::Mode(p) ==> (entry matches Access::SetMode(q, _) && q
                == p)
        }),
        final(a).log() == old(a).log().push(Opening::Create(pref, y)),
        final(b).log() == old(b).log().push(Opening::Placeholder(z)),
        call_ensures(F::create, (old(a).factory(), pref), y),
        call_ensures(F::null_backend, (old(b).factory(),), z),
{
    law_each_setting_reaches_the_backend(*old(backend), *final(backend), seq![write], 0);
    assert(final(backend).log().drop_last() =~= old(backend).log());
    let p = *old(a);
    let q = *old(b);
    assert(final(a).log() =~= p.log().push(Opening::Create(pref, y)));
    assert(final(b).log() =~= q.log().push(Opening::Placeholder(z)));
    assert(opens(p.factory(), seq![Opening::Create(pref, y)][0]));
    assert(opens(q.factory(), seq![Opening::Placeholder(z)][0]));
}

} // verus!
