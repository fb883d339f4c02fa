//! The function key watcher: which event classes it subscribes to, what it does with an
//! event, and when it starts over.

use crate::app::command::{UiCommand, UiCommandView};
use crate::app::fnkey::{
    action_command, backoff_secs, bindings_view, capture_event_gate, find_binding,
    first_triggered, fn_k_binding, key_identity, known_fn_keys, known_key_view, known_keys,
    law_first_binding_wins, lemma_hex_bytes, lemma_normalized_hex_digits,
    no_event_classes_backoff_secs, normalize_hex, normalized_hex, triggers, FnAction, FnKeyBinding,
    FnKeyBindingView, KnownFnKey, CAPTURE_FORWARD_MIN_NS,
};
use crate::app::recent::{elapsed, younger, RecentKeys};
use crate::app::sink::{lemma_sent_nothing, lemma_sent_then, sent, CommandSink, Outbox};
use crate::app::startup::text_view;
use crate::text;
use vstd::prelude::*;

verus! {

// ── Event classes ──

/// A list of texts, each by its characters.
pub open spec fn texts(v: Seq<String>) -> Seq<Seq<char>> {
    v.map_values(|s: String| s@)
}

/// Every text comes before the next ones; so none occurs twice.
pub open spec fn is_sorted(v: Seq<Seq<char>>) -> bool {
    forall|i: int, j: int| 0 <= i < j < v.len() ==> text::text_less(#[trigger] v[i], #[trigger] v[j])
}

/// The classes of a list of bindings.
pub open spec fn classes_of(bindings: Seq<FnKeyBindingView>) -> Set<Seq<char>> {
    bindings.map_values(|b: FnKeyBindingView| b.class).to_set()
}

/// The classes of the known keys.
pub open spec fn known_classes() -> Set<Seq<char>> {
    known_keys().map_values(|k: (Seq<char>, Seq<char>, Seq<char>)| k.0).to_set()
}

/// The classes to subscribe to: those of the bindings, and while keys are captured those
/// of the known keys too.
pub open spec fn wanted_classes(bindings: Seq<FnKeyBindingView>, capturing: bool) -> Set<Seq<char>> {
    if capturing {
        classes_of(bindings).union(known_classes())
    } else {
        classes_of(bindings)
    }
}

/// `v` lists a set in order, each element once.
pub open spec fn lists(v: Seq<String>, set: Set<Seq<char>>) -> bool {
    is_sorted(texts(v)) && texts(v).to_set() == set
}

/// Adds a text to a list in order, unless it is there.
fn insert_sorted(v: &mut Vec<String>, s: &str)
    requires
        is_sorted(texts(old(v)@)),
    ensures
        lists(final(v)@, texts(old(v)@).to_set().insert(s@)),
{
    let ghost before = texts(v@);
    let mut i: usize = 0;
    while i < v.len() && text::str_less(v[i].as_str(), s)
        invariant
            i <= v@.len(),
            *v == *old(v),
            before == texts(v@),
            forall|k: int| 0 <= k < i ==> text::text_less(#[trigger] before[k], s@),
        decreases v@.len() - i,
    {
        assert(before[i as int] == v@[i as int]@);
        i = i + 1;
    }
    if i < v.len() && text::str_eq(v[i].as_str(), s) {
        assert(before[i as int] == s@);
        assert(before.to_set() =~= before.to_set().insert(s@));
        return;
    }
    v.insert(i, text::copy_str(s));
    let ghost after = texts(v@);
    proof {
        assert(after =~= before.insert(i as int, s@));
        if i < before.len() {
            assert(before[i as int] == old(v)@[i as int]@);
            text::lemma_text_less_total(s@, before[i as int]);
        }
        assert forall|a: int, b: int| 0 <= a < b < after.len() implies text::text_less(
            #[trigger] after[a],
            #[trigger] after[b],
        ) by {
            if a < i && b < i {
                assert(after[a] == before[a] && after[b] == before[b]);
            } else if a < i && b == i {
                assert(after[a] == before[a]);
            } else if a < i && b > i {
                assert(after[a] == before[a] && after[b] == before[b - 1]);
            } else if a == i {
                assert(after[b] == before[b - 1]);
                if b - 1 > i {
                    assert(text::text_less(before[i as int], before[b - 1]));
                    text::lemma_text_less_transitive(s@, before[i as int], before[b - 1]);
                }
            } else {
                assert(after[a] == before[a - 1] && after[b] == before[b - 1]);
            }
        }
        assert(after.to_set() =~= before.to_set().insert(s@)) by {
            assert forall|x: Seq<char>| before.contains(x) implies after.contains(x) by {
                let k = choose|k: int| 0 <= k < before.len() && before[k] == x;
                if k < i {
                    assert(after[k] == x);
                } else {
                    assert(after[k + 1] == x);
                }
            }
            assert(after[i as int] == s@);
            assert forall|x: Seq<char>| after.contains(x) implies before.contains(x) || x == s@ by {
                let k = choose|k: int| 0 <= k < after.len() && after[k] == x;
                if k < i {
                    assert(before[k] == x);
                } else if k > i {
                    assert(before[k - 1] == x);
                }
            }
        }
    }
}

/// The event classes of a list of bindings, in order, each once.
pub fn binding_classes(bindings: &Vec<FnKeyBinding>) -> (r: Vec<String>)
    ensures
        lists(r@, classes_of(bindings_view(bindings@))),
{
    let ghost all = bindings_view(bindings@).map_values(|b: FnKeyBindingView| b.class);
    let mut out: Vec<String> = Vec::new();
    let mut i: usize = 0;
    assert(texts(out@).to_set() =~= all.take(0).to_set());
    while i < bindings.len()
        invariant
            i <= bindings@.len(),
            all == bindings_view(bindings@).map_values(|b: FnKeyBindingView| b.class),
            lists(out@, all.take(i as int).to_set()),
        decreases bindings@.len() - i,
    {
        let ghost before = all.take(i as int);
        insert_sorted(&mut out, bindings[i].class.as_str());
        proof {
            assert(all[i as int] == bindings@[i as int].class@);
            lemma_take_to_set(all, i as int);
        }
        i = i + 1;
    }
    assert(all.take(all.len() as int) =~= all);
    out
}

proof fn lemma_take_to_set(s: Seq<Seq<char>>, i: int)
    requires
        0 <= i < s.len(),
    ensures
        s.take(i + 1).to_set() == s.take(i).to_set().insert(s[i]),
{
    let a = s.take(i);
    let b = s.take(i + 1);
    assert forall|x: Seq<char>| a.contains(x) implies b.contains(x) by {
        let k = choose|k: int| 0 <= k < a.len() && a[k] == x;
        assert(b[k] == x);
    }
    assert(b[i] == s[i]);
    assert forall|x: Seq<char>| b.contains(x) implies a.contains(x) || x == s[i] by {
        let k = choose|k: int| 0 <= k < b.len() && b[k] == x;
        if k < i {
            assert(a[k] == x);
        }
    }
    assert(b.to_set() =~= a.to_set().insert(s[i]));
}

/// The event classes while keys are captured: those of the bindings and those of the
/// known keys, in order, each once. Capturing is for keys that are not bound yet, so the
/// bindings alone would not do.
pub fn capture_classes(bindings: &Vec<FnKeyBinding>) -> (r: Vec<String>)
    ensures
        lists(r@, classes_of(bindings_view(bindings@)).union(known_classes())),
{
    let mut out = binding_classes(bindings);
    let known = known_fn_keys();
    let ghost bound = classes_of(bindings_view(bindings@));
    let ghost names = known_keys().map_values(|k: (Seq<char>, Seq<char>, Seq<char>)| k.0);
    let mut i: usize = 0;
    assert(bound.union(names.take(0).to_set()) =~= bound);
    while i < known.len()
        invariant
            i <= known@.len(),
            known@.map_values(|k: KnownFnKey| known_key_view(k)) == known_keys(),
            names == known_keys().map_values(|k: (Seq<char>, Seq<char>, Seq<char>)| k.0),
            lists(out@, bound.union(names.take(i as int).to_set())),
        decreases known@.len() - i,
    {
        insert_sorted(&mut out, known[i].class);
        proof {
            assert(known_keys()[i as int] == known_key_view(known@[i as int]));
            lemma_take_to_set(names, i as int);
            assert(bound.union(names.take(i as int).to_set()).insert(names[i as int])
                =~= bound.union(names.take(i + 1).to_set()));
        }
        i = i + 1;
    }
    assert(names.take(names.len() as int) =~= names);
    out
}

/// The event classes to subscribe to.
pub fn classes_to_watch(bindings: &Vec<FnKeyBinding>, capturing: bool) -> (r: Vec<String>)
    ensures
        lists(r@, wanted_classes(bindings_view(bindings@), capturing)),
{
    if capturing {
        capture_classes(bindings)
    } else {
        binding_classes(bindings)
    }
}

/// Whether two lists hold the same texts in the same order.
fn same_texts(a: &Vec<String>, b: &Vec<String>) -> (r: bool)
    ensures
        r == (texts(a@) == texts(b@)),
{
    if a.len() != b.len() {
        assert(texts(a@).len() != texts(b@).len());
        return false;
    }
    let mut i: usize = 0;
    while i < a.len()
        invariant
            i <= a@.len(),
            a@.len() == b@.len(),
            forall|k: int| 0 <= k < i ==> (#[trigger] a@[k])@ == b@[k]@,
        decreases a@.len() - i,
    {
        if !text::str_eq(a[i].as_str(), b[i].as_str()) {
            assert(texts(a@)[i as int] != texts(b@)[i as int]);
            return false;
        }
        i = i + 1;
    }
    assert(texts(a@) =~= texts(b@));
    true
}

/// A copy of a list of texts.
fn copy_texts(v: &Vec<String>) -> (r: Vec<String>)
    ensures
        r@ == v@,
{
    let mut out: Vec<String> = Vec::new();
    let mut i: usize = 0;
    while i < v.len()
        invariant
            i <= v@.len(),
            out@ == v@.take(i as int),
        decreases v@.len() - i,
    {
        out.push(v[i].clone());
        assert(v@.take(i + 1) =~= v@.take(i as int).push(v@[i as int]));
        i = i + 1;
    }
    assert(v@.take(v@.len() as int) =~= v@);
    out
}

// ── The loop of the watcher ──

/// After how many rounds without any subscription the watcher starts over.
pub const MAX_EMPTY_ROUNDS: u32 = 6;

/// Why a watcher stops.
#[derive(Debug)]
pub enum WatcherError {
    /// None of the classes can be subscribed to.
    NoEventClasses,
    /// The connection is lost, for this reason.
    Reconnect(String),
}

/// What a watcher does next.
pub enum RoundStep {
    /// Subscribe to these classes and report how many subscriptions there are.
    Subscribe(Vec<String>),
    /// Nothing is bound and nothing captured: look again in a second.
    Idle,
    /// No class could be subscribed to: try again in five seconds.
    RetryLater,
    /// Start over.
    Stop(WatcherError),
    /// Ask every subscription for an event.
    Poll,
}

/// The watcher between two rounds.
pub struct Watcher {
    /// The classes that it has subscribed to, or has tried to.
    pub classes: Vec<String>,
    /// How many subscriptions there are.
    pub subscriptions: usize,
    /// How many rounds in a row there was none.
    pub empty_rounds: u32,
}

/// A watcher, with its classes by their characters.
pub struct WatcherView {
    pub classes: Seq<Seq<char>>,
    pub subscriptions: usize,
    pub empty_rounds: u32,
}

impl View for Watcher {
    type V = WatcherView;

    open spec fn view(&self) -> WatcherView {
        WatcherView {
            classes: texts(self.classes@),
            subscriptions: self.subscriptions,
            empty_rounds: self.empty_rounds,
        }
    }
}

impl WatcherView {
    /// It has not counted past the limit.
    pub open spec fn wf(self) -> bool {
        self.empty_rounds < MAX_EMPTY_ROUNDS
    }

    /// The watcher after the subscriptions are settled, in a round that captures or not,
    /// and the kind of step it takes.
    pub open spec fn settle(self, capturing: bool) -> (WatcherView, StepKind) {
        if self.subscriptions > 0 {
            (WatcherView { empty_rounds: 0, ..self }, StepKind::Poll)
        } else if self.classes.len() == 0 && !capturing {
            (self, StepKind::Idle)
        } else if self.empty_rounds + 1 >= MAX_EMPTY_ROUNDS {
            (
                WatcherView { empty_rounds: (self.empty_rounds + 1) as u32, ..self },
                StepKind::Stop,
            )
        } else {
            (
                WatcherView { empty_rounds: (self.empty_rounds + 1) as u32, ..self },
                StepKind::RetryLater,
            )
        }
    }
}

/// The kinds of step other than to subscribe.
pub enum StepKind {
    Idle,
    RetryLater,
    Stop,
    Poll,
}

/// The step is of the kind.
pub open spec fn has_kind(step: RoundStep, kind: StepKind) -> bool {
    match kind {
        StepKind::Idle => step is Idle,
        StepKind::RetryLater => step is RetryLater,
        StepKind::Stop => step matches RoundStep::Stop(e) && e is NoEventClasses,
        StepKind::Poll => step is Poll,
    }
}

impl Watcher {
    /// A watcher that has subscribed to nothing yet.
    pub fn new() -> (r: Self)
        ensures
            r@ == (WatcherView { classes: Seq::empty(), subscriptions: 0, empty_rounds: 0 }),
            r@.wf(),
    {
        let r = Watcher { classes: Vec::new(), subscriptions: 0, empty_rounds: 0 };
        assert(texts(r.classes@) =~= Seq::<Seq<char>>::empty());
        r
    }

    /// The step for settled subscriptions.
    fn settled(&mut self, capturing: bool) -> (r: RoundStep)
        requires
            old(self)@.wf(),
        ensures
            final(self)@ == old(self)@.settle(capturing).0,
            has_kind(r, old(self)@.settle(capturing).1),
            r !is Stop ==> final(self)@.wf(),
    {
        if self.subscriptions > 0 {
            self.empty_rounds = 0;
            return RoundStep::Poll;
        }
        if self.classes.len() == 0 && !capturing {
            return RoundStep::Idle;
        }
        self.empty_rounds = self.empty_rounds + 1;
        if self.empty_rounds >= MAX_EMPTY_ROUNDS {
            RoundStep::Stop(WatcherError::NoEventClasses)
        } else {
            RoundStep::RetryLater
        }
    }

    /// Begins a round: where the classes to watch have changed they are subscribed to
    /// anew; else the subscriptions stay.
    ///
    /// With nothing bound and nothing captured it is in order that there is no
    /// subscription. Otherwise, after six rounds without one, the machine does not have
    /// these classes, or not yet, and the watcher starts over.
    pub fn begin_round(&mut self, bindings: &Vec<FnKeyBinding>, capturing: bool) -> (r: RoundStep)
        requires
            old(self)@.wf(),
        ensures
            exists|wanted: Vec<String>|
                #![trigger texts(wanted@)]
                lists(wanted@, wanted_classes(bindings_view(bindings@), capturing)) && if texts(
                    wanted@,
                ) != old(self)@.classes {
                    &&& final(self)@ == (WatcherView {
                        classes: texts(wanted@),
                        subscriptions: 0,
                        empty_rounds: 0,
                    })
                    &&& r matches RoundStep::Subscribe(classes) && texts(classes@) == texts(wanted@)
                } else {
                    &&& final(self)@ == old(self)@.settle(capturing).0
                    &&& has_kind(r, old(self)@.settle(capturing).1)
                },
            r !is Stop ==> final(self)@.wf(),
    {
        let wanted = classes_to_watch(bindings, capturing);
        let ghost wanted_texts = texts(wanted@);
        if !same_texts(&wanted, &self.classes) {
            let copy = copy_texts(&wanted);
            self.classes = wanted;
            self.subscriptions = 0;
            self.empty_rounds = 0;
            return RoundStep::Subscribe(copy);
        }
        assert(wanted_texts == texts(wanted@));
        self.settled(capturing)
    }

    /// Takes the number of subscriptions after subscribing anew.
    pub fn subscribed(&mut self, subscriptions: usize, capturing: bool) -> (r: RoundStep)
        requires
            old(self)@.wf(),
        ensures
            final(self)@ == (WatcherView { subscriptions, ..old(self)@ }).settle(capturing).0,
            has_kind(r, (WatcherView { subscriptions, ..old(self)@ }).settle(capturing).1),
            r !is Stop ==> final(self)@.wf(),
    {
        self.subscriptions = subscriptions;
        self.settled(capturing)
    }

    /// Takes the number of subscriptions after one of them has failed and all were
    /// subscribed to anew. Where there is none left the connection is lost.
    pub fn resubscribed(&mut self, subscriptions: usize) -> (r: Result<(), WatcherError>)
        ensures
            final(self)@ == (WatcherView { subscriptions, ..old(self)@ }),
            match r {
                Ok(_) => subscriptions > 0,
                Err(WatcherError::Reconnect(reason)) => subscriptions == 0 && reason@
                    == "WMI enumerator failed and resubscribe returned nothing; rebuilding connection"@,
                Err(WatcherError::NoEventClasses) => false,
            },
    {
        self.subscriptions = subscriptions;
        if subscriptions == 0 {
            Err(
                WatcherError::Reconnect(
                    text::copy_str(
                        "WMI enumerator failed and resubscribe returned nothing; rebuilding connection",
                    ),
                ),
            )
        } else {
            Ok(())
        }
    }
}

/// The query that subscribes to an event class.
pub fn subscription_query(class: &str) -> (r: String)
    ensures
        r@ == "SELECT * FROM "@ + class@,
{
    let mut out = text::copy_str("SELECT * FROM ");
    out.append(class);
    out
}

/// How many times in a row a watcher has stopped for want of event classes, and how many
/// seconds to wait before the next one starts.
pub open spec fn restart(stale_cycles: u32, error: WatcherError) -> (u32, u64) {
    match error {
        WatcherError::NoEventClasses => {
            let n = if stale_cycles == u32::MAX {
                stale_cycles
            } else {
                (stale_cycles + 1) as u32
            };
            (n, backoff_secs(n))
        },
        WatcherError::Reconnect(_) => (0, 5),
    }
}

/// Decides after a watcher has stopped how long to wait before the next one starts.
///
/// A lost connection comes back soon, so the wait is short. Missing classes may never
/// come, so the waits grow.
pub fn after_watcher_stopped(stale_cycles: u32, error: &WatcherError) -> (r: (u32, u64))
    ensures
        r == restart(stale_cycles, *error),
{
    match error {
        WatcherError::NoEventClasses => {
            let n: u32 = if stale_cycles == u32::MAX {
                stale_cycles
            } else {
                stale_cycles + 1
            };
            (n, no_event_classes_backoff_secs(n))
        },
        WatcherError::Reconnect(_) => (0, 5),
    }
}

// ── Events ──

/// What came of an event.
pub enum Dispatch {
    /// No binding matches.
    Unmatched,
    /// A binding has taken the event.
    Consumed,
    /// A binding asks for this command to be run.
    Run(Option<String>),
}

impl Dispatch {
    /// Whether a binding has taken the event.
    pub fn is_consumed(&self) -> (r: bool)
        ensures
            r == !(self is Unmatched),
    {
        !matches!(self, Dispatch::Unmatched)
    }
}

/// What is decided about an event.
pub enum Decision {
    /// No binding matches.
    Unmatched,
    /// A binding asks for this command to be sent.
    Send(UiCommand),
    /// A binding asks for this command to be run.
    Run(Option<String>),
    /// A binding without an action has taken the event.
    Consumed,
}

/// A decision with its texts as sequences of characters.
pub enum DecisionView {
    Unmatched,
    Send(UiCommandView),
    Run(Option<Seq<char>>),
    Consumed,
}

impl View for Decision {
    type V = DecisionView;

    open spec fn view(&self) -> DecisionView {
        match self {
            Decision::Unmatched => DecisionView::Unmatched,
            Decision::Send(command) => DecisionView::Send(command@),
            Decision::Run(command) => DecisionView::Run(text_view(*command)),
            Decision::Consumed => DecisionView::Consumed,
        }
    }
}

/// What is decided about an event, given the binding that it triggers: its action is sent,
/// if it is one that is sent, or its command is run.
pub open spec fn decision_for(triggered: Option<FnKeyBindingView>) -> DecisionView {
    match triggered {
        None => DecisionView::Unmatched,
        Some(b) => match action_command(b.action) {
            Some(command) => DecisionView::Send(command),
            None => if b.action == FnAction::RunCommand {
                DecisionView::Run(b.command)
            } else {
                DecisionView::Consumed
            },
        },
    }
}

/// Decides about an event by the first binding that it triggers.
pub fn decide_event(class_name: &str, normalized: &str, bindings: &Vec<FnKeyBinding>) -> (r:
    Decision)
    ensures
        r@ == decision_for(
            first_triggered(bindings_view(bindings@), class_name@, normalized@),
        ),
{
    let i: usize = match find_binding(bindings, class_name, normalized) {
        Some(i) => i,
        None => return Decision::Unmatched,
    };
    let action = bindings[i].action;
    if action == FnAction::RunCommand {
        let command = match &bindings[i].command {
            Some(s) => Some(s.clone()),
            None => None,
        };
        return Decision::Run(command);
    }
    match action.as_ui_command() {
        Some(command) => Decision::Send(command),
        None => Decision::Consumed,
    }
}

/// The commands that a decision sends: one or none.
pub open spec fn commands_of(decision: DecisionView) -> Seq<UiCommandView> {
    match decision {
        DecisionView::Send(command) => seq![command],
        _ => Seq::empty(),
    }
}

/// What comes of an event about which this was decided.
pub open spec fn is_outcome(decision: DecisionView, r: Dispatch) -> bool {
    match decision {
        DecisionView::Unmatched => r is Unmatched,
        DecisionView::Send(_) => r is Consumed,
        DecisionView::Run(command) => r matches Dispatch::Run(c) && text_view(c) == command,
        DecisionView::Consumed => r is Consumed,
    }
}

/// Does what the first binding says that an event triggers. A binding without an action
/// takes the event all the same.
pub fn dispatch_bindings<S: CommandSink + ?Sized>(
    class_name: &str,
    normalized: &str,
    bindings: &Vec<FnKeyBinding>,
    outbox: &mut Outbox<S>,
) -> (r: Dispatch)
    ensures
        ({
            let decision = decision_for(
                first_triggered(bindings_view(bindings@), class_name@, normalized@),
            );
            sent(*old(outbox), *final(outbox), commands_of(decision)) && is_outcome(decision, r)
        }),
{
    proof {
        lemma_sent_nothing(*outbox);
    }
    match decide_event(class_name, normalized, bindings) {
        Decision::Unmatched => Dispatch::Unmatched,
        Decision::Send(command) => {
            outbox.dispatch(command);
            Dispatch::Consumed
        },
        Decision::Run(command) => Dispatch::Run(command),
        Decision::Consumed => Dispatch::Consumed,
    }
}

/// The commands that an event shows to the user: one while keys are captured, unless the
/// same key was shown a moment ago.
pub open spec fn shown_commands(
    class_name: Seq<char>,
    normalized: Seq<char>,
    capturing: bool,
    held: Map<Seq<char>, u64>,
) -> Seq<UiCommandView> {
    if capturing && !held.contains_key(key_identity(class_name, normalized)) {
        seq![UiCommandView::FnEventSeen { class: class_name, hex: normalized }]
    } else {
        Seq::empty()
    }
}

/// Handles an event with the report `report_hex`.
///
/// While keys are captured the event is shown to the user, unless the same key was shown
/// a moment ago. Then the first binding that it triggers is done.
pub fn process_event<S: CommandSink + ?Sized>(
    class_name: &str,
    report_hex: &str,
    bindings: &Vec<FnKeyBinding>,
    capturing: bool,
    recent: &mut RecentKeys,
    now_ns: u64,
    outbox: &mut Outbox<S>,
) -> (r: Dispatch)
    requires
        old(recent).wf(),
    ensures
        final(recent).wf(),
        ({
            let normalized = normalized_hex(report_hex@);
            let key = key_identity(class_name@, normalized);
            let held = younger(old(recent)@, now_ns, CAPTURE_FORWARD_MIN_NS);
            let decision = decision_for(
                first_triggered(bindings_view(bindings@), class_name@, normalized),
            );
            &&& !capturing ==> final(recent)@ == old(recent)@
            &&& capturing && held.contains_key(key) ==> final(recent)@ == held
            &&& capturing && !held.contains_key(key) ==> final(recent)@ == held.insert(key, now_ns)
            &&& sent(
                *old(outbox),
                *final(outbox),
                shown_commands(class_name@, normalized, capturing, held) + commands_of(decision),
            )
            &&& is_outcome(decision, r)
        }),
{
    let normalized = normalize_hex(report_hex);
    let ghost a = *outbox;
    proof {
        lemma_normalized_hex_digits(report_hex@);
        lemma_hex_bytes(normalized_hex(report_hex@));
        lemma_sent_nothing(*outbox);
    }
    if capturing {
        if capture_event_gate(recent, now_ns, class_name, normalized.as_str()) {
            outbox.dispatch(
                UiCommand::FnEventSeen {
                    class: text::copy_str(class_name),
                    hex: normalized.clone(),
                },
            );
        }
    }
    let ghost b = *outbox;
    let r = dispatch_bindings(class_name, normalized.as_str(), bindings, outbox);
    proof {
        let held = younger(old(recent)@, now_ns, CAPTURE_FORWARD_MIN_NS);
        let decision = decision_for(
            first_triggered(bindings_view(bindings@), class_name@, normalized@),
        );
        lemma_sent_then(
            a,
            b,
            *outbox,
            shown_commands(class_name@, normalized@, capturing, held),
            commands_of(decision),
        );
    }
    r
}

// ── Commands of bindings ──

/// For how long a command is not started a second time, in nanoseconds.
pub const RUN_COMMAND_DEBOUNCE_NS: u64 = 1_000_000_000;

/// A command that was started less than the given time ago.
pub open spec fn is_running_twice(recent: Map<Seq<char>, u64>, now: u64, command: Seq<char>) -> bool {
    recent.contains_key(command) && elapsed(now, recent[command]) < RUN_COMMAND_DEBOUNCE_NS
}

/// Whether a command was started a moment ago, so that it is not started again. If it was
/// not, its start is noted.
pub fn debounce_duplicate(recent: &mut RecentKeys, now_ns: u64, command: &str) -> (r: bool)
    requires
        old(recent).wf(),
    ensures
        final(recent).wf(),
        r == is_running_twice(old(recent)@, now_ns, command@),
        final(recent)@ == if r {
            old(recent)@
        } else {
            old(recent)@.insert(command@, now_ns)
        },
{
    if let Some(last) = recent.get(command) {
        let age: u64 = now_ns.saturating_sub(last);
        if age < RUN_COMMAND_DEBOUNCE_NS {
            return true;
        }
    }
    recent.note(command, now_ns);
    false
}

/// What to do about the command of a binding.
pub enum CommandStep {
    /// There is none.
    Skip,
    /// It was started a moment ago.
    Debounced,
    /// Start it.
    Start(String),
}

/// A command without the white space around it; none if nothing is left.
pub open spec fn command_line(command: Option<Seq<char>>) -> Option<Seq<char>> {
    match command {
        Some(s) => if text::trimmed(s).len() == 0 {
            None
        } else {
            Some(text::trimmed(s))
        },
        None => None,
    }
}

/// Decides about the command of a binding. A missing or blank one is skipped, and one that
/// was started a moment ago is not started again: firmware may report a key twice.
pub fn run_external_command(
    recent: &mut RecentKeys,
    now_ns: u64,
    command: &Option<String>,
) -> (r: CommandStep)
    requires
        old(recent).wf(),
    ensures
        final(recent).wf(),
        match command_line(text_view(*command)) {
            None => r is Skip && final(recent)@ == old(recent)@,
            Some(line) => if is_running_twice(old(recent)@, now_ns, line) {
                r is Debounced && final(recent)@ == old(recent)@
            } else {
                &&& r matches CommandStep::Start(s) && s@ == line
                &&& final(recent)@ == old(recent)@.insert(line, now_ns)
            },
        },
{
    let line = match command {
        Some(s) => text::trim(s.as_str()),
        None => return CommandStep::Skip,
    };
    if line.as_str().is_empty() {
        return CommandStep::Skip;
    }
    if debounce_duplicate(recent, now_ns, line.as_str()) {
        return CommandStep::Debounced;
    }
    CommandStep::Start(line)
}

/// Bytes as hexadecimal digits, two to a byte.
pub open spec fn hex_of_bytes(bytes: Seq<u8>) -> Seq<char>
    decreases bytes.len(),
{
    if bytes.len() == 0 {
        Seq::empty()
    } else {
        hex_of_bytes(bytes.drop_last()) + text::hex_of_byte(bytes.last())
    }
}

/// The bytes of an event as hexadecimal digits; none if there are no bytes.
pub fn bytes_to_hex(bytes: Option<&[u8]>) -> (r: Option<String>)
    ensures
        match bytes {
            Some(b) if b@.len() > 0 => r matches Some(s) && s@ == hex_of_bytes(b@),
            _ => r is None,
        },
{
    match bytes {
        None => None,
        Some(b) => {
            if b.len() == 0 {
                return None;
            }
            let mut out = String::new();
            let mut i: usize = 0;
            while i < b.len()
                invariant
                    i <= b@.len(),
                    out@ == hex_of_bytes(b@.take(i as int)),
                decreases b@.len() - i,
            {
                text::push_hex_of_byte(&mut out, b[i]);
                assert(b@.take(i + 1).drop_last() =~= b@.take(i as int));
                i = i + 1;
            }
            assert(b@.take(b@.len() as int) =~= b@);
            Some(out)
        },
    }
}

// ── Laws ──

proof fn lemma_listing_is_unique(a: Seq<Seq<char>>, b: Seq<Seq<char>>)
    requires
        is_sorted(a),
        is_sorted(b),
        a.to_set() == b.to_set(),
    ensures
        a == b,
    decreases a.len(),
{
    if a.len() == 0 {
        if b.len() > 0 {
            assert(b.to_set().contains(b[0]));
            assert(a.to_set().contains(b[0]));
        }
        assert(a =~= b);
    } else {
        assert(a.to_set().contains(a.last()));
        assert(b.contains(a.last()));
        assert(b.len() > 0);
        assert(b.to_set().contains(b.last()));
        assert(a.contains(b.last()));
        let i = choose|i: int| 0 <= i < b.len() && b[i] == a.last();
        let j = choose|j: int| 0 <= j < a.len() && a[j] == b.last();
        if i < b.len() - 1 {
            assert(text::text_less(b[i], b[b.len() - 1]));
            if j < a.len() - 1 {
                assert(text::text_less(a[j], a[a.len() - 1]));
                text::lemma_text_less_transitive(a.last(), b.last(), a.last());
            }
            text::lemma_text_less_irreflexive(a.last());
        }
        assert(a.last() == b.last());
        let fa = a.drop_last();
        let fb = b.drop_last();
        assert forall|x: Seq<char>| fa.contains(x) implies fb.contains(x) by {
            lemma_front_membership(a, b, x);
        }
        assert forall|x: Seq<char>| fb.contains(x) implies fa.contains(x) by {
            lemma_front_membership(b, a, x);
        }
        assert(fa.to_set() =~= fb.to_set());
        assert forall|p: int, q: int| 0 <= p < q < fa.len() implies text::text_less(
            #[trigger] fa[p],
            #[trigger] fa[q],
        ) by {
            assert(text::text_less(a[p], a[q]));
        }
        assert forall|p: int, q: int| 0 <= p < q < fb.len() implies text::text_less(
            #[trigger] fb[p],
            #[trigger] fb[q],
        ) by {
            assert(text::text_less(b[p], b[q]));
        }
        lemma_listing_is_unique(fa, fb);
        assert(a =~= fa.push(a.last()));
        assert(b =~= fb.push(b.last()));
    }
}

proof fn lemma_front_membership(a: Seq<Seq<char>>, b: Seq<Seq<char>>, x: Seq<char>)
    requires
        is_sorted(a),
        a.to_set() == b.to_set(),
        a.len() > 0,
        b.len() > 0,
        a.last() == b.last(),
        a.drop_last().contains(x),
    ensures
        b.drop_last().contains(x),
{
    let k = choose|k: int| 0 <= k < a.drop_last().len() && a.drop_last()[k] == x;
    assert(a[k] == x);
    assert(a.to_set().contains(x));
    assert(b.contains(x));
    let m = choose|m: int| 0 <= m < b.len() && b[m] == x;
    if m == b.len() - 1 {
        assert(text::text_less(a[k], a[a.len() - 1]));
        text::lemma_text_less_irreflexive(x);
    }
    assert(b.drop_last()[m] == x);
}

/// There is one way to list a set of classes. So the watcher subscribes anew exactly if
/// the set of classes has changed, however the bindings are ordered.
pub proof fn law_listing_is_unique(a: Seq<String>, b: Seq<String>, set: Set<Seq<char>>)
    requires
        lists(a, set),
        lists(b, set),
    ensures
        texts(a) == texts(b),
{
    lemma_listing_is_unique(texts(a), texts(b));
}

/// While keys are captured every class of a binding and of a known key is watched, also
/// with no binding at all.
pub proof fn law_capture_watches_known_classes(bindings: Seq<FnKeyBindingView>)
    ensures
        known_classes().subset_of(wanted_classes(bindings, true)),
        classes_of(bindings).subset_of(wanted_classes(bindings, true)),
        wanted_classes(bindings, false) == classes_of(bindings),
{
}

/// A watcher stops for want of classes only after six rounds in a row without one: the
/// count goes up by one each time, and a subscription sets it back.
pub proof fn law_watcher_stops_after_empty_rounds(w: WatcherView, capturing: bool)
    requires
        w.wf(),
    ensures
        w.settle(capturing).1 is Stop <==> w.empty_rounds == MAX_EMPTY_ROUNDS - 1
            && w.subscriptions == 0 && (w.classes.len() > 0 || capturing),
        w.subscriptions > 0 ==> w.settle(capturing).0.empty_rounds == 0,
        w.settle(capturing).1 is RetryLater ==> w.settle(capturing).0.empty_rounds
            == w.empty_rounds + 1,
{
}

/// A command that was just started is not started again within the given time, and is
/// after it.
pub proof fn law_debounce_window(
    before: Map<Seq<char>, u64>,
    command: Seq<char>,
    then: u64,
    now: u64,
)
    requires
        then <= now,
    ensures
        is_running_twice(before.insert(command, then), now, command) <==> now - then
            < RUN_COMMAND_DEBOUNCE_NS,
{
}

/// Every byte gives two digits, and the digits are in normal form.
pub proof fn law_bytes_to_hex_is_normal(bytes: Seq<u8>)
    ensures
        hex_of_bytes(bytes).len() == 2 * bytes.len(),
        normalized_hex(hex_of_bytes(bytes)) == hex_of_bytes(bytes),
{
    lemma_hex_of_bytes_digits(bytes);
    crate::app::fnkey::lemma_normalized_hex_fixed(hex_of_bytes(bytes));
}

proof fn lemma_hex_of_bytes_digits(bytes: Seq<u8>)
    ensures
        hex_of_bytes(bytes).len() == 2 * bytes.len(),
        forall|i: int|
            0 <= i < hex_of_bytes(bytes).len() ==> text::is_upper_hex_char(
                #[trigger] hex_of_bytes(bytes)[i],
            ),
    decreases bytes.len(),
{
    if bytes.len() > 0 {
        lemma_hex_of_bytes_digits(bytes.drop_last());
    }
}

/// An event that no binding matches, and one whose binding has no action or runs a
/// command, sends nothing; any other sends one command.
pub proof fn law_an_event_sends_at_most_one_command(triggered: Option<FnKeyBindingView>)
    ensures
        commands_of(decision_for(triggered)).len() <= 1,
        commands_of(decision_for(triggered)).len() == 1 <==> (triggered matches Some(b)
            && action_command(b.action) is Some),
{
}

/// A class is listed exactly if a binding has it, or, while keys are captured, if it is the
/// class of the known keys. The list is in order and names no class twice.
pub proof fn law_watched_classes(
    bindings: Vec<FnKeyBinding>,
    capturing: bool,
    r: Vec<String>,
    class: Seq<char>,
)
    requires
        call_ensures(classes_to_watch, (&bindings, capturing), r),
    ensures
        (exists|i: int| 0 <= i < r@.len() && (#[trigger] r@[i])@ == class) <==> (capturing && class
            == "HID_EVENT20"@) || exists|k: int|
            0 <= k < bindings@.len() && (#[trigger] bindings@[k]).class@ == class,
        forall|i: int, j: int|
            0 <= i < j < r@.len() ==> text::text_less((#[trigger] r@[i])@, (#[trigger] r@[j])@),
{
    let set = wanted_classes(bindings_view(bindings@), capturing);
    assert forall|i: int, j: int| 0 <= i < j < r@.len() implies text::text_less(
        (#[trigger] r@[i])@,
        (#[trigger] r@[j])@,
    ) by {
        assert(texts(r@)[i] == r@[i]@ && texts(r@)[j] == r@[j]@);
    }
    lemma_listed(r@, class);
    lemma_wanted(bindings, capturing, class);
    assert(texts(r@).to_set().contains(class) == set.contains(class));
}

proof fn lemma_listed(v: Seq<String>, class: Seq<char>)
    ensures
        texts(v).to_set().contains(class) <==> exists|i: int|
            0 <= i < v.len() && (#[trigger] v[i])@ == class,
{
    if texts(v).to_set().contains(class) {
        let i = choose|i: int| 0 <= i < texts(v).len() && texts(v)[i] == class;
        assert(v[i]@ == class);
    }
    if exists|i: int| 0 <= i < v.len() && (#[trigger] v[i])@ == class {
        let i = choose|i: int| 0 <= i < v.len() && (#[trigger] v[i])@ == class;
        assert(texts(v)[i] == class);
    }
}

proof fn lemma_wanted(bindings: Vec<FnKeyBinding>, capturing: bool, class: Seq<char>)
    ensures
        wanted_classes(bindings_view(bindings@), capturing).contains(class) <==> (capturing
            && class == "HID_EVENT20"@) || exists|k: int|
            0 <= k < bindings@.len() && (#[trigger] bindings@[k]).class@ == class,
{
    let bound = bindings_view(bindings@).map_values(|b: FnKeyBindingView| b.class);
    if bound.to_set().contains(class) {
        let k = choose|k: int| 0 <= k < bound.len() && bound[k] == class;
        assert(bindings@[k].class@ == class);
    }
    if exists|k: int| 0 <= k < bindings@.len() && (#[trigger] bindings@[k]).class@ == class {
        let k = choose|k: int|
            0 <= k < bindings@.len() && (#[trigger] bindings@[k]).class@ == class;
        assert(bound[k] == class);
    }
    let known = known_keys().map_values(|k: (Seq<char>, Seq<char>, Seq<char>)| k.0);
    assert(known[0] == "HID_EVENT20"@);
    if known.to_set().contains(class) {
        let k = choose|k: int| 0 <= k < known.len() && known[k] == class;
        assert(known_keys()[k].0 == "HID_EVENT20"@);
    }
}

/// A round of the watcher. Either it subscribes anew, to the classes to watch, and counts from
/// zero; or the classes are what they were. Then it polls if there is a subscription, and
/// counts from zero. Without one it idles if nothing is to be watched and nothing captured;
/// and otherwise it counts the round, and the sixth in a row stops it.
pub proof fn law_rounds_of_the_watcher(
    w: &mut Watcher,
    bindings: Vec<FnKeyBinding>,
    capturing: bool,
    r: RoundStep,
)
    requires
        call_ensures(Watcher::begin_round, (w, &bindings, capturing), r),
        old(w).empty_rounds < 6,
    ensures
        r matches RoundStep::Subscribe(classes) ==> {
            &&& texts(classes@) != texts(old(w).classes@)
            &&& texts(final(w).classes@) == texts(classes@)
            &&& final(w).subscriptions == 0
            &&& final(w).empty_rounds == 0
            &&& lists(classes@, wanted_classes(bindings_view(bindings@), capturing))
        },
        r !is Subscribe ==> {
            &&& lists(old(w).classes@, wanted_classes(bindings_view(bindings@), capturing))
            &&& texts(final(w).classes@) == texts(old(w).classes@)
            &&& final(w).subscriptions == old(w).subscriptions
            &&& r is Poll <==> old(w).subscriptions > 0
            &&& r is Poll ==> final(w).empty_rounds == 0
            &&& r is Idle <==> old(w).subscriptions == 0 && old(w).classes@.len() == 0 && !capturing
            &&& r is Idle ==> final(w).empty_rounds == old(w).empty_rounds
            &&& r is Stop || r is RetryLater ==> final(w).empty_rounds == old(w).empty_rounds + 1
            &&& r is Stop <==> old(w).subscriptions == 0 && (old(w).classes@.len() > 0 || capturing)
                && old(w).empty_rounds == 5
            &&& r matches RoundStep::Stop(e) ==> e is NoEventClasses
        },
{
    let set = wanted_classes(bindings_view(bindings@), capturing);
    let before = old(w)@;
    let after = final(w)@;
    let wanted = choose|wanted: Vec<String>|
        #![trigger texts(wanted@)]
        lists(wanted@, set) && if texts(wanted@) != before.classes {
            &&& after == (WatcherView {
                classes: texts(wanted@),
                subscriptions: 0,
                empty_rounds: 0,
            })
            &&& r matches RoundStep::Subscribe(classes) && texts(classes@) == texts(wanted@)
        } else {
            &&& after == before.settle(capturing).0
            &&& has_kind(r, before.settle(capturing).1)
        };
    assert(before.classes.len() == old(w).classes@.len());
    assert(after.subscriptions == final(w).subscriptions && after.empty_rounds
        == final(w).empty_rounds && after.classes == texts(final(w).classes@));
}

/// After subscribing the watcher goes on as in a round in which the classes stay, with the new
/// number of subscriptions.
pub proof fn law_after_subscribing(
    w: &mut Watcher,
    subscriptions: usize,
    capturing: bool,
    r: RoundStep,
)
    requires
        call_ensures(Watcher::subscribed, (w, subscriptions, capturing), r),
        old(w).empty_rounds < 6,
    ensures
        final(w).subscriptions == subscriptions,
        texts(final(w).classes@) == texts(old(w).classes@),
        r !is Subscribe,
        r is Poll <==> subscriptions > 0,
        r is Poll ==> final(w).empty_rounds == 0,
        r is Idle <==> subscriptions == 0 && old(w).classes@.len() == 0 && !capturing,
        r is Idle ==> final(w).empty_rounds == old(w).empty_rounds,
        r is Stop || r is RetryLater ==> final(w).empty_rounds == old(w).empty_rounds + 1,
        r is Stop <==> subscriptions == 0 && (old(w).classes@.len() > 0 || capturing)
            && old(w).empty_rounds == 5,
        r matches RoundStep::Stop(e) ==> e is NoEventClasses,
{
    let before = old(w)@;
    let after = final(w)@;
    assert(before.classes.len() == old(w).classes@.len());
    assert(after.subscriptions == final(w).subscriptions && after.empty_rounds
        == final(w).empty_rounds && after.classes == texts(final(w).classes@));
}

/// A new watcher watches nothing. After a failed subscription the connection is lost exactly
/// if none is left.
pub proof fn law_lost_connection(
    fresh: Watcher,
    w: &mut Watcher,
    subscriptions: usize,
    r: Result<(), WatcherError>,
)
    requires
        call_ensures(Watcher::new, (), fresh),
        call_ensures(Watcher::resubscribed, (w, subscriptions), r),
    ensures
        fresh.classes@.len() == 0,
        fresh.subscriptions == 0,
        fresh.empty_rounds == 0,
        final(w).subscriptions == subscriptions,
        texts(final(w).classes@) == texts(old(w).classes@),
        final(w).empty_rounds == old(w).empty_rounds,
        r is Ok <==> subscriptions > 0,
        r is Err ==> r->Err_0 is Reconnect,
{
    let none = fresh@;
    assert(none.classes.len() == fresh.classes@.len());
    assert(none.subscriptions == fresh.subscriptions && none.empty_rounds == fresh.empty_rounds);
    let after = final(w)@;
    assert(after.subscriptions == final(w).subscriptions && after.empty_rounds
        == final(w).empty_rounds && after.classes == texts(final(w).classes@));
}

/// The wait before the next watcher. A lost connection is tried again after five seconds and
/// counts from zero. Missing classes are counted, and the wait grows with the count: five
/// seconds up to the third time, half a minute up to the twentieth, and then a minute.
pub proof fn law_wait_before_the_next_watcher(
    stale_cycles: u32,
    error: WatcherError,
    r: (u32, u64),
)
    requires
        call_ensures(after_watcher_stopped, (stale_cycles, &error), r),
    ensures
        error is Reconnect ==> r == (0u32, 5u64),
        error is NoEventClasses && stale_cycles < u32::MAX ==> r.0 == stale_cycles + 1,
        error is NoEventClasses && stale_cycles == u32::MAX ==> r.0 == stale_cycles,
        error is NoEventClasses && stale_cycles <= 2 ==> r.1 == 5,
        error is NoEventClasses && 3 <= stale_cycles <= 19 ==> r.1 == 30,
        error is NoEventClasses && stale_cycles >= 20 ==> r.1 == 60,
{
}

/// The query for a class selects everything from it.
pub proof fn law_query_for_a_class(class: &str, r: String)
    requires
        call_ensures(subscription_query, (class,), r),
    ensures
        r@ == "SELECT * FROM "@ + class@,
{
}

/// What is decided about an event by the first binding that it triggers, by the action of that
/// binding: the command that it sends, the command line that it runs, or nothing. Without a
/// binding the event is unmatched.
pub proof fn law_decision_by_action(
    class_name: &str,
    normalized: &str,
    bindings: Vec<FnKeyBinding>,
    r: Decision,
    at: int,
)
    requires
        call_ensures(decide_event, (class_name, normalized, &bindings), r),
        0 <= at <= bindings@.len(),
        forall|k: int|
            0 <= k < at ==> !triggers((#[trigger] bindings@[k])@, class_name@, normalized@),
        at < bindings@.len() ==> triggers(bindings@[at]@, class_name@, normalized@),
    ensures
        r is Unmatched <==> at == bindings@.len(),
        at < bindings@.len() ==> {
            let b = bindings@[at];
            &&& b.action == FnAction::CyclePerfMode ==> (r matches Decision::Send(c)
                && c is CyclePerfMode)
            &&& b.action == FnAction::ToggleBatteryCare ==> (r matches Decision::Send(c)
                && c is ToggleBatteryCare)
            &&& b.action == FnAction::ReapplyConfig ==> (r matches Decision::Send(c)
                && c is ReapplyConfigManual)
            &&& b.action == FnAction::RunCommand ==> (r matches Decision::Run(line) && text_view(
                line,
            ) == text_view(b.command))
            &&& b.action == FnAction::NoAction ==> r is Consumed
        },
{
    let all = bindings_view(bindings@);
    let before = all.take(at);
    assert forall|i: int| 0 <= i < before.len() implies !triggers(
        #[trigger] before[i],
        class_name@,
        normalized@,
    ) by {
        assert(before[i] == bindings@[i]@);
    }
    if at < bindings@.len() {
        let b = all[at];
        assert(b == bindings@[at]@);
        law_first_binding_wins(before, b, all.skip(at + 1), class_name@, normalized@);
        assert(before + seq![b] + all.skip(at + 1) =~= all);
    } else {
        law_first_binding_wins(before, fn_k_binding(), Seq::empty(), class_name@, normalized@);
        assert(before =~= all);
    }
}

/// What an event sends, by its first binding: the one command of an action that has one, and
/// otherwise nothing. It is taken exactly if a binding matches, and the command line of a
/// binding is handed on to be run.
pub proof fn law_dispatch_by_action<S: CommandSink + ?Sized>(
    class_name: &str,
    normalized: &str,
    bindings: Vec<FnKeyBinding>,
    outbox: &mut Outbox<S>,
    r: Dispatch,
    consumed: bool,
    at: int,
)
    requires
        call_ensures(dispatch_bindings::<S>, (class_name, normalized, &bindings, outbox), r),
        call_ensures(Dispatch::is_consumed, (&r,), consumed),
        0 <= at <= bindings@.len(),
        forall|k: int|
            0 <= k < at ==> !triggers((#[trigger] bindings@[k])@, class_name@, normalized@),
        at < bindings@.len() ==> triggers(bindings@[at]@, class_name@, normalized@),
    ensures
        consumed <==> at < bindings@.len(),
        at == bindings@.len() ==> final(outbox).log() == old(outbox).log(),
        at < bindings@.len() ==> {
            let b = bindings@[at];
            &&& b.action == FnAction::CyclePerfMode ==> final(outbox).log()
                == old(outbox).log().push(UiCommandView::CyclePerfMode) && r is Consumed
            &&& b.action == FnAction::ToggleBatteryCare ==> final(outbox).log()
                == old(outbox).log().push(UiCommandView::ToggleBatteryCare) && r is Consumed
            &&& b.action == FnAction::ReapplyConfig ==> final(outbox).log()
                == old(outbox).log().push(UiCommandView::ReapplyConfigManual) && r is Consumed
            &&& b.action == FnAction::RunCommand ==> final(outbox).log() == old(outbox).log() && (r
                matches Dispatch::Run(line) && text_view(line) == text_view(b.command))
            &&& b.action == FnAction::NoAction ==> final(outbox).log() == old(outbox).log()
                && r is Consumed
        },
{
    let all = bindings_view(bindings@);
    let before = all.take(at);
    let start = *old(outbox);
    let end = *final(outbox);
    assert forall|i: int| 0 <= i < before.len() implies !triggers(
        #[trigger] before[i],
        class_name@,
        normalized@,
    ) by {
        assert(before[i] == bindings@[i]@);
    }
    if at < bindings@.len() {
        let b = all[at];
        assert(b == bindings@[at]@);
        law_first_binding_wins(before, b, all.skip(at + 1), class_name@, normalized@);
        assert(before + seq![b] + all.skip(at + 1) =~= all);
        let commands = commands_of(decision_for(Some(b)));
        if commands.len() == 0 {
            assert(end.log() =~= start.log());
        } else {
            assert(end.log() =~= start.log().push(commands[0]));
        }
    } else {
        law_first_binding_wins(before, fn_k_binding(), Seq::empty(), class_name@, normalized@);
        assert(before =~= all);
        assert(end.log() =~= start.log());
    }
}

/// While keys are captured an event is shown to the user, with its class and its report in
/// normal form, exactly if its key was not shown less than 150 milliseconds ago. While none
/// are captured nothing is shown. What the first binding sends comes after that, captured or
/// not.
pub proof fn law_captured_events_are_shown(
    class: Seq<char>,
    normalized: Seq<char>,
    recent: Map<Seq<char>, u64>,
    now_ns: u64,
)
    ensures
        ({
            let held = younger(recent, now_ns, CAPTURE_FORWARD_MIN_NS);
            let key = key_identity(class, normalized);
            let fresh = !(recent.contains_key(key) && now_ns - recent[key] < 150_000_000);
            let shown = shown_commands(class, normalized, true, held);
            &&& fresh ==> shown.len() == 1 && shown[0] == (UiCommandView::FnEventSeen {
                class,
                hex: normalized,
            })
            &&& !fresh ==> shown.len() == 0
            &&& shown_commands(class, normalized, false, held).len() == 0
        }),
{
}

/// Outside of capturing, an event sends what its first binding sends, and the table of shown
/// keys stays. While keys are captured the same is sent, after one line that shows the event,
/// if its key was not shown less than 150 milliseconds ago; then it is noted.
pub proof fn law_capturing_adds_at_most_one_line<S: CommandSink + ?Sized>(
    class_name: &str,
    report_hex: &str,
    bindings: Vec<FnKeyBinding>,
    capturing: bool,
    recent: &mut RecentKeys,
    now_ns: u64,
    outbox: &mut Outbox<S>,
    r: Dispatch,
)
    requires
        call_ensures(
            process_event::<S>,
            (class_name, report_hex, &bindings, capturing, recent, now_ns, outbox),
            r,
        ),
    ensures
        ({
            let normalized = normalized_hex(report_hex@);
            let n = old(outbox).log().len() as int;
            let log = final(outbox).log();
            let triggered = first_triggered(bindings_view(bindings@), class_name@, normalized);
            let bound = commands_of(decision_for(triggered));
            let new = log.skip(n);
            let key = key_identity(class_name@, normalized);
            let held = old(recent)@.contains_key(key) && now_ns - old(recent)@[key] < 150_000_000;
            &&& log.take(n) == old(outbox).log()
            &&& !capturing ==> final(recent)@ == old(recent)@ && new == bound
            &&& capturing && held ==> new == bound
            &&& capturing && !held ==> new == seq![
                UiCommandView::FnEventSeen { class: class_name@, hex: normalized },
            ] + bound && final(recent)@.contains_key(key) && final(recent)@[key] == now_ns
            &&& r is Unmatched <==> triggered is None
        }),
{
    let normalized = normalized_hex(report_hex@);
    let held = younger(old(recent)@, now_ns, CAPTURE_FORWARD_MIN_NS);
    let bound = commands_of(
        decision_for(first_triggered(bindings_view(bindings@), class_name@, normalized)),
    );
    let shown = shown_commands(class_name@, normalized, capturing, held);
    let start = old(outbox).log();
    let end = final(outbox).log();
    assert(end =~= start + (shown + bound));
    assert(end.take(start.len() as int) =~= start);
    assert(end.skip(start.len() as int) =~= shown + bound);
    assert(Seq::<UiCommandView>::empty() + bound =~= bound);
}

/// A command line is started exactly if something is left of it without the white space around
/// it, and it was not started less than a second ago; then the start is noted. Otherwise the
/// table stays.
pub proof fn law_commands_are_started_once(
    recent: &mut RecentKeys,
    now_ns: u64,
    command: Option<String>,
    r: CommandStep,
)
    requires
        call_ensures(run_external_command, (recent, now_ns, &command), r),
    ensures
        command is None ==> r is Skip,
        command is Some && text::trimmed(command->0@).len() == 0 ==> r is Skip,
        command is Some && text::trimmed(command->0@).len() > 0 ==> {
            let line = text::trimmed(command->0@);
            let again = old(recent)@.contains_key(line) && now_ns - old(recent)@[line]
                < 1_000_000_000;
            &&& again ==> r is Debounced
            &&& !again ==> (r matches CommandStep::Start(s) && s@ == line)
            &&& !again ==> final(recent)@ == old(recent)@.insert(line, now_ns)
        },
        r !is Start ==> final(recent)@ == old(recent)@,
{
}

/// Whether a command was started less than a second ago, by the table, and what is noted.
pub proof fn law_debounce_by_call(
    recent: &mut RecentKeys,
    now_ns: u64,
    command: &str,
    r: bool,
)
    requires
        call_ensures(debounce_duplicate, (recent, now_ns, command), r),
    ensures
        r <==> old(recent)@.contains_key(command@) && now_ns - old(recent)@[command@]
            < 1_000_000_000,
        r ==> final(recent)@ == old(recent)@,
        !r ==> final(recent)@ == old(recent)@.insert(command@, now_ns),
{
}

/// Every byte is written as its two digits of base sixteen, at its place.
pub proof fn law_digits_of_bytes(bytes: Seq<u8>, i: int)
    requires
        0 <= i < bytes.len(),
    ensures
        hex_of_bytes(bytes).len() == 2 * bytes.len(),
        text::digit_value(hex_of_bytes(bytes)[2 * i]) * 16 + text::digit_value(
            hex_of_bytes(bytes)[2 * i + 1],
        ) == bytes[i],
    decreases bytes.len(),
{
    lemma_hex_of_bytes_digits(bytes);
    let front = bytes.drop_last();
    lemma_hex_of_bytes_digits(front);
    if i < front.len() {
        law_digits_of_bytes(front, i);
        assert(hex_of_bytes(bytes)[2 * i] == hex_of_bytes(front)[2 * i]);
        assert(hex_of_bytes(bytes)[2 * i + 1] == hex_of_bytes(front)[2 * i + 1]);
    } else {
        let two = text::hex_of_byte(bytes.last());
        assert(hex_of_bytes(bytes)[2 * i] == two[0]);
        assert(hex_of_bytes(bytes)[2 * i + 1] == two[1]);
        let b = bytes.last();
        assert(b == b / 16 * 16 + b % 16);
    }
}

/// The bytes of an event give a text exactly if there are any.
pub proof fn law_no_bytes_no_text(bytes: Option<&[u8]>, r: Option<String>)
    requires
        call_ensures(bytes_to_hex, (bytes,), r),
    ensures
        r is Some <==> bytes is Some && bytes->0@.len() > 0,
        r is Some ==> r->0@ == hex_of_bytes(bytes->0@),
{
}

/// The classes of bindings are listed exactly, and while keys are captured that of the known
/// keys as well.
pub proof fn law_listed_classes(
    bindings: Vec<FnKeyBinding>,
    bound: Vec<String>,
    captured: Vec<String>,
    class: Seq<char>,
)
    requires
        call_ensures(binding_classes, (&bindings,), bound),
        call_ensures(capture_classes, (&bindings,), captured),
    ensures
        (exists|i: int| 0 <= i < bound@.len() && (#[trigger] bound@[i])@ == class) <==> exists|
            k: int,
        | 0 <= k < bindings@.len() && (#[trigger] bindings@[k]).class@ == class,
        (exists|i: int| 0 <= i < captured@.len() && (#[trigger] captured@[i])@ == class) <==> class
            == "HID_EVENT20"@ || exists|k: int|
            0 <= k < bindings@.len() && (#[trigger] bindings@[k]).class@ == class,
{
    lemma_listed(bound@, class);
    lemma_listed(captured@, class);
    lemma_wanted(bindings, false, class);
    lemma_wanted(bindings, true, class);
    assert(texts(bound@).to_set() == wanted_classes(bindings_view(bindings@), false));
    assert(texts(captured@).to_set() == wanted_classes(bindings_view(bindings@), true));
}

/// The views of a watcher and of a decision keep all that they hold.
pub proof fn law_views_of_the_watcher(w: Watcher, d: Decision)
    ensures
        w@.subscriptions == w.subscriptions,
        w@.empty_rounds == w.empty_rounds,
        w@.classes.len() == w.classes@.len(),
        forall|i: int| 0 <= i < w.classes@.len() ==> #[trigger] w@.classes[i] == w.classes@[i]@,
        d is Unmatched <==> d@ is Unmatched,
        d is Consumed <==> d@ is Consumed,
        d matches Decision::Send(c) ==> d@ == DecisionView::Send(c@),
        d matches Decision::Run(Some(s)) ==> d@ == DecisionView::Run(Some(s@)),
        d matches Decision::Run(None) ==> d@ == DecisionView::Run(None),
{
}

} // verus!
