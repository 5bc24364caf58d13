//! Classifying radio events into a per-address discovery lifecycle.
use vstd::prelude::*;
use std::collections::HashMap;
use crate::addr::Addr;
use crate::error::Error;

verus! {

broadcast use vstd::std_specs::hash::group_hash_axioms;

/// Where a device stands in discovery.
#[derive(Clone, Copy, Debug, PartialEq, Eq, Structural)]
pub enum DeviceStatus {
    /// Seen advertising, not yet reported as new.
    Discovered,
    /// Reported (or filtered) once; later updates are plain updates.
    Updated,
}

/// An event of the radio, with the address it concerns.
#[derive(Clone, Copy, Debug, PartialEq, Eq, Structural)]
pub enum RadioEvent {
    Discovered(Addr),
    Lost(Addr),
    Updated(Addr),
    Connected(Addr),
    Disconnected(Addr),
}

/// A classified event, for the user.
#[derive(Clone, Copy, Debug, PartialEq, Eq, Structural)]
pub enum ScanReport {
    Advertised(Addr),
    Lost(Addr),
    Update(Addr),
    New(Addr),
}

/// What reaches the scanning loop.
#[derive(Clone, Copy, Debug, PartialEq, Eq, Structural)]
pub enum ScanInput {
    /// An event of the radio; `named` tells whether the device advertises a name.
    Radio { event: RadioEvent, named: bool },
    /// The user asked to stop.
    Cancelled,
    /// The adapter's event stream closed.
    StreamEnded,
}

/// What the scanning loop does next.
#[derive(Clone, Debug, PartialEq, Eq)]
pub enum ScanStep {
    /// Show these reports, in order, and keep scanning.
    Continue(Vec<ScanReport>),
    /// Stop scanning and return normally.
    Stop,
    /// Stop scanning with this failure.
    Fail(Error),
}

/// Whether an update of `a` is the first one since it was sighted.
pub open spec fn first_update(t: Map<u64, DeviceStatus>, a: Addr) -> bool {
    !t.contains_key(a.value) || t[a.value] == DeviceStatus::Discovered
}

/// The status table after `ev`.
pub open spec fn table_after(t: Map<u64, DeviceStatus>, ev: RadioEvent) -> Map<u64, DeviceStatus> {
    match ev {
        RadioEvent::Discovered(a) => if t.contains_key(a.value) {
            t
        } else {
            t.insert(a.value, DeviceStatus::Discovered)
        },
        RadioEvent::Lost(a) => t.remove(a.value),
        RadioEvent::Updated(a) => t.insert(a.value, DeviceStatus::Updated),
        _ => t,
    }
}

/// The reports that `ev` gives rise to, in the order they are shown.
pub open spec fn reports_for(
    verbose: bool,
    filter_unnamed: bool,
    t: Map<u64, DeviceStatus>,
    ev: RadioEvent,
    named: bool,
) -> Seq<ScanReport> {
    match ev {
        RadioEvent::Discovered(a) => if verbose {
            seq![ScanReport::Advertised(a)]
        } else {
            seq![]
        },
        RadioEvent::Lost(a) => seq![ScanReport::Lost(a)],
        RadioEvent::Updated(a) => (if verbose {
            seq![ScanReport::Update(a)]
        } else {
            seq![]
        }) + (if first_update(t, a) && (named || !filter_unnamed) {
            seq![ScanReport::New(a)]
        } else {
            seq![]
        }),
        _ => seq![],
    }
}

/// The working set of a scan.
pub struct ScanEngine {
    /// Report every advertisement and every update.
    pub verbose: bool,
    /// Keep devices without a name out of the "new" reports.
    pub filter_unnamed: bool,
    /// Status of each address in sight.
    pub table: HashMap<u64, DeviceStatus>,
    /// Cancellation has been seen.
    pub stopped: bool,
}

impl ScanEngine {
    /// A scan with nothing in sight yet.
    pub fn new(verbose: bool, filter_unnamed: bool) -> (r: ScanEngine)
        ensures
            r.verbose == verbose,
            r.filter_unnamed == filter_unnamed,
            r.table@ == Map::<u64, DeviceStatus>::empty(),
            !r.stopped,
    {
        ScanEngine { verbose, filter_unnamed, table: HashMap::new(), stopped: false }
    }

    /// Takes in one input and says what to show or whether to stop.
    pub fn step(&mut self, input: ScanInput) -> (r: ScanStep)
        ensures
            final(self).verbose == old(self).verbose,
            final(self).filter_unnamed == old(self).filter_unnamed,
            old(self).stopped ==> r == ScanStep::Stop && final(self).stopped
                && final(self).table@ == old(self).table@,
            !old(self).stopped ==> match input {
                ScanInput::Cancelled => r == ScanStep::Stop && final(self).stopped
                    && final(self).table@ == old(self).table@,
                ScanInput::StreamEnded => r == ScanStep::Fail(Error::AdapterStopped)
                    && !final(self).stopped && final(self).table@ == old(self).table@,
                ScanInput::Radio { event, named } => (r matches ScanStep::Continue(v) && v@
                    == reports_for(
                    old(self).verbose,
                    old(self).filter_unnamed,
                    old(self).table@,
                    event,
                    named,
                )) && !final(self).stopped && final(self).table@ == table_after(
                    old(self).table@,
                    event,
                ),
            },
    {
        if self.stopped {
            return ScanStep::Stop;
        }
        match input {
            ScanInput::Cancelled => {
                self.stopped = true;
                ScanStep::Stop
            },
            ScanInput::StreamEnded => ScanStep::Fail(Error::AdapterStopped),
            ScanInput::Radio { event, named } => {
                let mut out: Vec<ScanReport> = Vec::new();
                match event {
                    RadioEvent::Discovered(a) => {
                        if !self.table.contains_key(&a.value) {
                            self.table.insert(a.value, DeviceStatus::Discovered);
                        }
                        if self.verbose {
                            out.push(ScanReport::Advertised(a));
                        }
                    },
                    RadioEvent::Lost(a) => {
                        out.push(ScanReport::Lost(a));
                        self.table.remove(&a.value);
                    },
                    RadioEvent::Updated(a) => {
                        if self.verbose {
                            out.push(ScanReport::Update(a));
                        }
                        let first = match self.table.get(&a.value) {
                            Some(s) => *s == DeviceStatus::Discovered,
                            None => true,
                        };
                        if first && (named || !self.filter_unnamed) {
                            out.push(ScanReport::New(a));
                        }
                        self.table.insert(a.value, DeviceStatus::Updated);
                    },
                    _ => {},
                }
                assert(out@ =~= reports_for(
                    self.verbose,
                    self.filter_unnamed,
                    old(self).table@,
                    event,
                    named,
                ));
                ScanStep::Continue(out)
            },
        }
    }
}

/// The status table after `input`, from `t` with cancellation seen or not.
pub open spec fn input_table(t: Map<u64, DeviceStatus>, stopped: bool, input: ScanInput) -> Map<
    u64,
    DeviceStatus,
> {
    if stopped {
        t
    } else {
        match input {
            ScanInput::Radio { event, named } => table_after(t, event),
            _ => t,
        }
    }
}

/// Whether cancellation has been seen after `input`.
pub open spec fn input_stops(stopped: bool, input: ScanInput) -> bool {
    stopped || input == ScanInput::Cancelled
}

/// The reports shown for `input`.
pub open spec fn input_reports(
    verbose: bool,
    filter_unnamed: bool,
    t: Map<u64, DeviceStatus>,
    stopped: bool,
    input: ScanInput,
) -> Seq<ScanReport> {
    if stopped {
        seq![]
    } else {
        match input {
            ScanInput::Radio { event, named } => reports_for(verbose, filter_unnamed, t, event, named),
            _ => seq![],
        }
    }
}

/// Every report shown while a scan takes in `inputs`, in order.
pub open spec fn run_reports(
    verbose: bool,
    filter_unnamed: bool,
    t: Map<u64, DeviceStatus>,
    stopped: bool,
    inputs: Seq<ScanInput>,
) -> Seq<ScanReport>
    decreases inputs.len(),
{
    if inputs.len() == 0 {
        seq![]
    } else {
        input_reports(verbose, filter_unnamed, t, stopped, inputs[0]) + run_reports(
            verbose,
            filter_unnamed,
            input_table(t, stopped, inputs[0]),
            input_stops(stopped, inputs[0]),
            inputs.drop_first(),
        )
    }
}

/// The status table once a scan has taken in `inputs`.
pub open spec fn run_table(t: Map<u64, DeviceStatus>, stopped: bool, inputs: Seq<ScanInput>) -> Map<
    u64,
    DeviceStatus,
>
    decreases inputs.len(),
{
    if inputs.len() == 0 {
        t
    } else {
        run_table(
            input_table(t, stopped, inputs[0]),
            input_stops(stopped, inputs[0]),
            inputs.drop_first(),
        )
    }
}

/// How many times `x` occurs in `rs`.
pub open spec fn count_of(rs: Seq<ScanReport>, x: ScanReport) -> nat
    decreases rs.len(),
{
    if rs.len() == 0 {
        0
    } else {
        (if rs[0] == x { 1nat } else { 0nat }) + count_of(rs.drop_first(), x)
    }
}

/// Whether `input` reports the loss of `a`.
pub open spec fn reports_loss(input: ScanInput, a: Addr) -> bool {
    match input {
        ScanInput::Radio { event, named } => event == RadioEvent::Lost(a),
        _ => false,
    }
}

/// Whether `inputs` reports the loss of `a`.
pub open spec fn loses(inputs: Seq<ScanInput>, a: Addr) -> bool {
    exists|i: int| 0 <= i < inputs.len() && reports_loss(#[trigger] inputs[i], a)
}

proof fn lemma_count_concat(x: Seq<ScanReport>, y: Seq<ScanReport>, r: ScanReport)
    ensures
        count_of(x + y, r) == count_of(x, r) + count_of(y, r),
    decreases x.len(),
{
    if x.len() == 0 {
        assert(x + y =~= y);
    } else {
        assert((x + y).drop_first() =~= x.drop_first() + y);
        lemma_count_concat(x.drop_first(), y, r);
    }
}

proof fn lemma_loses_rest(inputs: Seq<ScanInput>, a: Addr)
    requires
        inputs.len() > 0,
        !loses(inputs, a),
    ensures
        !loses(inputs.drop_first(), a),
        !reports_loss(inputs[0], a),
{
    if loses(inputs.drop_first(), a) {
        let i = choose|i: int|
            0 <= i < inputs.drop_first().len() && reports_loss(#[trigger] inputs.drop_first()[i], a);
        assert(inputs[i + 1] == inputs.drop_first()[i]);
    }
    assert(!reports_loss(inputs[0], a));
}

/// Status only moves from `Discovered` to `Updated`: while `a` is not lost,
/// an address already `Updated` stays so and gets no "new" report, and any
/// address gets at most one "new" report.
pub proof fn lemma_status_monotonic(
    verbose: bool,
    filter_unnamed: bool,
    t: Map<u64, DeviceStatus>,
    stopped: bool,
    inputs: Seq<ScanInput>,
    a: Addr,
)
    requires
        !loses(inputs, a),
    ensures
        count_of(run_reports(verbose, filter_unnamed, t, stopped, inputs), ScanReport::New(a)) <= 1,
        !first_update(t, a) ==> count_of(
            run_reports(verbose, filter_unnamed, t, stopped, inputs),
            ScanReport::New(a),
        ) == 0,
        !first_update(t, a) ==> run_table(t, stopped, inputs).contains_key(a.value) && run_table(
            t,
            stopped,
            inputs,
        )[a.value] == DeviceStatus::Updated,
    decreases inputs.len(),
{
    if inputs.len() > 0 {
        lemma_loses_rest(inputs, a);
        let head = input_reports(verbose, filter_unnamed, t, stopped, inputs[0]);
        let t2 = input_table(t, stopped, inputs[0]);
        let s2 = input_stops(stopped, inputs[0]);
        let rest = inputs.drop_first();
        lemma_status_monotonic(verbose, filter_unnamed, t2, s2, rest, a);
        lemma_count_concat(head, run_reports(verbose, filter_unnamed, t2, s2, rest), ScanReport::New(a));
        reveal_with_fuel(count_of, 3);
        if !stopped {
            match inputs[0] {
                ScanInput::Radio { event, named } => {
                    match event {
                        RadioEvent::Updated(b) => {
                            if b != a {
                                assert(b.value != a.value);
                            }
                        },
                        RadioEvent::Discovered(b) => {},
                        RadioEvent::Lost(b) => {
                            assert(b != a);
                            assert(b.value != a.value);
                        },
                        _ => {},
                    }
                },
                _ => {},
            }
        }
        if count_of(head, ScanReport::New(a)) == 1 {
            assert(!first_update(t2, a));
        }
    }
}

/// With the filter on, an address without a name at its first update never
/// gets a "new" report while it stays in sight; whether that update is shown
/// as a plain update depends on `verbose` alone.
pub proof fn lemma_filter_unnamed(
    verbose: bool,
    t: Map<u64, DeviceStatus>,
    inputs: Seq<ScanInput>,
    a: Addr,
)
    requires
        inputs.len() > 0,
        inputs[0] == (ScanInput::Radio { event: RadioEvent::Updated(a), named: false }),
        !loses(inputs, a),
    ensures
        count_of(run_reports(verbose, true, t, false, inputs), ScanReport::New(a)) == 0,
        count_of(run_reports(verbose, true, t, false, inputs.take(1)), ScanReport::Update(a))
            == count_of(run_reports(verbose, false, t, false, inputs.take(1)), ScanReport::Update(a)),
        count_of(run_reports(verbose, true, t, false, inputs.take(1)), ScanReport::Update(a)) == (
        if verbose {
            1nat
        } else {
            0nat
        }),
{
    lemma_loses_rest(inputs, a);
    let t2 = table_after(t, RadioEvent::Updated(a));
    let rest = inputs.drop_first();
    lemma_status_monotonic(verbose, true, t2, false, rest, a);
    let head = reports_for(verbose, true, t, RadioEvent::Updated(a), false);
    lemma_count_concat(head, run_reports(verbose, true, t2, false, rest), ScanReport::New(a));
    let one = inputs.take(1);
    assert(one[0] == inputs[0]);
    assert(one.drop_first() =~= Seq::<ScanInput>::empty());
    assert(run_reports(verbose, true, t2, false, Seq::<ScanInput>::empty()) == Seq::<ScanReport>::empty());
    assert(run_reports(verbose, false, t2, false, Seq::<ScanInput>::empty()) == Seq::<ScanReport>::empty());
    assert(run_reports(verbose, true, t, false, one) =~= head + seq![]);
    assert(run_reports(verbose, false, t, false, one) =~= reports_for(
        verbose,
        false,
        t,
        RadioEvent::Updated(a),
        false,
    ) + seq![]);
    reveal_with_fuel(count_of, 3);
    assert(head + seq![] =~= head);
    assert(reports_for(verbose, false, t, RadioEvent::Updated(a), false) + seq![] =~= reports_for(
        verbose,
        false,
        t,
        RadioEvent::Updated(a),
        false,
    ));
}

/// A scan that has seen cancellation shows nothing, whatever arrives.
proof fn lemma_stopped_silent(
    verbose: bool,
    filter_unnamed: bool,
    t: Map<u64, DeviceStatus>,
    inputs: Seq<ScanInput>,
)
    ensures
        run_reports(verbose, filter_unnamed, t, true, inputs) == Seq::<ScanReport>::empty(),
    decreases inputs.len(),
{
    if inputs.len() > 0 {
        lemma_stopped_silent(verbose, filter_unnamed, t, inputs.drop_first());
        assert(run_reports(verbose, filter_unnamed, t, true, inputs) =~= Seq::<ScanReport>::empty());
    }
}

/// Once the user cancels, a scan shows nothing more: every report comes from
/// the inputs before the cancellation.
pub proof fn lemma_cancel_silences(
    verbose: bool,
    filter_unnamed: bool,
    t: Map<u64, DeviceStatus>,
    stopped: bool,
    inputs: Seq<ScanInput>,
    k: int,
)
    requires
        0 <= k < inputs.len(),
        inputs[k] == ScanInput::Cancelled,
    ensures
        run_reports(verbose, filter_unnamed, t, stopped, inputs) == run_reports(
            verbose,
            filter_unnamed,
            t,
            stopped,
            inputs.take(k),
        ),
    decreases k,
{
    let t2 = input_table(t, stopped, inputs[0]);
    let s2 = input_stops(stopped, inputs[0]);
    let head = input_reports(verbose, filter_unnamed, t, stopped, inputs[0]);
    if k == 0 {
        lemma_stopped_silent(verbose, filter_unnamed, t2, inputs.drop_first());
        assert(head =~= Seq::<ScanReport>::empty());
        assert(run_reports(verbose, filter_unnamed, t, stopped, inputs) =~= Seq::<ScanReport>::empty());
        assert(inputs.take(0) =~= Seq::<ScanInput>::empty());
    } else {
        let rest = inputs.drop_first();
        assert(rest[k - 1] == inputs[k]);
        lemma_cancel_silences(verbose, filter_unnamed, t2, s2, rest, k - 1);
        assert(inputs.take(k).drop_first() =~= rest.take(k - 1));
        assert(inputs.take(k)[0] == inputs[0]);
    }
}

} // verus!
