//! The end of an application: its status, and those who want to hear of it.
use vstd::prelude::*;

verus! {

/// How a process ended, as the platform encodes it: a wait status on Unix, an
/// exit code on Windows.
#[derive(Debug, Clone, Copy, PartialEq, Eq, Structural)]
pub struct ExitStatus {
    pub raw: u32,
}

/// The wait status of a process that ended normally with `code`: the low eight
/// bits of the code in bits 8 to 15, and no signal.
pub fn make_exit_status(code: i32) -> (status: ExitStatus)
    ensures
        status.raw == (code as int % 0x100) * 0x100,
{
    let low: u32 = (code & 0xFF) as u32;
    assert(code & 0xFF >= 0 && (code & 0xFF) == (code as int % 0x100)) by (bit_vector);
    ExitStatus { raw: low * 0x100 }
}

/// The status for a process whose real one cannot be learned: success.
pub fn synth_exit_status() -> (status: ExitStatus)
    ensures
        status.raw == 0,
{
    ExitStatus { raw: 0 }
}

/// The status that those who want to hear of the end of a process are told:
/// the real exit code where it can be learned, as on Windows, else success.
pub fn reported_exit_status(code: Option<u32>) -> (status: ExitStatus)
    ensures
        status.raw == match code {
            Some(code) => code,
            None => 0,
        },
{
    match code {
        Some(code) => ExitStatus { raw: code },
        None => synth_exit_status(),
    }
}

/// Who wants to hear of the end of a process, or how it ended.
pub enum ExitState<C> {
    /// The process runs; these want to hear of its end, in this order.
    Pending(Vec<C>),
    /// The process has ended.
    Exited(ExitStatus),
}

/// An [`ExitState`], with its callbacks as a sequence.
#[verifier::ext_equal]
pub enum ExitView<C> {
    Pending(Seq<C>),
    Exited(ExitStatus),
}

impl<C> View for ExitState<C> {
    type V = ExitView<C>;

    open spec fn view(&self) -> ExitView<C> {
        match self {
            ExitState::Pending(callbacks) => ExitView::Pending(callbacks@),
            ExitState::Exited(status) => ExitView::Exited(*status),
        }
    }
}

/// Something that happens to an [`ExitState`].
pub enum ExitEvent<C> {
    /// A callback is registered.
    Register(C),
    /// The process ends.
    Exit(ExitStatus),
}

impl<C> ExitView<C> {
    /// The state after the event.
    pub open spec fn after(self, event: ExitEvent<C>) -> ExitView<C> {
        match (self, event) {
            (ExitView::Pending(list), ExitEvent::Register(callback)) => ExitView::Pending(
                list.push(callback),
            ),
            (ExitView::Exited(status), ExitEvent::Register(_)) => self,
            (_, ExitEvent::Exit(status)) => ExitView::Exited(status),
        }
    }

    /// The callbacks that the event calls, in order, each with the status it
    /// is given.
    pub open spec fn called(self, event: ExitEvent<C>) -> Seq<(C, ExitStatus)> {
        match (self, event) {
            (ExitView::Pending(_), ExitEvent::Register(_)) => seq![],
            (ExitView::Exited(status), ExitEvent::Register(callback)) => seq![(callback, status)],
            (ExitView::Pending(list), ExitEvent::Exit(status)) => Seq::new(
                list.len(),
                |i: int| (list[i], status),
            ),
            (ExitView::Exited(_), ExitEvent::Exit(_)) => seq![],
        }
    }

    /// The callbacks that a run of events calls, in order.
    pub open spec fn called_by(self, events: Seq<ExitEvent<C>>) -> Seq<(C, ExitStatus)>
        decreases events.len(),
    {
        if events.len() == 0 {
            seq![]
        } else {
            self.called(events[0]) + self.after(events[0]).called_by(events.skip(1))
        }
    }
}

impl<C> Default for ExitState<C> {
    /// A process that runs and that nobody watches yet.
    fn default() -> (state: ExitState<C>)
        ensures
            state@ == ExitView::<C>::Pending(seq![]),
    {
        ExitState::Pending(Vec::new())
    }
}

impl<C> ExitState<C> {
    /// Registers a callback. Where the process has already ended, the callback
    /// is handed back, to be called at once with the status that comes with it.
    pub fn on_exit(&mut self, callback: C) -> (due: Option<(C, ExitStatus)>)
        ensures
            final(self)@ == old(self)@.after(ExitEvent::Register(callback)),
            match due {
                Some(pair) => old(self)@.called(ExitEvent::Register(callback)) == seq![pair],
                None => old(self)@.called(ExitEvent::Register(callback)).len() == 0,
            },
    {
        match self {
            ExitState::Pending(callbacks) => {
                callbacks.push(callback);
                None
            },
            ExitState::Exited(status) => Some((callback, *status)),
        }
    }

    /// Notes the end of the process and gives back the callbacks to call with
    /// its status, in order.
    pub fn exited(&mut self, status: ExitStatus) -> (due: Vec<C>)
        ensures
            final(self)@ == old(self)@.after(ExitEvent::Exit(status)),
            Seq::new(due@.len(), |i: int| (due@[i], status)) == old(self)@.called(
                ExitEvent::Exit(status),
            ),
    {
        let mut before = ExitState::Exited(status);
        core::mem::swap(self, &mut before);
        match before {
            ExitState::Pending(callbacks) => callbacks,
            ExitState::Exited(_) => {
                let none: Vec<C> = Vec::new();
                assert(Seq::new(none@.len(), |i: int| (none@[i], status)) =~= seq![]);
                none
            },
        }
    }
}

/// The callbacks that a run of events registers, in order.
pub open spec fn registered<C>(events: Seq<ExitEvent<C>>) -> Seq<C>
    decreases events.len(),
{
    if events.len() == 0 {
        seq![]
    } else {
        match events[0] {
            ExitEvent::Register(callback) => seq![callback] + registered(events.skip(1)),
            ExitEvent::Exit(_) => registered(events.skip(1)),
        }
    }
}

/// The process ends somewhere in the run of events.
pub open spec fn ends<C>(events: Seq<ExitEvent<C>>) -> bool {
    exists|i: int| 0 <= i < events.len() && (#[trigger] events[i]) is Exit
}

/// The callbacks of a list of calls.
pub open spec fn callees<C>(calls: Seq<(C, ExitStatus)>) -> Seq<C> {
    Seq::new(calls.len(), |i: int| calls[i].0)
}

proof fn calls_of_run<C>(state: ExitView<C>, events: Seq<ExitEvent<C>>)
    ensures
        state is Exited ==> callees(state.called_by(events)) == registered(events),
        state is Pending ==> callees(state.called_by(events)) == if ends(events) {
            state->Pending_0 + registered(events)
        } else {
            seq![]
        },
    decreases events.len(),
{
    if events.len() == 0 {
        assert(callees(state.called_by(events)) =~= seq![]);
        assert(registered(events) =~= seq![]);
    } else {
        let rest = events.skip(1);
        let first = events[0];
        calls_of_run(state.after(first), rest);
        assert(callees(state.called_by(events)) =~= callees(state.called(first)) + callees(
            state.after(first).called_by(rest),
        ));
        if ends(events) && first is Register {
            let i = choose|i: int| 0 <= i < events.len() && (#[trigger] events[i]) is Exit;
            assert(rest[i - 1] is Exit);
        }
        if ends(rest) {
            let i = choose|i: int| 0 <= i < rest.len() && (#[trigger] rest[i]) is Exit;
            assert(events[i + 1] is Exit);
        }
        match state {
            ExitView::Pending(list) => {
                match first {
                    ExitEvent::Register(callback) => {
                        assert(callees(state.called(first)) =~= seq![]);
                        assert(list.push(callback) + registered(rest) =~= list + registered(events));
                        assert(callees(state.called_by(events)) =~= callees(
                            state.after(first).called_by(rest),
                        ));
                    },
                    ExitEvent::Exit(_) => {
                        assert(callees(state.called(first)) =~= list);
                        assert(ends(events));
                    },
                }
            },
            ExitView::Exited(_) => {
                match first {
                    ExitEvent::Register(callback) => {
                        assert(callees(state.called(first)) =~= seq![callback]);
                    },
                    ExitEvent::Exit(_) => {
                        assert(callees(state.called(first)) =~= seq![]);
                        assert(seq![] + registered(rest) =~= registered(rest));
                    },
                }
            },
        }
    }
}

/// Every callback is called exactly once, in the order of registration, where
/// the process ends at any time, before or after the registration; and none
/// is called while it runs.
pub proof fn every_callback_is_called_once<C>(events: Seq<ExitEvent<C>>)
    ensures
        callees(ExitView::<C>::Pending(seq![]).called_by(events)) == if ends(events) {
            registered(events)
        } else {
            seq![]
        },
{
    calls_of_run(ExitView::<C>::Pending(seq![]), events);
    assert(Seq::<C>::empty() + registered(events) =~= registered(events));
}

/// The process ends with this status and no other in the run of events.
pub open spec fn ends_only_with<C>(events: Seq<ExitEvent<C>>, status: ExitStatus) -> bool {
    forall|i: int|
        0 <= i < events.len() ==> match #[trigger] events[i] {
            ExitEvent::Exit(other) => other == status,
            ExitEvent::Register(_) => true,
        }
}

proof fn statuses_of_run<C>(state: ExitView<C>, events: Seq<ExitEvent<C>>, status: ExitStatus)
    requires
        ends_only_with(events, status),
        state matches ExitView::Exited(ended) ==> ended == status,
    ensures
        forall|i: int|
            0 <= i < state.called_by(events).len() ==> (#[trigger] state.called_by(events)[i]).1
                == status,
    decreases events.len(),
{
    if events.len() > 0 {
        let rest = events.skip(1);
        assert forall|i: int| 0 <= i < rest.len() implies match #[trigger] rest[i] {
            ExitEvent::Exit(other) => other == status,
            ExitEvent::Register(_) => true,
        } by {
            assert(rest[i] == events[i + 1]);
        }
        assert(events[0] matches ExitEvent::Exit(other) ==> other == status);
        statuses_of_run(state.after(events[0]), rest, status);
        let first = state.called(events[0]);
        let behind = state.after(events[0]).called_by(rest);
        let all = state.called_by(events);
        assert(all == first + behind);
        assert forall|i: int| 0 <= i < all.len() implies (#[trigger] all[i]).1 == status by {
            if i < first.len() {
                assert(all[i] == first[i]);
            } else {
                assert(all[i] == behind[i - first.len()]);
            }
        }
    }
}

/// Every callback is told the status with which the process ended, whether it
/// was registered before or after the end.
pub proof fn every_callback_is_told_the_status<C>(
    events: Seq<ExitEvent<C>>,
    status: ExitStatus,
)
    requires
        ends_only_with(events, status),
    ensures
        forall|i: int|
            0 <= i < ExitView::<C>::Pending(seq![]).called_by(events).len() ==> (
            #[trigger] ExitView::<C>::Pending(seq![]).called_by(events)[i]).1 == status,
{
    statuses_of_run(ExitView::<C>::Pending(seq![]), events, status);
}

/// Once a process has ended its state never goes back to running.
pub proof fn an_end_is_final<C>(state: ExitView<C>, event: ExitEvent<C>)
    requires
        state is Exited,
    ensures
        state.after(event) is Exited,
{
}

/// An end is noted with its status whatever was before it, and calls everyone
/// who waits with that status, in order; a registration is noted while the
/// process runs, and afterwards calls at once with the status that was noted.
pub proof fn ends_and_registrations_are_noted<C>(
    list: Seq<C>,
    callback: C,
    noted: ExitStatus,
    status: ExitStatus,
)
    ensures
        ExitView::Pending(list).after(ExitEvent::Exit(status)) == ExitView::<C>::Exited(status),
        ExitView::<C>::Exited(noted).after(ExitEvent::Exit(status)) == ExitView::<C>::Exited(
            status,
        ),
        ExitView::Pending(list).after(ExitEvent::Register(callback)) == ExitView::Pending(
            list + seq![callback],
        ),
        ExitView::Exited(noted).after(ExitEvent::Register(callback)) == ExitView::<C>::Exited(
            noted,
        ),
        ExitView::Pending(list).called(ExitEvent::Register(callback)).len() == 0,
        ExitView::<C>::Exited(noted).called(ExitEvent::Exit(status)).len() == 0,
        ExitView::Exited(noted).called(ExitEvent::Register(callback)) == seq![(callback, noted)],
        ExitView::Pending(list).called(ExitEvent::Exit(status)).len() == list.len(),
        forall|i: int|
            0 <= i < list.len() ==> #[trigger] ExitView::Pending(list).called(
                ExitEvent::Exit(status),
            )[i] == (list[i], status),
{
    assert(list.push(callback) =~= list + seq![callback]);
}

/// A state is viewed as what it is.
pub proof fn states_are_viewed_as_they_are<C>(callbacks: Vec<C>, status: ExitStatus)
    ensures
        ExitState::Pending(callbacks)@ == ExitView::Pending(callbacks@),
        ExitState::<C>::Exited(status)@ == ExitView::<C>::Exited(status),
{
}

/// A status for a code holds its low eight bits above eight zero bits, and two
/// codes give the same status exactly where those bits agree.
#[verifier::spinoff_prover]
pub proof fn a_status_holds_its_code(code: i32, other: i32, status: ExitStatus, second: ExitStatus)
    requires
        call_ensures(make_exit_status, (code,), status),
        call_ensures(make_exit_status, (other,), second),
    ensures
        status.raw < 0x10000,
        status.raw % 0x100 == 0,
        0 <= code < 0x100 ==> status.raw / 0x100 == code,
        status == second <==> (code - other) % 0x100 == 0,
        status.raw == 0 <==> code as int % 0x100 == 0,
{
}

/// The status that is reported is the real code where it is known, every one as
/// it is, and else that of success.
pub proof fn the_real_code_is_reported(
    code: Option<u32>,
    status: ExitStatus,
    success: ExitStatus,
)
    requires
        call_ensures(reported_exit_status, (code,), status),
        call_ensures(synth_exit_status, (), success),
    ensures
        success.raw == 0,
        code matches Some(known) ==> status.raw == known,
        code is None ==> status == success,
{
}

/// A callback is called at once exactly where the process has ended, with the
/// status of that end, and is kept as the last one where it has not.
pub proof fn a_late_callback_is_called_at_once<C>(
    state: &mut ExitState<C>,
    callback: C,
    due: Option<(C, ExitStatus)>,
)
    requires
        call_ensures(ExitState::<C>::on_exit, (state, callback), due),
    ensures
        match old(state)@ {
            ExitView::Exited(status) => due == Some((callback, status)) && final(state)@ == old(
                state,
            )@,
            ExitView::Pending(list) => due is None && final(state)@ == ExitView::Pending(
                list.push(callback),
            ),
        },
{
    if let ExitView::Exited(status) = old(state)@ {
        let calls = old(state)@.called(ExitEvent::Register(callback));
        assert(calls == seq![(callback, status)]);
        if let Some(pair) = due {
            assert(seq![pair][0] == calls[0]);
        }
    } else {
        if let Some(pair) = due {
            assert(seq![pair].len() == 1);
        }
    }
}

/// The end of a process hands out everyone who waits for it, in order, and
/// leaves nobody waiting; a second end hands out nobody.
pub proof fn an_end_hands_out_all_callbacks<C>(
    state: &mut ExitState<C>,
    status: ExitStatus,
    due: Vec<C>,
)
    requires
        call_ensures(ExitState::<C>::exited, (state, status), due),
    ensures
        final(state)@ == ExitView::<C>::Exited(status),
        old(state)@ matches ExitView::Pending(list) ==> due@ == list,
        old(state)@ is Exited ==> due@.len() == 0,
{
    let told = Seq::new(due@.len(), |i: int| (due@[i], status));
    if let ExitView::Pending(list) = old(state)@ {
        let calls = old(state)@.called(ExitEvent::Exit(status));
        assert(told == calls);
        assert(told.len() == due@.len());
        assert(calls.len() == list.len());
        assert(due@.len() == list.len());
        assert forall|i: int| 0 <= i < list.len() implies #[trigger] due@[i] == list[i] by {
            assert(told[i] == calls[i]);
        }
        assert(due@ =~= list);
    } else {
        assert(told.len() == 0);
    }
}

} // verus!
