//! Properties that span several entry points of the contracts.

use vstd::prelude::*;
use crate::calls::{CallArgsView, ContractCallView};
use crate::caller_recorder::{recorder_entry_points, update_caller_call};
use crate::contract_caller2::relay_entry_points;
use crate::counter::{
    CounterView, EventCallbackView, announcements, count_event, counted, counter_entry_points,
    initial_counter, registered,
};
use crate::entry_points::names_distinct;
use crate::hash::{ContractHash, contract_hash_from_text, lemma_contract_hash_text_round_trip};
use crate::logger::{LoggerView, logger_entry_points, recorded, registration};

verus! {

/// Every registration that the counter keeps is for its `count` event.
pub open spec fn only_count_registrations(s: CounterView) -> bool {
    forall|i: int| 0 <= i < s.callbacks.len() ==> #[trigger] s.callbacks[i].event == count_event()
}

/// The counter starts with only `count` registrations, and no accepted
/// registration and no count breaks that.
pub proof fn lemma_only_count_registrations(
    s: CounterView,
    event: Seq<char>,
    contract: Option<Seq<u8>>,
    entry: Seq<char>,
)
    ensures
        only_count_registrations(initial_counter()),
        only_count_registrations(s) ==> only_count_registrations(counted(s)),
        only_count_registrations(s) ==> (registered(s, event, contract, entry) matches Ok(next)
            ==> only_count_registrations(next)),
{
    if only_count_registrations(s) {
        if let Ok(next) = registered(s, event, contract, entry) {
            assert forall|i: int| 0 <= i < next.callbacks.len() implies #[trigger] next.callbacks[i].event
                == count_event() by {
                if i < s.callbacks.len() {
                    assert(next.callbacks[i] == s.callbacks[i]);
                }
            }
        }
    }
}

/// A logger that registers with a counter, as its installation does, is
/// accepted; from the next count on it is announced each count, after every
/// contract that registered before it, which are announced as before. The
/// announcement goes to the logger's `callback` entry point with the new
/// count.
pub proof fn lemma_registered_logger_hears_next_count(
    s: CounterView,
    counter: Seq<u8>,
    logger: ContractHash,
    caller: Seq<char>,
)
    requires
        s.count < u32::MAX,
    ensures
        registration(counter, logger@).args matches CallArgsView::SetEventCallback {
            event,
            call_back_contract_hash,
            call_back_contract_entry,
        } && registered(
            s,
            event,
            contract_hash_from_text(call_back_contract_hash),
            call_back_contract_entry,
        ) matches Ok(next) && announcements(counted(next), caller) == announcements(
            counted(s),
            caller,
        ).push(
            ContractCallView {
                contract: logger@,
                entry: "callback"@,
                args: CallArgsView::Event {
                    name: count_event(),
                    caller,
                    count: (s.count + 1) as u32,
                },
            },
        ),
{
    lemma_contract_hash_text_round_trip(logger);
    let reg = registration(counter, logger@);
    if let CallArgsView::SetEventCallback {
        event,
        call_back_contract_hash,
        call_back_contract_entry,
    } = reg.args {
        if let Ok(next) = registered(
            s,
            event,
            contract_hash_from_text(call_back_contract_hash),
            call_back_contract_entry,
        ) {
            assert(announcements(counted(next), caller) =~= announcements(counted(s), caller).push(
                ContractCallView {
                    contract: logger@,
                    entry: "callback"@,
                    args: CallArgsView::Event {
                        name: count_event(),
                        caller,
                        count: (s.count + 1) as u32,
                    },
                },
            ));
        }
    }
}

/// No contract here declares two entry points with one name.
pub proof fn lemma_entry_point_names_distinct()
    ensures
        names_distinct(counter_entry_points()),
        names_distinct(logger_entry_points()),
        names_distinct(recorder_entry_points()),
        names_distinct(relay_entry_points()),
{
    reveal_strlit("count");
    reveal_strlit("set_event_callback");
    assert(counter_entry_points()[0].name.len() != counter_entry_points()[1].name.len());
}

/// One call of the counter's entry points that returns: a count, or a
/// registration for `event`, calling back entry point `entry` of the contract
/// that the hash text parsed to (`None` where it did not parse).
pub enum CounterStep {
    Count,
    Register { event: Seq<char>, contract: Option<Seq<u8>>, entry: Seq<char> },
}

/// The counter's state after one step, as `counter::count` and
/// `counter::set_event_callback` state it: a refused registration changes
/// nothing.
pub open spec fn step(s: CounterView, op: CounterStep) -> CounterView {
    match op {
        CounterStep::Count => counted(s),
        CounterStep::Register { event, contract, entry } => match registered(
            s,
            event,
            contract,
            entry,
        ) {
            Ok(next) => next,
            Err(_) => s,
        },
    }
}

/// The counter's state after the steps `ops`, in order.
pub open spec fn run(s: CounterView, ops: Seq<CounterStep>) -> CounterView
    decreases ops.len(),
{
    if ops.len() == 0 {
        s
    } else {
        step(run(s, ops.drop_last()), ops.last())
    }
}

/// How many of `ops` are counts.
pub open spec fn count_steps(ops: Seq<CounterStep>) -> nat
    decreases ops.len(),
{
    if ops.len() == 0 {
        0
    } else {
        count_steps(ops.drop_last()) + if ops.last() is Count {
            1nat
        } else {
            0nat
        }
    }
}

/// The registrations among `ops` that the counter accepts, in order: those
/// whose hash parsed and whose event is `count`.
pub open spec fn accepted_registrations(ops: Seq<CounterStep>) -> Seq<EventCallbackView>
    decreases ops.len(),
{
    if ops.len() == 0 {
        Seq::empty()
    } else {
        let earlier = accepted_registrations(ops.drop_last());
        match ops.last() {
            CounterStep::Register { event, contract, entry } => match contract {
                Some(h) => if event == count_event() {
                    earlier.push(EventCallbackView { entry, contract: h, event })
                } else {
                    earlier
                },
                None => earlier,
            },
            CounterStep::Count => earlier,
        }
    }
}

/// Over any steps, the count grows by exactly the number of counts among
/// them, and the registrations are the earlier ones followed by the accepted
/// registrations, in the order they were made: one appended per accepted
/// registration, none reordered or dropped. From installation on, the count
/// is the number of counts made and every registration is for `count`.
pub proof fn lemma_run(s: CounterView, ops: Seq<CounterStep>)
    requires
        s.count + count_steps(ops) <= u32::MAX,
    ensures
        run(s, ops).count == s.count + count_steps(ops),
        run(s, ops).callbacks == s.callbacks + accepted_registrations(ops),
        run(initial_counter(), ops).callbacks == accepted_registrations(ops),
        count_steps(ops) <= u32::MAX ==> run(initial_counter(), ops).count == count_steps(ops),
        only_count_registrations(run(initial_counter(), ops)),
{
    lemma_run_from(s, ops);
    lemma_accepted_for_count(ops);
    if count_steps(ops) <= u32::MAX {
        lemma_run_from(initial_counter(), ops);
    } else {
        lemma_run_callbacks(initial_counter(), ops);
    }
    assert(initial_counter().callbacks + accepted_registrations(ops) =~= accepted_registrations(ops));
}

proof fn lemma_accepted_for_count(ops: Seq<CounterStep>)
    ensures
        forall|i: int|
            0 <= i < accepted_registrations(ops).len() ==> #[trigger] accepted_registrations(
                ops,
            )[i].event == count_event(),
    decreases ops.len(),
{
    if ops.len() > 0 {
        lemma_accepted_for_count(ops.drop_last());
        let earlier = accepted_registrations(ops.drop_last());
        let all = accepted_registrations(ops);
        assert forall|i: int| 0 <= i < all.len() implies #[trigger] all[i].event == count_event() by {
            if i < earlier.len() {
                assert(all[i] == earlier[i]);
            }
        }
    }
}

proof fn lemma_run_callbacks(s: CounterView, ops: Seq<CounterStep>)
    ensures
        run(s, ops).callbacks == s.callbacks + accepted_registrations(ops),
    decreases ops.len(),
{
    if ops.len() == 0 {
        assert(s.callbacks + Seq::<EventCallbackView>::empty() =~= s.callbacks);
    } else {
        lemma_run_callbacks(s, ops.drop_last());
        let earlier = accepted_registrations(ops.drop_last());
        match ops.last() {
            CounterStep::Register { event, contract, entry } => {
                if contract is Some && event == count_event() {
                    assert(s.callbacks + earlier.push(EventCallbackView {
                        entry,
                        contract: contract->0,
                        event,
                    }) =~= (s.callbacks + earlier).push(
                        EventCallbackView { entry, contract: contract->0, event },
                    ));
                }
            },
            CounterStep::Count => {},
        }
    }
}

proof fn lemma_run_from(s: CounterView, ops: Seq<CounterStep>)
    requires
        s.count + count_steps(ops) <= u32::MAX,
    ensures
        run(s, ops).count == s.count + count_steps(ops),
        run(s, ops).callbacks == s.callbacks + accepted_registrations(ops),
    decreases ops.len(),
{
    lemma_run_callbacks(s, ops);
    if ops.len() > 0 {
        lemma_run_from(s, ops.drop_last());
    }
}

/// After any steps, a count announces each registration, the earlier ones
/// and then the accepted ones in the order they were made, exactly once
/// each: to the registration's contract and entry point (never to its
/// event's name), with the new count.
pub proof fn lemma_every_registration_announced(
    s: CounterView,
    ops: Seq<CounterStep>,
    caller: Seq<char>,
)
    requires
        s.count + count_steps(ops) < u32::MAX,
    ensures
        ({
            let regs = s.callbacks + accepted_registrations(ops);
            let calls = announcements(counted(run(s, ops)), caller);
            &&& calls.len() == regs.len()
            &&& forall|i: int|
                0 <= i < regs.len() ==> #[trigger] calls[i] == (ContractCallView {
                    contract: regs[i].contract,
                    entry: regs[i].entry,
                    args: CallArgsView::Event {
                        name: count_event(),
                        caller,
                        count: (s.count + count_steps(ops) + 1) as u32,
                    },
                })
        }),
{
    lemma_run_from(s, ops);
}

/// What the logger `logger` records of `calls`, in order: each call to its
/// `callback` entry point with an announcement.
pub open spec fn delivered(l: LoggerView, calls: Seq<ContractCallView>, logger: Seq<u8>) -> LoggerView
    decreases calls.len(),
{
    if calls.len() == 0 {
        l
    } else {
        let before = delivered(l, calls.drop_last(), logger);
        let c = calls.last();
        if c.contract == logger && c.entry == "callback"@ {
            match c.args {
                CallArgsView::Event { caller, count, .. } => recorded(before, caller, count),
                _ => before,
            }
        } else {
            before
        }
    }
}

/// A registration that calls back entry point `callback` of `logger`.
pub open spec fn calls_back(c: EventCallbackView, logger: Seq<u8>) -> bool {
    c.contract == logger && c.entry == "callback"@
}

/// The counter and the logger after the accounts `callers` count in turn,
/// each count's announcements handed to the logger.
pub open spec fn counts_heard(
    s: CounterView,
    l: LoggerView,
    callers: Seq<Seq<char>>,
    logger: Seq<u8>,
) -> (CounterView, LoggerView)
    decreases callers.len(),
{
    if callers.len() == 0 {
        (s, l)
    } else {
        let (s1, l1) = counts_heard(s, l, callers.drop_last(), logger);
        let s2 = counted(s1);
        (s2, delivered(l1, announcements(s2, callers.last()), logger))
    }
}

proof fn lemma_delivered_none(l: LoggerView, calls: Seq<ContractCallView>, logger: Seq<u8>)
    requires
        forall|j: int|
            0 <= j < calls.len() ==> !(#[trigger] calls[j].contract == logger && calls[j].entry
                == "callback"@),
    ensures
        delivered(l, calls, logger) == l,
    decreases calls.len(),
{
    if calls.len() > 0 {
        lemma_delivered_none(l, calls.drop_last(), logger);
        assert(!(calls[calls.len() - 1].contract == logger && calls[calls.len() - 1].entry
            == "callback"@));
    }
}

proof fn lemma_delivered_once(
    l: LoggerView,
    calls: Seq<ContractCallView>,
    logger: Seq<u8>,
    idx: int,
    caller: Seq<char>,
    count: u32,
)
    requires
        0 <= idx < calls.len(),
        calls[idx].contract == logger,
        calls[idx].entry == "callback"@,
        calls[idx].args == (CallArgsView::Event { name: count_event(), caller, count }),
        forall|j: int|
            0 <= j < calls.len() && j != idx ==> !(#[trigger] calls[j].contract == logger
                && calls[j].entry == "callback"@),
    ensures
        delivered(l, calls, logger) == recorded(l, caller, count),
    decreases calls.len(),
{
    let prefix = calls.drop_last();
    if idx == calls.len() - 1 {
        assert forall|j: int|
            0 <= j < prefix.len() implies !(#[trigger] prefix[j].contract == logger
            && prefix[j].entry == "callback"@) by {
            assert(prefix[j] == calls[j]);
        }
        lemma_delivered_none(l, prefix, logger);
    } else {
        assert forall|j: int|
            0 <= j < prefix.len() && j != idx implies !(#[trigger] prefix[j].contract == logger
            && prefix[j].entry == "callback"@) by {
            assert(prefix[j] == calls[j]);
        }
        lemma_delivered_once(l, prefix, logger, idx, caller, count);
        assert(!(calls[calls.len() - 1].contract == logger && calls[calls.len() - 1].entry
            == "callback"@));
    }
}

/// A logger registered exactly once with a counter that has counted to
/// `s.count`: after the accounts `callers` count in turn, and each count's
/// announcements are handed to the logger, its log has gained one record per
/// count, in order: the caller and the count it reached.
pub proof fn lemma_logger_hears_every_count(
    s: CounterView,
    l: LoggerView,
    callers: Seq<Seq<char>>,
    logger: Seq<u8>,
    idx: int,
)
    requires
        s.count + callers.len() <= u32::MAX,
        0 <= idx < s.callbacks.len(),
        calls_back(s.callbacks[idx], logger),
        forall|j: int|
            0 <= j < s.callbacks.len() && j != idx ==> !calls_back(#[trigger] s.callbacks[j], logger),
    ensures
        counts_heard(s, l, callers, logger).0.count == s.count + callers.len(),
        counts_heard(s, l, callers, logger).0.callbacks == s.callbacks,
        counts_heard(s, l, callers, logger).1.log == l.log + Seq::new(
            callers.len(),
            |j: int| (callers[j], (s.count + j + 1) as u32),
        ),
    decreases callers.len(),
{
    if callers.len() == 0 {
        assert(l.log + Seq::new(0, |j: int| (callers[j], (s.count + j + 1) as u32)) =~= l.log);
    } else {
        let prev = callers.drop_last();
        lemma_logger_hears_every_count(s, l, prev, logger, idx);
        let (s1, l1) = counts_heard(s, l, prev, logger);
        let s2 = counted(s1);
        let caller = callers.last();
        let calls = announcements(s2, caller);
        assert forall|j: int|
            0 <= j < calls.len() && j != idx implies !(#[trigger] calls[j].contract == logger
            && calls[j].entry == "callback"@) by {
            assert(!calls_back(s.callbacks[j], logger));
        }
        lemma_delivered_once(l1, calls, logger, idx, caller, s2.count);
        assert(l1.log.push((caller, s2.count)) =~= l.log + Seq::new(
            callers.len(),
            |j: int| (callers[j], (s.count + j + 1) as u32),
        )) by {
            assert forall|j: int| 0 <= j < prev.len() implies prev[j] == callers[j] by {}
        }
    }
}

/// The logger's state after it hears `heard`, in order: each a caller's
/// formatted hash and the count it reached.
pub open spec fn recorded_all(l: LoggerView, heard: Seq<(Seq<char>, u32)>) -> LoggerView
    decreases heard.len(),
{
    if heard.len() == 0 {
        l
    } else {
        let before = recorded_all(l, heard.drop_last());
        recorded(before, heard.last().0, heard.last().1)
    }
}

/// Calls of the logger's `callback`, one after another, append one record
/// each, in call order; earlier records never change.
pub proof fn lemma_logger_records_in_call_order(l: LoggerView, heard: Seq<(Seq<char>, u32)>)
    ensures
        recorded_all(l, heard).log == l.log + heard,
    decreases heard.len(),
{
    if heard.len() == 0 {
        assert(l.log + heard =~= l.log);
    } else {
        lemma_logger_records_in_call_order(l, heard.drop_last());
        assert((l.log + heard.drop_last()).push(heard.last()) =~= l.log + heard);
    }
}

/// The call with which a logger registers is addressed to the counter it
/// was installed for, whatever the two hashes: it names that counter's
/// `set_event_callback`, for the event `count`, asking to be called back at
/// the logger's own `callback` entry point, and the hash text it sends
/// parses back to the logger's own hash.
pub proof fn lemma_registration_reaches_its_counter(counter: ContractHash, logger: ContractHash)
    ensures
        registration(counter@, logger@).contract == counter@,
        registration(counter@, logger@).entry == "set_event_callback"@,
        registration(counter@, logger@).args matches CallArgsView::SetEventCallback {
            event,
            call_back_contract_hash,
            call_back_contract_entry,
        } && event == count_event() && call_back_contract_entry == "callback"@
            && contract_hash_from_text(call_back_contract_hash) == Some(logger@),
        forall|other: Seq<u8>|
            other != counter@ ==> #[trigger] registration(other, logger@).contract
                != registration(counter@, logger@).contract,
{
    lemma_contract_hash_text_round_trip(logger);
}

/// The call that has a recorder record its caller is addressed to that
/// recorder, whatever its hash: its `update_caller` entry point, with no
/// arguments; two different recorders are never sent the same call.
pub proof fn lemma_update_caller_reaches_its_recorder(recorder: Seq<u8>)
    ensures
        update_caller_call(recorder).contract == recorder,
        update_caller_call(recorder).entry == "update_caller"@,
        update_caller_call(recorder).args == CallArgsView::Empty,
        forall|other: Seq<u8>|
            other != recorder ==> #[trigger] update_caller_call(other).contract
                != update_caller_call(recorder).contract,
{
}

} // verus!
