//! What holds of whole sessions, from their beginning on.

use vstd::prelude::*;

use crate::config::{ProbeTarget, Service, Settings};
use crate::logstore::SinkEvent;
use crate::logstore_laws;
use crate::runner;
use crate::runner::{ActionView, Event, SessionView, Stage};
use crate::runner_laws;
use crate::state;

verus! {

/// What happened next in a session: what its child printed meanwhile, and the
/// answer to what the session had asked for.
pub struct Heard {
    pub output: Seq<SinkEvent>,
    pub event: Event,
    pub now: i64,
}

/// What the actions of a step tell the log sink.
pub open spec fn spoken(actions: Seq<ActionView>) -> Seq<SinkEvent>
    decreases actions.len(),
{
    if actions.len() == 0 {
        Seq::empty()
    } else {
        let before = spoken(actions.drop_last());
        match actions.last() {
            ActionView::Marker(line) => before.push(SinkEvent::Marker(line)),
            ActionView::BeginRun => before.push(SinkEvent::BeginRun),
            ActionView::EndNarrative => before.push(SinkEvent::EndNarrative),
            _ => before,
        }
    }
}

/// A session after all that happened, and what the log sink was told.
pub open spec fn told(
    service: Service,
    settings: Settings,
    target: ProbeTarget,
    start: SessionView,
    heard: Seq<Heard>,
) -> (SessionView, Seq<SinkEvent>)
    decreases heard.len(),
{
    if heard.len() == 0 {
        (start, Seq::empty())
    } else {
        let (s, log) = told(service, settings, target, start, heard.drop_last());
        let last = heard.last();
        let n = runner::next(service, settings, target, s, last.event, last.now);
        (n.session, log + last.output + spoken(n.actions))
    }
}

/// Does a child's output hold nothing but what children print and markers?
pub open spec fn only_output(output: Seq<SinkEvent>) -> bool {
    forall|i: int|
        0 <= i < output.len() ==> !(#[trigger] output[i] is BeginRun) && !(
        output[i] is EndNarrative)
}

/// Is every event one that the session waited for?
pub open spec fn lawful(
    service: Service,
    settings: Settings,
    target: ProbeTarget,
    start: SessionView,
    heard: Seq<Heard>,
) -> bool
    decreases heard.len(),
{
    heard.len() == 0 || {
        let earlier = heard.drop_last();
        &&& lawful(service, settings, target, start, earlier)
        &&& runner::expects(
            told(service, settings, target, start, earlier).0.stage,
            heard.last().event,
        )
        &&& only_output(heard.last().output)
    }
}

/// The bytes of a child's output on one stream.
pub open spec fn printed_bytes(output: Seq<SinkEvent>, to_stderr: bool) -> Seq<u8>
    decreases output.len(),
{
    if output.len() == 0 {
        Seq::empty()
    } else {
        let before = printed_bytes(output.drop_last(), to_stderr);
        match output.last() {
            SinkEvent::Stdout(bytes) => if to_stderr {
                before
            } else {
                before + bytes
            },
            SinkEvent::Stderr(bytes) => if to_stderr {
                before + bytes
            } else {
                before
            },
            _ => before,
        }
    }
}

/// What `run-cmd` has printed: what was printed since it was about to be spawned.
pub open spec fn run_cmd_output(
    service: Service,
    settings: Settings,
    target: ProbeTarget,
    start: SessionView,
    heard: Seq<Heard>,
    to_stderr: bool,
) -> Seq<u8>
    decreases heard.len(),
{
    if heard.len() == 0 {
        Seq::empty()
    } else {
        let earlier = heard.drop_last();
        let before = run_cmd_output(service, settings, target, start, earlier, to_stderr);
        if runner_laws::run_begun(told(service, settings, target, start, earlier).0.stage) {
            before + printed_bytes(heard.last().output, to_stderr)
        } else {
            before
        }
    }
}

proof fn lemma_not_begun(log: Seq<SinkEvent>, to_stderr: bool)
    requires
        !logstore_laws::begun(log),
    ensures
        logstore_laws::run_output(log, to_stderr) == Seq::<u8>::empty(),
    decreases log.len(),
{
    if log.len() > 0 {
        lemma_not_begun(log.drop_last(), to_stderr);
    }
}

proof fn lemma_output(log: Seq<SinkEvent>, output: Seq<SinkEvent>, to_stderr: bool)
    requires
        only_output(output),
    ensures
        logstore_laws::begun(log + output) == logstore_laws::begun(log),
        logstore_laws::run_output(log + output, to_stderr) == logstore_laws::run_output(
            log,
            to_stderr,
        ) + (if logstore_laws::begun(log) {
            printed_bytes(output, to_stderr)
        } else {
            Seq::empty()
        }),
    decreases output.len(),
{
    if output.len() == 0 {
        assert(log + output =~= log);
        assert(logstore_laws::run_output(log, to_stderr) + Seq::<u8>::empty()
            =~= logstore_laws::run_output(log, to_stderr));
    } else {
        let earlier = output.drop_last();
        assert(only_output(earlier)) by {
            assert forall|i: int| 0 <= i < earlier.len() implies !(
            #[trigger] earlier[i] is BeginRun) && !(earlier[i] is EndNarrative) by {
                assert(!(output[i] is BeginRun));
            }
        }
        assert(!(output[output.len() - 1] is BeginRun));
        lemma_output(log, earlier, to_stderr);
        assert((log + output).drop_last() =~= log + earlier);
        assert((log + output).last() == output.last());
        assert(logstore_laws::run_output(log + output, to_stderr) =~= logstore_laws::run_output(
            log,
            to_stderr,
        ) + (if logstore_laws::begun(log) {
            printed_bytes(output, to_stderr)
        } else {
            Seq::empty()
        }));
    }
}

proof fn lemma_spoken(log: Seq<SinkEvent>, actions: Seq<ActionView>, to_stderr: bool)
    ensures
        logstore_laws::begun(log + spoken(actions)) == (logstore_laws::begun(log)
            || actions.contains(ActionView::BeginRun)),
        logstore_laws::run_output(log + spoken(actions), to_stderr) == if actions.contains(
            ActionView::BeginRun,
        ) {
            Seq::empty()
        } else {
            logstore_laws::run_output(log, to_stderr)
        },
    decreases actions.len(),
{
    if actions.len() == 0 {
        assert(log + spoken(actions) =~= log);
    } else {
        let earlier = actions.drop_last();
        lemma_spoken(log, earlier, to_stderr);
        assert(actions.contains(ActionView::BeginRun) == (earlier.contains(ActionView::BeginRun)
            || actions.last() == ActionView::BeginRun)) by {
            if actions.contains(ActionView::BeginRun) {
                let i = actions.index_of(ActionView::BeginRun);
                if i < earlier.len() {
                    assert(earlier[i] == ActionView::BeginRun);
                }
            }
            if earlier.contains(ActionView::BeginRun) {
                let i = earlier.index_of(ActionView::BeginRun);
                assert(actions[i] == ActionView::BeginRun);
            }
            assert(actions[actions.len() - 1] == actions.last());
        }
        let before = log + spoken(earlier);
        let after = log + spoken(actions);
        match actions.last() {
            ActionView::Marker(line) => {
                assert(after =~= before.push(SinkEvent::Marker(line)));
                assert(after.drop_last() =~= before);
            },
            ActionView::BeginRun => {
                assert(after =~= before.push(SinkEvent::BeginRun));
                assert(after.drop_last() =~= before);
            },
            ActionView::EndNarrative => {
                assert(after =~= before.push(SinkEvent::EndNarrative));
                assert(after.drop_last() =~= before);
            },
            _ => {
                assert(after =~= before);
            },
        }
    }
}

proof fn lemma_session_log(
    service: Service,
    settings: Settings,
    target: ProbeTarget,
    start: SessionView,
    heard: Seq<Heard>,
    to_stderr: bool,
)
    requires
        start.stage == Stage::New,
        lawful(service, settings, target, start, heard),
    ensures
        ({
            let (s, log) = told(service, settings, target, start, heard);
            &&& !(s.stage is Done) ==> logstore_laws::begun(log) == runner_laws::run_begun(s.stage)
            &&& logstore_laws::run_output(log, to_stderr) == run_cmd_output(
                service,
                settings,
                target,
                start,
                heard,
                to_stderr,
            )
        }),
    decreases heard.len(),
{
    if heard.len() > 0 {
        let earlier = heard.drop_last();
        let last = heard.last();
        lemma_session_log(service, settings, target, start, earlier, to_stderr);
        let (s, log) = told(service, settings, target, start, earlier);
        let n = runner::next(service, settings, target, s, last.event, last.now);
        runner_laws::law_run_logs_begin_with_the_run(service, settings, target, s, last.event, last.now);
        lemma_output(log, last.output, to_stderr);
        lemma_spoken(log + last.output, n.actions, to_stderr);
        if !logstore_laws::begun(log) {
            lemma_not_begun(log, to_stderr);
            assert(Seq::<u8>::empty() + Seq::<u8>::empty() =~= Seq::<u8>::empty());
        }
        assert(logstore_laws::run_output(log, to_stderr) + Seq::<u8>::empty()
            =~= logstore_laws::run_output(log, to_stderr));
    }
}

/// Over a whole session, whatever happens in it, the run logs hold what `run-cmd`
/// printed and nothing else: all of it without a size cap, the end of it with
/// one. What a build printed and what agproc itself says never reach them.
pub proof fn law_run_logs_hold_what_run_cmd_printed(
    service: Service,
    settings: Settings,
    target: ProbeTarget,
    start: SessionView,
    heard: Seq<Heard>,
)
    requires
        start.stage == Stage::New,
        lawful(service, settings, target, start, heard),
    ensures
        ({
            let (s, log) = told(service, settings, target, start, heard);
            let files = logstore_laws::session(settings.log_max_bytes, log).1;
            let out = run_cmd_output(service, settings, target, start, heard, false);
            let err = run_cmd_output(service, settings, target, start, heard, true);
            &&& logstore_laws::ends(out, files.run_out)
            &&& logstore_laws::ends(err, files.run_err)
            &&& settings.log_max_bytes == 0 ==> files.run_out == out && files.run_err == err
        }),
{
    let (s, log) = told(service, settings, target, start, heard);
    lemma_session_log(service, settings, target, start, heard, false);
    lemma_session_log(service, settings, target, start, heard, true);
    logstore_laws::law_run_logs_hold_run_output_only(settings.log_max_bytes, log);
}

proof fn lemma_sessions_stay_consistent(
    service: Service,
    settings: Settings,
    target: ProbeTarget,
    start: SessionView,
    heard: Seq<Heard>,
)
    requires
        runner_laws::consistent(service, start),
        lawful(service, settings, target, start, heard),
    ensures
        runner_laws::consistent(service, told(service, settings, target, start, heard).0),
    decreases heard.len(),
{
    if heard.len() > 0 {
        let earlier = heard.drop_last();
        lemma_sessions_stay_consistent(service, settings, target, start, earlier);
        runner_laws::law_sessions_stay_consistent(
            service,
            settings,
            target,
            told(service, settings, target, start, earlier).0,
            heard.last().event,
            heard.last().now,
        );
    }
}

/// A session that is over has recorded a settled phase and leaves with its code,
/// whatever happened in it; one that is not over is in flight.
pub proof fn law_sessions_end_with_an_outcome(
    service: Service,
    settings: Settings,
    target: ProbeTarget,
    start: SessionView,
    heard: Seq<Heard>,
)
    requires
        start.stage == Stage::New,
        runner_laws::consistent(service, start),
        lawful(service, settings, target, start, heard),
        heard.len() > 0,
    ensures
        ({
            let s = told(service, settings, target, start, heard).0;
            &&& s.stage matches Stage::Done { code } ==> code == state::phase_code(s.state.phase)
                && state::is_settled(s.state.phase) && !state::in_flight(s.state.phase)
            &&& !(s.stage is Done) ==> state::in_flight(s.state.phase)
        }),
{
    lemma_sessions_stay_consistent(service, settings, target, start, heard);
    let earlier = heard.drop_last();
    lemma_sessions_stay_consistent(service, settings, target, start, earlier);
}

/// Whatever happens in a session, its record stays that of the service and the
/// generation it was opened for, in the schema that readers accept.
pub proof fn law_sessions_keep_their_record(
    service: Service,
    settings: Settings,
    target: ProbeTarget,
    start: SessionView,
    heard: Seq<Heard>,
)
    ensures
        ({
            let s = told(service, settings, target, start, heard).0.state;
            &&& s.schema == start.state.schema
            &&& s.service == start.state.service
            &&& s.generation == start.state.generation
            &&& s.runner_pid == start.state.runner_pid
            &&& s.runner_start_ticks == start.state.runner_start_ticks
            &&& s.config_hash == start.state.config_hash
            &&& s.session_started_at == start.state.session_started_at
        }),
    decreases heard.len(),
{
    if heard.len() > 0 {
        let earlier = heard.drop_last();
        law_sessions_keep_their_record(service, settings, target, start, earlier);
        runner_laws::law_sessions_keep_their_identity(
            service,
            settings,
            target,
            told(service, settings, target, start, earlier).0,
            heard.last().event,
            heard.last().now,
        );
    }
}

} // verus!
