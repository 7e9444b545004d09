//! The serial ingestion engine, reduced to its decisions.
//!
//! One worker per configured port reads in a loop; each read ends in one of
//! three outcomes (data, timeout, failure), and [`worker_step`] decides what
//! the worker does with it. [`Supervisor`] is the engine's record of its
//! workers: one per configuration, started together, stoppable one by one or
//! all at once, and independent — a transition on one worker never touches
//! another.

use crate::text::{string_from_utf8, trim_end, trim_end_chars};
use vstd::prelude::*;
use vstd::string::*;
use vstd::utf8::{decode_utf8, valid_utf8};

verus! {

/// Configuration for one serial port: the device name and the baud rate.
pub struct PortConfig {
    pub port_name: String,
    pub baud_rate: u32,
}

impl PortConfig {
    /// A configuration is valid when its baud rate is positive.
    pub open spec fn valid(self) -> bool {
        self.baud_rate > 0
    }
}

/// One event for the event sink: which port produced the text, and the text
/// itself with trailing whitespace removed.
pub struct UartEvent {
    pub port_name: String,
    pub text: String,
}

impl UartEvent {
    /// The single-string form of the event as handed to the transport: the
    /// port name and the text joined by `'|'`.
    pub fn payload(&self) -> (p: String)
        ensures
            p@ == self.port_name@ + "|"@ + self.text@,
    {
        let mut p = self.port_name.clone();
        p.append("|");
        p.append(self.text.as_str());
        p
    }
}

/// The outcome of one bounded read on an open port, as the device layer
/// reports it: some bytes arrived, the read timed out with no data, or the
/// read failed for another reason (carrying the diagnostic detail).
pub enum ReadOutcome {
    Data(Vec<u8>),
    TimedOut,
    Failed(String),
}

/// What a worker does after one read: publish an event and keep reading,
/// keep reading without an event, or terminate its loop for good.
pub enum WorkerAction {
    Emit(UartEvent),
    Continue,
    Stop,
}

/// True when a data read of `bytes` must produce an event: the bytes are a
/// valid UTF-8 encoding and a non-empty text remains once trailing
/// whitespace is removed.
pub open spec fn emits(bytes: Seq<u8>) -> bool {
    valid_utf8(bytes) && trim_end_chars(decode_utf8(bytes)).len() > 0
}

/// The text of the event produced for a data read of `bytes`.
pub open spec fn event_text(bytes: Seq<u8>) -> Seq<char> {
    trim_end_chars(decode_utf8(bytes))
}

/// One iteration of a port worker's read loop, reduced to its decision.
///
/// A cancellation request stops the worker before anything else is
/// considered. Otherwise: arrived bytes that decode as UTF-8 and leave text
/// after trimming become an event; malformed bytes, empty-after-trim reads
/// and timeouts are dropped without an event and without terminating the
/// worker; any other read failure terminates this worker alone.
pub fn worker_step(port_name: &String, stop_requested: bool, read: ReadOutcome) -> (a:
    WorkerAction)
    ensures
        stop_requested ==> a is Stop,
        a matches WorkerAction::Emit(e) ==> !stop_requested && (read matches ReadOutcome::Data(b)
            && emits(b@) && e.port_name@ == port_name@ && e.text@ == event_text(b@)),
        !stop_requested ==> (read matches ReadOutcome::Data(b) ==> (a is Emit <==> emits(b@))),
        !stop_requested && read is TimedOut ==> a is Continue,
        !stop_requested ==> (a is Stop <==> read is Failed),
{
    if stop_requested {
        return WorkerAction::Stop;
    }
    match read {
        ReadOutcome::Data(bytes) => {
            match string_from_utf8(bytes) {
                Some(s) => {
                    let text = trim_end(&s);
                    if text.as_str().is_empty() {
                        WorkerAction::Continue
                    } else {
                        WorkerAction::Emit(
                            UartEvent { port_name: port_name.clone(), text },
                        )
                    }
                },
                None => WorkerAction::Continue,
            }
        },
        ReadOutcome::TimedOut => WorkerAction::Continue,
        ReadOutcome::Failed(_) => WorkerAction::Stop,
    }
}

/// Law: an emitted event's text is the decoded input with its trailing
/// whitespace removed — a prefix of the decoded characters, with every
/// dropped character whitespace, and nothing invented.
pub proof fn lemma_event_text_trims(bytes: Seq<u8>)
    ensures
        event_text(bytes) == trim_end_chars(decode_utf8(bytes)),
        event_text(bytes).len() <= decode_utf8(bytes).len(),
        event_text(bytes) == decode_utf8(bytes).subrange(0, event_text(bytes).len() as int),
        forall|i: int|
            event_text(bytes).len() <= i < decode_utf8(bytes).len()
                ==> crate::text::spec_is_trailing_ws(decode_utf8(bytes)[i]),
{
    crate::text::lemma_trim_end_is_prefix(decode_utf8(bytes));
}

/// Law: bytes that are not a valid UTF-8 encoding never produce an event;
/// the decode failure alone is no reason to emit or to terminate.
pub proof fn lemma_malformed_bytes_silent(bytes: Seq<u8>)
    ensures
        !valid_utf8(bytes) ==> !emits(bytes),
{
}

/// The supervisor's record of one worker: its configuration, and whether its
/// read loop is still running.
pub struct WorkerState {
    pub config: PortConfig,
    pub running: bool,
}

/// The supervisor's model of the ingestion engine: one worker per configured
/// port, each owning its device exclusively. Workers are started together,
/// run independently, and can be stopped one by one or all at once.
pub struct Supervisor {
    pub workers: Vec<WorkerState>,
}

impl Supervisor {
    /// Well-formed: every worker's configuration is valid, and no two
    /// workers watch the same port.
    pub open spec fn wf(self) -> bool {
        &&& forall|i: int| 0 <= i < self.workers@.len() ==> self.workers@[i].config.valid()
        &&& forall|i: int, j: int|
            0 <= i < j < self.workers@.len() ==> self.workers@[i].config.port_name@
                != self.workers@[j].config.port_name@
    }

    /// Launch the engine: exactly one worker per configuration, each
    /// running, in the order the configurations were given.
    pub fn start_uart(configs: Vec<PortConfig>) -> (s: Supervisor)
        requires
            forall|i: int| 0 <= i < configs@.len() ==> configs@[i].valid(),
            forall|i: int, j: int|
                0 <= i < j < configs@.len() ==> configs@[i].port_name@ != configs@[j].port_name@,
        ensures
            s.wf(),
            s.workers@.len() == configs@.len(),
            forall|i: int|
                0 <= i < configs@.len() ==> s.workers@[i].config == configs@[i]
                    && s.workers@[i].running,
    {
        let mut workers: Vec<WorkerState> = Vec::new();
        let mut i: usize = 0;
        while i < configs.len()
            invariant
                i <= configs@.len(),
                workers@.len() == i,
                forall|j: int|
                    0 <= j < i ==> workers@[j].config == configs@[j] && workers@[j].running,
            decreases configs@.len() - i,
        {
            let config = PortConfig {
                port_name: configs[i].port_name.clone(),
                baud_rate: configs[i].baud_rate,
            };
            workers.push(WorkerState { config, running: true });
            i = i + 1;
        }
        let s = Supervisor { workers };
        proof {
            assert forall|k: int| 0 <= k < s.workers@.len() implies s.workers@[k].config.valid() by {
                assert(s.workers@[k].config == configs@[k]);
            }
            assert forall|k: int, l: int|
                0 <= k < l < s.workers@.len() implies s.workers@[k].config.port_name@
                != s.workers@[l].config.port_name@ by {
                assert(s.workers@[k].config == configs@[k]);
                assert(s.workers@[l].config == configs@[l]);
            }
        }
        s
    }

    /// Record that worker `i`'s read loop ended (a fatal read failure, or a
    /// stop it was asked for). Every other worker is untouched: a failure in
    /// one worker never stops another.
    pub fn worker_stopped(&mut self, i: usize)
        requires
            i < old(self).workers@.len(),
        ensures
            final(self).workers@.len() == old(self).workers@.len(),
            final(self).workers@[i as int].config == old(self).workers@[i as int].config,
            !final(self).workers@[i as int].running,
            forall|j: int|
                0 <= j < old(self).workers@.len() && j != i ==> final(self).workers@[j] == old(
                    self,
                ).workers@[j],
            old(self).wf() ==> final(self).wf(),
    {
        let config = PortConfig {
            port_name: self.workers[i].config.port_name.clone(),
            baud_rate: self.workers[i].config.baud_rate,
        };
        self.workers[i] = WorkerState { config, running: false };
    }

    /// Request that the worker watching `port_name` stop; workers watching
    /// other ports are untouched. Asking for an unknown port changes
    /// nothing.
    pub fn stop_uart(&mut self, port_name: &String)
        ensures
            final(self).workers@.len() == old(self).workers@.len(),
            forall|i: int|
                0 <= i < old(self).workers@.len() ==> {
                    &&& (#[trigger] final(self).workers@[i]).config == old(self).workers@[i].config
                    &&& final(self).workers@[i].running == (old(self).workers@[i].running && old(
                        self,
                    ).workers@[i].config.port_name@ != port_name@)
                },
            old(self).wf() ==> final(self).wf(),
    {
        let n = self.workers.len();
        let mut i: usize = 0;
        while i < n
            invariant
                i <= n,
                n == self.workers@.len(),
                self.workers@.len() == old(self).workers@.len(),
                forall|j: int|
                    i <= j < old(self).workers@.len() ==> self.workers@[j] == old(
                        self,
                    ).workers@[j],
                forall|j: int|
                    0 <= j < i ==> {
                        &&& (#[trigger] self.workers@[j]).config == old(self).workers@[j].config
                        &&& self.workers@[j].running == (old(self).workers@[j].running && old(
                            self,
                        ).workers@[j].config.port_name@ != port_name@)
                    },
            decreases n - i,
        {
            if self.workers[i].config.port_name == *port_name {
                let config = PortConfig {
                    port_name: self.workers[i].config.port_name.clone(),
                    baud_rate: self.workers[i].config.baud_rate,
                };
                self.workers[i] = WorkerState { config, running: false };
            }
            i = i + 1;
        }
    }

    /// Request that every worker stop.
    pub fn stop_all(&mut self)
        ensures
            final(self).workers@.len() == old(self).workers@.len(),
            forall|i: int|
                0 <= i < old(self).workers@.len() ==> final(self).workers@[i].config == old(
                    self,
                ).workers@[i].config && !final(self).workers@[i].running,
            old(self).wf() ==> final(self).wf(),
    {
        let n = self.workers.len();
        let mut i: usize = 0;
        while i < n
            invariant
                i <= n,
                n == self.workers@.len(),
                self.workers@.len() == old(self).workers@.len(),
                forall|j: int|
                    i <= j < old(self).workers@.len() ==> self.workers@[j] == old(
                        self,
                    ).workers@[j],
                forall|j: int|
                    0 <= j < i ==> self.workers@[j].config == old(self).workers@[j].config
                        && !self.workers@[j].running,
            decreases n - i,
        {
            let config = PortConfig {
                port_name: self.workers[i].config.port_name.clone(),
                baud_rate: self.workers[i].config.baud_rate,
            };
            self.workers[i] = WorkerState { config, running: false };
            i = i + 1;
        }
    }
}

} // verus!
