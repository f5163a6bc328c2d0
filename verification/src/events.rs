//! PTY lifecycle events and the verified model of the per-session reader
//! loop: each blocking read yields an outcome, each outcome becomes at
//! most one event, and exactly one terminal event ends the stream.

use vstd::prelude::*;
use vstd::string::StringExecFns;

verus! {

/// A lifecycle event of one PTY session, published by its reader loop
/// and consumed once by the bridge.
pub enum PtyEvent {
    /// Output bytes were read; they have already been fed to the shared
    /// emulator state by the reader before this event was published.
    Output { pty_id: String, data: Vec<u8> },
    /// The PTY reached end of file: the child is gone.
    Exited { pty_id: String, exit_code: Option<i32> },
    /// The read failed; the reader loop has stopped, but the child may
    /// still be alive.
    Error { pty_id: String, message: String },
}

/// What one blocking read from the PTY master yielded.
pub enum ReadOutcome {
    /// Zero bytes: end of file.
    Eof,
    /// A chunk of output bytes.
    Data(Vec<u8>),
    /// A read error, as a message.
    Failed(String),
}

/// An event that ends the reader loop.
pub open spec fn spec_is_terminal(e: &PtyEvent) -> bool {
    !(e is Output)
}

/// The index of the first outcome that stops the reader loop, or the
/// sequence length when every outcome is data.
pub open spec fn spec_first_stop(outs: Seq<ReadOutcome>) -> int
    decreases outs.len(),
{
    if outs.len() == 0 {
        0
    } else if !(outs[0] is Data) {
        0
    } else {
        1 + spec_first_stop(outs.drop_first())
    }
}

/// Concatenation of all data chunks of a read-outcome sequence, in order.
pub open spec fn spec_reads_concat(outs: Seq<ReadOutcome>) -> Seq<u8>
    decreases outs.len(),
{
    if outs.len() == 0 {
        Seq::empty()
    } else {
        spec_reads_concat(outs.drop_last()) + (match outs.last() {
            ReadOutcome::Data(d) => d@,
            _ => Seq::empty(),
        })
    }
}

/// Concatenation of the payloads of all `Output` events, in order.
pub open spec fn spec_outputs_concat(events: Seq<PtyEvent>) -> Seq<u8>
    decreases events.len(),
{
    if events.len() == 0 {
        Seq::empty()
    } else {
        spec_outputs_concat(events.drop_last()) + (match events.last() {
            PtyEvent::Output { pty_id: _, data } => data@,
            _ => Seq::empty(),
        })
    }
}

proof fn lemma_first_stop_props(outs: Seq<ReadOutcome>)
    ensures
        0 <= spec_first_stop(outs) <= outs.len(),
        forall|j: int| 0 <= j < spec_first_stop(outs) ==> (#[trigger] outs[j]) is Data,
        spec_first_stop(outs) < outs.len() ==> !((outs[spec_first_stop(outs)]) is Data),
    decreases outs.len(),
{
    if outs.len() > 0 && outs[0] is Data {
        lemma_first_stop_props(outs.drop_first());
        assert forall|j: int| 0 <= j < spec_first_stop(outs) implies (#[trigger] outs[j])
            is Data by {
            if j > 0 {
                assert(outs.drop_first()[j - 1] == outs[j]);
            }
        }
        if spec_first_stop(outs) < outs.len() {
            assert(outs.drop_first()[spec_first_stop(outs) - 1] == outs[spec_first_stop(outs)]);
        }
    }
}

fn copy_bytes(v: &Vec<u8>) -> (r: Vec<u8>)
    ensures
        r@ == v@,
{
    let n: usize = v.len();
    let mut r: Vec<u8> = Vec::new();
    let mut i: usize = 0;
    while i < n
        invariant
            n == v@.len(),
            i <= n,
            r@ =~= v@.subrange(0, i as int),
        decreases n - i,
    {
        r.push(v[i]);
        proof {
            assert(r@ =~= v@.subrange(0, i + 1));
        }
        i = i + 1;
    }
    proof {
        assert(v@.subrange(0, n as int) =~= v@);
    }
    r
}

/// Turns one read outcome into the event the reader publishes, and says
/// whether the loop goes on: data keeps it running, end of file becomes
/// `Exited` with no code, a failed read becomes `Error`; both stop it.
pub fn reader_step(pty_id: &str, outcome: &ReadOutcome) -> (r: (PtyEvent, bool))
    ensures
        (outcome matches ReadOutcome::Data(d) ==> (r.0 matches PtyEvent::Output {
            pty_id: id,
            data,
        } && id@ == pty_id@ && data@ == d@ && r.1 == true)),
        (outcome is Eof ==> (r.0 matches PtyEvent::Exited { pty_id: id, exit_code } && id@
            == pty_id@ && exit_code is None && r.1 == false)),
        (outcome matches ReadOutcome::Failed(m) ==> (r.0 matches PtyEvent::Error {
            pty_id: id,
            message,
        } && id@ == pty_id@ && message@ == m@ && r.1 == false)),
{
    match outcome {
        ReadOutcome::Data(d) => {
            let data = copy_bytes(d);
            (PtyEvent::Output { pty_id: String::from_str(pty_id), data }, true)
        },
        ReadOutcome::Eof => {
            (PtyEvent::Exited { pty_id: String::from_str(pty_id), exit_code: None }, false)
        },
        ReadOutcome::Failed(m) => {
            let message = String::from_str(m.as_str());
            (PtyEvent::Error { pty_id: String::from_str(pty_id), message }, false)
        },
    }
}

/// The reader loop of one session over a given sequence of read
/// outcomes: every data chunk becomes one `Output` event in production
/// order, and the first non-data outcome becomes the single terminal
/// event, after which nothing further is published. The concatenated
/// payload of the `Output` events equals the concatenated data of the
/// reads, in order.
pub fn run_reader(pty_id: &str, outcomes: &Vec<ReadOutcome>) -> (r: Vec<PtyEvent>)
    ensures
        ({
            let k = spec_first_stop(outcomes@);
            &&& r@.len() == k + (if k < outcomes@.len() {
                1int
            } else {
                0int
            })
            &&& forall|i: int|
                0 <= i < r@.len() ==> (spec_is_terminal(&r@[i]) <==> (i == k && k
                    < outcomes@.len()))
            &&& forall|i: int|
                0 <= i < k ==> ((#[trigger] r@[i]) matches PtyEvent::Output { pty_id: id, data }
                    && id@ == pty_id@)
            &&& (k < outcomes@.len() && outcomes@[k] is Eof ==> (r@[k]
                matches PtyEvent::Exited { pty_id: id, exit_code } && id@ == pty_id@ && exit_code
                is None))
            &&& (k < outcomes@.len() ==> (outcomes@[k] matches ReadOutcome::Failed(m) ==> (r@[k]
                matches PtyEvent::Error { pty_id: id, message } && id@ == pty_id@ && message@
                == m@)))
            &&& spec_outputs_concat(r@) == spec_reads_concat(outcomes@.subrange(0, k))
        }),
{
    proof {
        lemma_first_stop_props(outcomes@);
    }
    let ghost k = spec_first_stop(outcomes@);
    let n: usize = outcomes.len();
    let mut r: Vec<PtyEvent> = Vec::new();
    let mut i: usize = 0;
    let mut stopped: bool = false;
    proof {
        assert(outcomes@.subrange(0, 0) =~= Seq::<ReadOutcome>::empty());
    }
    while i < n && !stopped
        invariant
            n == outcomes@.len(),
            k == spec_first_stop(outcomes@),
            0 <= k <= n,
            forall|j: int| 0 <= j < k ==> (#[trigger] outcomes@[j]) is Data,
            k < n ==> !((outcomes@[k as int]) is Data),
            i <= n,
            !stopped ==> i <= k && r@.len() == i,
            stopped ==> i == k + 1 && r@.len() == i,
            forall|j: int|
                0 <= j < r@.len() ==> (spec_is_terminal(&r@[j]) <==> (j == k && k < n)),
            forall|j: int|
                0 <= j < r@.len() && j < k ==> ((#[trigger] r@[j]) matches PtyEvent::Output {
                    pty_id: id,
                    data,
                } && id@ == pty_id@),
            (r@.len() > k && outcomes@[k as int] is Eof ==> (r@[k as int]
                matches PtyEvent::Exited { pty_id: id, exit_code } && id@ == pty_id@ && exit_code
                is None)),
            (r@.len() > k ==> (outcomes@[k as int] matches ReadOutcome::Failed(m) ==> (r@[k as int]
                matches PtyEvent::Error { pty_id: id, message } && id@ == pty_id@ && message@
                == m@))),
            spec_outputs_concat(r@) == spec_reads_concat(outcomes@.subrange(0, (if i <= k {
                i as int
            } else {
                k as int
            }))),
        decreases n - i,
    {
        let (ev, keep_going) = reader_step(pty_id, &outcomes[i]);
        proof {
            let ghost rr = r@.push(ev);
            assert(rr.drop_last() =~= r@);
        }
        r.push(ev);
        if !keep_going {
            stopped = true;
            proof {
                assert(i == k);
                assert(outcomes@.subrange(0, k as int) =~= outcomes@.subrange(0, (if i + 1 <= k {
                    i + 1
                } else {
                    k as int
                })));
            }
        } else {
            proof {
                assert(i < k || i == k);
                assert((outcomes@[i as int]) is Data);
                assert(i != k);
                let pre = outcomes@.subrange(0, i as int);
                let post = outcomes@.subrange(0, i + 1);
                assert(post.drop_last() =~= pre);
                assert(post.last() == outcomes@[i as int]);
            }
        }
        i = i + 1;
    }
    proof {
        if !stopped {
            assert(i == n);
            assert(k == n);
            assert(outcomes@.subrange(0, k as int) =~= outcomes@.subrange(0, (if i <= k {
                i as int
            } else {
                k as int
            })));
        }
    }
    r
}

} // verus!
