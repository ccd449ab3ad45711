use vstd::prelude::*;

verus! {

/// One key/value attribute, attached to a counter sample or a span event at
/// the moment it is recorded; the exporter aggregates by attribute set.
pub struct Attribute {
    pub key: String,
    pub value: String,
}

/// The two counters this service records.
#[derive(Clone, Copy, PartialEq, Eq, Structural, Debug)]
pub enum CounterId {
    Requests,
    Responses,
}

/// One recorded increment: the attributes that were attached when it ran.
pub struct Increment {
    pub attributes: Vec<Attribute>,
}

/// A named counter: a monotonically increasing 64-bit total plus the log of
/// its increments.
pub struct Counter {
    pub name: String,
    pub total: u64,
    pub samples: Vec<Increment>,
}

impl Counter {
    /// No increment is ever lost or double-counted: the running total equals
    /// the number of recorded samples.
    pub open spec fn wf(self) -> bool {
        self.total as int == self.samples@.len()
    }

    pub fn new(name: String) -> (r: Counter)
        ensures
            r.wf(),
            r.name@ == name@,
            r.total == 0,
            r.samples@.len() == 0,
    {
        Counter { name, total: 0, samples: Vec::new() }
    }
}

/// Process-wide metrics state: created once at startup, then shared with
/// every in-flight request. Callers that run concurrently must serialize
/// their calls (the embedding wraps this state in a lock); each call here is
/// one atomic increment of the model below.
pub struct MetricsState {
    pub service_name: String,
    pub requests: Counter,
    pub responses: Counter,
}

impl MetricsState {
    pub open spec fn wf(self) -> bool {
        &&& self.requests.wf()
        &&& self.responses.wf()
        &&& self.requests.name@ == "requests"@
        &&& self.responses.name@ == "responses"@
    }

    /// The counter a `CounterId` names.
    pub open spec fn counter(self, id: CounterId) -> Counter {
        match id {
            CounterId::Requests => self.requests,
            CounterId::Responses => self.responses,
        }
    }

    pub fn new(service_name: String) -> (r: MetricsState)
        ensures
            r.wf(),
            r.service_name@ == service_name@,
            r.requests.total == 0,
            r.responses.total == 0,
            r.requests.samples@.len() == 0,
            r.responses.samples@.len() == 0,
    {
        MetricsState {
            service_name,
            requests: Counter::new("requests".to_owned()),
            responses: Counter::new("responses".to_owned()),
        }
    }

    /// Add one to the named counter and log the attributes of this increment;
    /// the other counter is untouched. This is exactly one `spec_increment`
    /// step of the counter model.
    pub fn increment(&mut self, id: CounterId, attributes: Vec<Attribute>)
        requires
            old(self).wf(),
            old(self).counter(id).total < u64::MAX,
        ensures
            final(self).wf(),
            final(self).service_name == old(self).service_name,
            (final(self).requests.total as int, final(self).responses.total as int)
                == spec_increment(
                old(self).requests.total as int,
                old(self).responses.total as int,
                id,
            ),
            final(self).counter(id).name == old(self).counter(id).name,
            final(self).counter(id).samples@.len() == old(self).counter(id).samples@.len() + 1,
            forall|i: int|
                0 <= i < old(self).counter(id).samples@.len() ==> final(self).counter(
                    id,
                ).samples@[i] == old(self).counter(id).samples@[i],
            final(self).counter(id).samples@.last().attributes == attributes,
            id == CounterId::Requests ==> final(self).responses == old(self).responses,
            id == CounterId::Responses ==> final(self).requests == old(self).requests,
    {
        let inc = Increment { attributes };
        match id {
            CounterId::Requests => {
                self.requests.total = self.requests.total + 1;
                self.requests.samples.push(inc);
            },
            CounterId::Responses => {
                self.responses.total = self.responses.total + 1;
                self.responses.samples.push(inc);
            },
        }
    }

    /// Read-only snapshot of the two totals, for the exporter's periodic
    /// flush.
    pub fn snapshot(&self) -> (r: (u64, u64))
        ensures
            r.0 == self.requests.total,
            r.1 == self.responses.total,
    {
        (self.requests.total, self.responses.total)
    }
}

/// One increment, on the abstract counter model: a pair of running totals.
pub open spec fn spec_increment(requests: int, responses: int, id: CounterId) -> (int, int) {
    match id {
        CounterId::Requests => (requests + 1, responses),
        CounterId::Responses => (requests, responses + 1),
    }
}

/// A whole schedule of increments, applied in order.
pub open spec fn spec_apply(requests: int, responses: int, ops: Seq<CounterId>) -> (int, int)
    decreases ops.len(),
{
    if ops.len() == 0 {
        (requests, responses)
    } else {
        let first = spec_increment(requests, responses, ops[0]);
        spec_apply(first.0, first.1, ops.drop_first())
    }
}

/// How many of a schedule's increments hit the named counter.
pub open spec fn count_of(ops: Seq<CounterId>, id: CounterId) -> int
    decreases ops.len(),
{
    if ops.len() == 0 {
        0
    } else {
        (if ops[0] == id {
            1int
        } else {
            0int
        }) + count_of(ops.drop_first(), id)
    }
}

/// Law: for any schedule of increments — any count, any interleaving — the
/// "requests" total rises by exactly the number of request increments and the
/// "responses" total by exactly the number of response increments: no update
/// is lost, and the order of concurrent increments is irrelevant to the
/// final totals.
pub proof fn lemma_no_lost_updates(requests: int, responses: int, ops: Seq<CounterId>)
    ensures
        spec_apply(requests, responses, ops).0 == requests + count_of(ops, CounterId::Requests),
        spec_apply(requests, responses, ops).1 == responses + count_of(ops, CounterId::Responses),
    decreases ops.len(),
{
    if ops.len() > 0 {
        let first = spec_increment(requests, responses, ops[0]);
        lemma_no_lost_updates(first.0, first.1, ops.drop_first());
    }
}

} // verus!
