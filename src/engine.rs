use crate::address::{IpAddress, IpType};
use crate::config::DomainConfig;
use crate::errors::{DnessError, DnsError, ErrorKindView};
use crate::providers::{
    domain_accepts, domain_endpoint, domain_hostname, domain_records, domain_request,
    provider_name, strings_view, supports, Provider,
};
use crate::request::{UpdateRequest, UpdateRequestView};
use crate::summary::{fits, lemma_tally_push, tally_all, RecordOutcome, Tally, Updates};
use crate::text::is_apex;
use vstd::prelude::*;

verus! {

/// The absolute name that DNS is asked about for `record` of zone `hostname`:
/// the zone itself for `@`, else the record under the zone, with a trailing dot.
pub open spec fn verified_name(hostname: Seq<char>, record: Seq<char>) -> Seq<char> {
    if record == "@"@ {
        hostname + "."@
    } else {
        record + "."@ + hostname + "."@
    }
}

/// The absolute name to verify for `record` of zone `hostname`.
pub fn fqdn(hostname: &str, record: &str) -> (r: String)
    ensures
        r@ == verified_name(hostname@, record@),
{
    if is_apex(record) {
        String::from_str(hostname).concat(".")
    } else {
        String::from_str(record).concat(".").concat(hostname).concat(".")
    }
}

/// What the DNS check says of one record.
#[derive(Clone, Copy, Debug, PartialEq, Eq, Structural)]
pub enum Verdict {
    /// DNS publishes exactly the WAN address.
    Current,
    /// DNS publishes exactly one address, and it is not the WAN address.
    Stale,
    /// DNS gave no single address, or the lookup failed.
    Missing,
}

/// The single address that a lookup produced, if it produced one.
pub open spec fn answer_of(lookup: Result<IpAddress, DnsError>) -> Option<IpAddress> {
    match lookup {
        Ok(a) => Some(a),
        Err(_) => None,
    }
}

pub open spec fn verdict(answer: Option<IpAddress>, wan: IpAddress) -> Verdict {
    match answer {
        Some(a) => if a == wan {
            Verdict::Current
        } else {
            Verdict::Stale
        },
        None => Verdict::Missing,
    }
}

/// Classifies a lookup's result against the WAN address.
pub fn classify(lookup: &Result<IpAddress, DnsError>, wan: IpAddress) -> (r: Verdict)
    ensures
        r == verdict(answer_of(*lookup), wan),
{
    match lookup {
        Ok(a) => if *a == wan {
            Verdict::Current
        } else {
            Verdict::Stale
        },
        Err(_) => Verdict::Missing,
    }
}

/// The answer that a list of looked-up addresses gives: its address when it
/// holds exactly one.
pub open spec fn lookup_answer(addrs: Seq<IpAddress>) -> Option<IpAddress> {
    if addrs.len() == 1 {
        Some(addrs[0])
    } else {
        None
    }
}

/// A lookup's result when it must name exactly one address: the address, or
/// the number of addresses there were instead.
pub fn single_address(addrs: Vec<IpAddress>) -> (r: Result<IpAddress, DnsError>)
    ensures
        answer_of(r) == lookup_answer(addrs@),
        addrs@.len() == 1 ==> r == Ok::<IpAddress, DnsError>(addrs@[0]),
        addrs@.len() != 1 ==> (r matches Err(e) && e.kind matches
            crate::errors::DnsErrorKind::UnexpectedResponse(n) && n == addrs@.len()),
{
    if addrs.len() == 1 {
        Ok(addrs[0])
    } else {
        Err(DnsError { kind: crate::errors::DnsErrorKind::UnexpectedResponse(addrs.len()) })
    }
}

/// The outcome of a record whose DNS answer was `answer`, once any write it
/// needed has succeeded.
pub open spec fn settled(answer: Option<IpAddress>, wan: IpAddress) -> RecordOutcome {
    match verdict(answer, wan) {
        Verdict::Current => RecordOutcome::Current,
        Verdict::Stale => RecordOutcome::Updated,
        Verdict::Missing => RecordOutcome::Missing,
    }
}

/// The outcomes of a pass whose DNS answers were `answers`, one per record,
/// when every write succeeds.
pub open spec fn pass_outcomes(answers: Seq<Option<IpAddress>>, wan: IpAddress) -> Seq<RecordOutcome> {
    answers.map_values(|a: Option<IpAddress>| settled(a, wan))
}

/// The update requests of a pass over the first records of `d` whose DNS
/// answers were `answers`: one for each stale record, in record order.
pub open spec fn pass_writes(
    d: DomainConfig,
    wan: IpAddress,
    answers: Seq<Option<IpAddress>>,
) -> Seq<UpdateRequestView>
    decreases answers.len(),
{
    if answers.len() == 0 {
        Seq::empty()
    } else {
        let i = answers.len() - 1;
        let before = pass_writes(d, wan, answers.drop_last());
        if verdict(answers[i], wan) == Verdict::Stale {
            before.push(domain_request(d, domain_records(d)[i], wan))
        } else {
            before
        }
    }
}

/// The DNS answers seen by a second pass right after a pass that saw
/// `answers` and whose writes all took effect at once: a record that showed a
/// single address now shows the WAN address (it was current, or was just
/// written); a record that showed none was not written and shows none still.
pub open spec fn published(answers: Seq<Option<IpAddress>>, wan: IpAddress) -> Seq<Option<IpAddress>> {
    answers.map_values(
        |a: Option<IpAddress>|
            match a {
                Some(_) => Some(wan),
                None => None,
            },
    )
}

/// Reconciling again with an unchanged WAN address, once the first pass's
/// writes are visible, writes nothing: every record that was current or was
/// updated is now current, and a record that was missing is missing still.
/// So when no record was missing, every record comes out current.
pub proof fn lemma_rerun_is_idempotent(d: DomainConfig, wan: IpAddress, answers: Seq<Option<IpAddress>>)
    ensures
        pass_writes(d, wan, published(answers, wan)) == Seq::<UpdateRequestView>::empty(),
        pass_outcomes(published(answers, wan), wan).len() == answers.len(),
        forall|i: int|
            0 <= i < answers.len() ==> #[trigger] pass_outcomes(published(answers, wan), wan)[i] == (
            if answers[i] is Some {
                RecordOutcome::Current
            } else {
                RecordOutcome::Missing
            }),
        (forall|i: int| 0 <= i < answers.len() ==> #[trigger] answers[i] is Some) ==> forall|i: int|
            0 <= i < answers.len() ==> #[trigger] pass_outcomes(published(answers, wan), wan)[i]
                == RecordOutcome::Current,
    decreases answers.len(),
{
    if answers.len() > 0 {
        lemma_rerun_is_idempotent(d, wan, answers.drop_last());
        assert(published(answers, wan).drop_last() == published(answers.drop_last(), wan));
    }
}

/// The per-record rules, for a lookup that found the addresses `addrs`:
/// exactly one address, equal to the WAN address, makes the record current
/// and sends nothing; exactly one other address hands out exactly one update
/// request, for that record (if the provider supports the family), and a
/// success body for it makes the record updated; no address, or several,
/// make the record missing and send nothing.
pub proof fn lemma_record_rules(
    v: ReconcilerView,
    w: ReconcilerView,
    addrs: Seq<IpAddress>,
    step: Step,
    u: ReconcilerView,
    body: String,
    next: Step,
)
    requires
        w.domain == v.domain,
        w.wan == v.wan,
        looked_up(v, w, lookup_answer(addrs), step),
    ensures
        addrs.len() == 1 && addrs[0] == v.wan ==> w.outcomes == v.outcomes.push(
            RecordOutcome::Current,
        ) && w.requests == v.requests,
        addrs.len() == 1 && addrs[0] != v.wan && supports(v.domain, v.wan.family()) ==> {
            let record = domain_records(v.domain)[v.outcomes.len() as int];
            &&& w.requests == v.requests.push(domain_request(v.domain, record, v.wan))
            &&& step matches Step::Send(req)
            &&& req@ == domain_request(v.domain, record, v.wan)
            &&& (responded(w, u, Exchange::Body(body), next) && domain_accepts(v.domain, body@))
                ==> u.outcomes == v.outcomes.push(RecordOutcome::Updated)
        },
        addrs.len() != 1 ==> w.outcomes == v.outcomes.push(RecordOutcome::Missing) && w.requests
            == v.requests,
{
}

/// What the transport made of one update request.
#[derive(Debug)]
pub enum Exchange {
    /// The request could not be formed or sent.
    SendFailed(reqwest::Error),
    /// The provider answered with a status that is not a success.
    BadStatus(reqwest::Error),
    /// The answer's body could not be read.
    Unreadable(reqwest::Error),
    /// The provider answered with a success status and this body.
    Body(String),
}

/// What the caller is asked to do next.
#[derive(Debug)]
pub enum Step {
    /// Look up `fqdn` for addresses of family `ip_type`, and report the result
    /// with `on_lookup`.
    Verify { fqdn: String, ip_type: IpType },
    /// Send this request, and report what came of it with `on_response`.
    Send(UpdateRequest),
    /// The domain is done: its summary, or the write failure that ended it.
    Finished(Result<Updates, DnessError>),
}

/// Where a reconciliation stands.
#[derive(Clone, Copy, Debug, PartialEq, Eq, Structural)]
pub enum Phase {
    /// Waiting for the lookup of the current record.
    Verifying,
    /// Waiting for the answer to the current record's update request.
    Writing,
    /// Every record was handled.
    Finished,
    /// A write failed; the remaining records were left alone.
    Failed,
}

/// The abstract state of a reconciliation.
pub struct ReconcilerView {
    pub domain: DomainConfig,
    pub wan: IpAddress,
    pub phase: Phase,
    /// The DNS answers received so far, one per record, in record order.
    pub answers: Seq<Option<IpAddress>>,
    /// The outcomes of the records handled so far, in record order.
    pub outcomes: Seq<RecordOutcome>,
    /// Every update request handed out so far, in order.
    pub requests: Seq<UpdateRequestView>,
}

/// Reconciles one domain's records against one WAN address, one record at a
/// time and in configured order. A record is written only when DNS shows
/// exactly one address and it differs from the WAN address; a lookup that
/// fails or is ambiguous counts the record as missing. The first failed
/// write ends the domain's pass with that error.
pub struct Reconciler<'a> {
    provider: Provider<'a>,
    hostname: String,
    records: Vec<String>,
    wan: IpAddress,
    index: usize,
    phase: Phase,
    summary: Updates,
    answers: Ghost<Seq<Option<IpAddress>>>,
    outcomes: Ghost<Seq<RecordOutcome>>,
    requests: Ghost<Seq<UpdateRequestView>>,
}

/// The step that follows once the records before `v.outcomes.len()` are
/// handled: verify the next record, or finish with the tally of the outcomes.
pub open spec fn moves_on(v: ReconcilerView, step: Step) -> bool {
    let records = domain_records(v.domain);
    let n = v.outcomes.len();
    if n < records.len() {
        &&& v.phase == Phase::Verifying
        &&& step matches Step::Verify { fqdn, ip_type }
        &&& fqdn@ == verified_name(domain_hostname(v.domain), records[n as int])
        &&& ip_type == v.wan.family()
    } else {
        &&& v.phase == Phase::Finished
        &&& step matches Step::Finished(Ok(s))
        &&& s@ == tally_all(v.outcomes)
    }
}

/// The context named in a write failure.
pub open spec fn update_context(d: DomainConfig) -> Seq<char> {
    provider_name(d) + " update"@
}

/// How a lookup with answer `a` moves the reconciliation from `v` to `w`,
/// handing out `step`.
pub open spec fn looked_up(v: ReconcilerView, w: ReconcilerView, a: Option<IpAddress>, step: Step) -> bool {
    let record = domain_records(v.domain)[v.outcomes.len() as int];
    match verdict(a, v.wan) {
        Verdict::Current => {
            &&& w.outcomes == v.outcomes.push(RecordOutcome::Current)
            &&& w.requests == v.requests
            &&& moves_on(w, step)
        },
        Verdict::Missing => {
            &&& w.outcomes == v.outcomes.push(RecordOutcome::Missing)
            &&& w.requests == v.requests
            &&& moves_on(w, step)
        },
        Verdict::Stale => if supports(v.domain, v.wan.family()) {
            &&& w.phase == Phase::Writing
            &&& w.outcomes == v.outcomes
            &&& w.requests == v.requests.push(domain_request(v.domain, record, v.wan))
            &&& step matches Step::Send(req)
            &&& req@ == domain_request(v.domain, record, v.wan)
        } else {
            &&& w.phase == Phase::Failed
            &&& w.outcomes == v.outcomes
            &&& w.requests == v.requests
            &&& step matches Step::Finished(Err(e))
            &&& e.spec_kind()@ == crate::providers::unsupported_error(v.domain, v.wan.family())
        },
    }
}

/// How the answer to an update request moves the reconciliation from `v` to
/// `w`, handing out `step`.
pub open spec fn responded(v: ReconcilerView, w: ReconcilerView, x: Exchange, step: Step) -> bool {
    let url = domain_endpoint(v.domain);
    let context = update_context(v.domain);
    match x {
        Exchange::Body(body) => if domain_accepts(v.domain, body@) {
            &&& w.outcomes == v.outcomes.push(RecordOutcome::Updated)
            &&& moves_on(w, step)
        } else {
            &&& w.phase == Phase::Failed
            &&& w.outcomes == v.outcomes
            &&& step matches Step::Finished(Err(e))
            &&& e.spec_kind()@ == (ErrorKindView::Rejected { body: body@ })
        },
        Exchange::SendFailed(cause) => {
            &&& w.phase == Phase::Failed
            &&& w.outcomes == v.outcomes
            &&& step matches Step::Finished(Err(e))
            &&& e.spec_kind()@ == (ErrorKindView::SendHttp { url, context })
            &&& e.spec_source() == Some(crate::errors::ErrorSource::Http(cause))
        },
        Exchange::BadStatus(cause) => {
            &&& w.phase == Phase::Failed
            &&& w.outcomes == v.outcomes
            &&& step matches Step::Finished(Err(e))
            &&& e.spec_kind()@ == (ErrorKindView::BadResponse { url, context })
            &&& e.spec_source() == Some(crate::errors::ErrorSource::Http(cause))
        },
        Exchange::Unreadable(cause) => {
            &&& w.phase == Phase::Failed
            &&& w.outcomes == v.outcomes
            &&& step matches Step::Finished(Err(e))
            &&& e.spec_kind()@ == (ErrorKindView::Deserialize { url, context })
            &&& e.spec_source() == Some(crate::errors::ErrorSource::Http(cause))
        },
    }
}

/// The counters of a tally add up to the number of outcomes tallied.
proof fn lemma_tally_total(s: Seq<RecordOutcome>)
    ensures
        tally_all(s).current + tally_all(s).updated + tally_all(s).missing == s.len(),
    decreases s.len(),
{
    if s.len() > 0 {
        lemma_tally_total(s.drop_first());
    }
}

impl<'a> View for Reconciler<'a> {
    type V = ReconcilerView;

    closed spec fn view(&self) -> ReconcilerView {
        ReconcilerView {
            domain: self.provider.spec_domain(),
            wan: self.wan,
            phase: self.phase,
            answers: self.answers@,
            outcomes: self.outcomes@,
            requests: self.requests@,
        }
    }
}

impl<'a> Reconciler<'a> {
    /// The internal invariant.
    pub closed spec fn inv(&self) -> bool {
        let d = self.provider.spec_domain();
        let records = domain_records(d);
        &&& self.provider.wf()
        &&& self.hostname@ == domain_hostname(d)
        &&& strings_view(self.records@) == records
        &&& self.index == self.outcomes@.len()
        &&& self.index <= self.records@.len()
        &&& self.summary@ == tally_all(self.outcomes@)
        &&& (self.phase == Phase::Verifying || self.phase == Phase::Writing) ==> self.index
            < self.records@.len()
        &&& self.phase == Phase::Finished ==> self.index == self.records@.len()
        &&& (self.phase == Phase::Verifying || self.phase == Phase::Finished) ==> {
            &&& self.answers@.len() == self.index
            &&& self.outcomes@ == pass_outcomes(self.answers@, self.wan)
            &&& self.requests@ == pass_writes(d, self.wan, self.answers@)
        }
        &&& self.phase == Phase::Writing ==> {
            &&& self.answers@.len() == self.index + 1
            &&& verdict(self.answers@.last(), self.wan) == Verdict::Stale
            &&& self.outcomes@ == pass_outcomes(self.answers@.drop_last(), self.wan)
            &&& self.requests@ == pass_writes(d, self.wan, self.answers@)
        }
    }

    /// Moves to the next record, or finishes when none is left.
    fn advance(&mut self) -> (step: Step)
        requires
            old(self).inv(),
            old(self).phase == Phase::Verifying || old(self).phase == Phase::Finished,
            old(self).index < old(self).records@.len() ==> old(self).phase == Phase::Verifying,
            old(self).index == old(self).records@.len() ==> old(self).phase == Phase::Finished,
        ensures
            final(self).inv(),
            final(self)@ == old(self)@,
            moves_on(final(self)@, step),
    {
        if self.index < self.records.len() {
            let name = fqdn(self.hostname.as_str(), self.records[self.index].as_str());
            proof {
                assert(strings_view(self.records@)[self.index as int] == self.records@[self.index as int]@);
            }
            Step::Verify { fqdn: name, ip_type: self.wan.ip_type() }
        } else {
            Step::Finished(Ok(self.summary))
        }
    }

    /// Where the reconciliation stands: `on_lookup` is owed in `Verifying`,
    /// `on_response` in `Writing`.
    pub fn phase(&self) -> (r: Phase)
        ensures
            r == self@.phase,
    {
        self.phase
    }

    /// Between steps, the records handled so far are those whose answers were
    /// received, with the outcomes and requests that the pass model gives them;
    /// when the pass is finished, every record was handled.
    pub proof fn lemma_pass_recorded(&self)
        requires
            self.inv(),
            self@.phase == Phase::Verifying || self@.phase == Phase::Finished,
        ensures
            self@.outcomes == pass_outcomes(self@.answers, self@.wan),
            self@.requests == pass_writes(self@.domain, self@.wan, self@.answers),
            self@.answers.len() <= domain_records(self@.domain).len(),
            self@.phase == Phase::Finished ==> self@.answers.len() == domain_records(
                self@.domain,
            ).len(),
    {
    }

    /// Counts the current record, whose answer is already noted, with outcome
    /// `o`, and moves on.
    fn conclude(&mut self, o: RecordOutcome) -> (step: Step)
        requires
            old(self).provider.wf(),
            old(self).hostname@ == domain_hostname(old(self).provider.spec_domain()),
            strings_view(old(self).records@) == domain_records(old(self).provider.spec_domain()),
            old(self).index == old(self).outcomes@.len(),
            old(self).index < old(self).records@.len(),
            old(self).summary@ == tally_all(old(self).outcomes@),
            old(self).answers@.len() == old(self).index + 1,
            old(self).outcomes@ == pass_outcomes(old(self).answers@.drop_last(), old(self).wan),
            old(self).requests@ == pass_writes(
                old(self).provider.spec_domain(),
                old(self).wan,
                old(self).answers@,
            ),
            o == settled(old(self).answers@.last(), old(self).wan),
        ensures
            final(self).inv(),
            final(self)@.domain == old(self)@.domain,
            final(self)@.wan == old(self)@.wan,
            final(self)@.answers == old(self)@.answers,
            final(self)@.outcomes == old(self)@.outcomes.push(o),
            final(self)@.requests == old(self)@.requests,
            moves_on(final(self)@, step),
    {
        let n = self.records.len();
        proof {
            lemma_tally_total(self.outcomes@);
            lemma_tally_push(self.outcomes@, o);
            assert(self.index < n);
            assert(usize::MAX <= u64::MAX);
            assert(fits(self.summary@.plus(Tally::of(o))));
            let ans = self.answers@;
            assert(pass_outcomes(ans, self.wan) =~= pass_outcomes(ans.drop_last(), self.wan).push(o));
        }
        self.summary.record(o);
        self.outcomes = Ghost(self.outcomes@.push(o));
        self.index = self.index + 1;
        self.phase = if self.index < self.records.len() {
            Phase::Verifying
        } else {
            Phase::Finished
        };
        self.advance()
    }

    /// The context in which write failures are reported.
    fn context(&self) -> (r: String)
        ensures
            r@ == update_context(self.provider.spec_domain()),
    {
        String::from_str(self.provider.name()).concat(" update")
    }

    /// Takes the result of the lookup that the last `Step::Verify` asked for.
    ///
    /// One address equal to the WAN address: the record is current. One other
    /// address: the record's update request is handed out, unless the provider
    /// cannot publish the WAN address's family, which fails the pass with no
    /// request. No single address, or a failed lookup: the record is missing.
    pub fn on_lookup(&mut self, lookup: Result<IpAddress, DnsError>) -> (step: Step)
        requires
            old(self).inv(),
            old(self)@.phase == Phase::Verifying,
        ensures
            final(self).inv(),
            final(self)@.domain == old(self)@.domain,
            final(self)@.wan == old(self)@.wan,
            final(self)@.answers == old(self)@.answers.push(answer_of(lookup)),
            looked_up(old(self)@, final(self)@, answer_of(lookup), step),
    {
        let v = classify(&lookup, self.wan);
        let ghost a = answer_of(lookup);
        let ghost d = self.provider.spec_domain();
        proof {
            let ans = self.answers@;
            assert(ans.push(a).drop_last() == ans);
            self.answers = Ghost(ans.push(a));
        }
        match v {
            Verdict::Current => self.conclude(RecordOutcome::Current),
            Verdict::Missing => self.conclude(RecordOutcome::Missing),
            Verdict::Stale => {
                let built = self.provider.build_update_request(
                    self.records[self.index].as_str(),
                    self.wan,
                );
                proof {
                    assert(strings_view(self.records@)[self.index as int]
                        == self.records@[self.index as int]@);
                }
                match built {
                    Ok(req) => {
                        proof {
                            self.requests = Ghost(self.requests@.push(req@));
                        }
                        self.phase = Phase::Writing;
                        Step::Send(req)
                    },
                    Err(e) => {
                        self.phase = Phase::Failed;
                        Step::Finished(Err(e))
                    },
                }
            },
        }
    }

    /// Takes what came of the request that the last `Step::Send` handed out.
    ///
    /// A success status with a body that the provider's grammar reads as
    /// success: the record is updated. Anything else fails the pass: a body
    /// that reports failure, a failure status, a body that could not be read,
    /// or a request that could not be sent, each with its own error.
    pub fn on_response(&mut self, exchange: Exchange) -> (step: Step)
        requires
            old(self).inv(),
            old(self)@.phase == Phase::Writing,
        ensures
            final(self).inv(),
            final(self)@.domain == old(self)@.domain,
            final(self)@.wan == old(self)@.wan,
            final(self)@.answers == old(self)@.answers,
            final(self)@.requests == old(self)@.requests,
            responded(old(self)@, final(self)@, exchange, step),
    {
        match exchange {
            Exchange::Body(body) => {
                if self.provider.response_indicates_success(body.as_str()) {
                    self.conclude(RecordOutcome::Updated)
                } else {
                    self.phase = Phase::Failed;
                    Step::Finished(Err(DnessError::rejected(body)))
                }
            },
            Exchange::SendFailed(e) => {
                let context = self.context();
                self.phase = Phase::Failed;
                Step::Finished(
                    Err(DnessError::send_http(self.provider.endpoint().as_str(), context.as_str(), e)),
                )
            },
            Exchange::BadStatus(e) => {
                let context = self.context();
                self.phase = Phase::Failed;
                Step::Finished(
                    Err(DnessError::bad_response(self.provider.endpoint().as_str(), context.as_str(), e)),
                )
            },
            Exchange::Unreadable(e) => {
                let context = self.context();
                self.phase = Phase::Failed;
                Step::Finished(
                    Err(DnessError::deserialize(self.provider.endpoint().as_str(), context.as_str(), e)),
                )
            },
        }
    }

    /// Starts reconciling `domain` against `wan`: the first step is the
    /// lookup of the first record, or, with no records, an empty summary.
    pub fn start(domain: &'a DomainConfig, wan: IpAddress) -> (r: (Reconciler<'a>, Step))
        ensures
            r.0.inv(),
            r.0@.domain == *domain,
            r.0@.wan == wan,
            r.0@.answers.len() == 0,
            r.0@.outcomes.len() == 0,
            r.0@.requests.len() == 0,
            moves_on(r.0@, r.1),
    {
        let provider = domain.create_provider();
        let hostname = String::from_str(domain.hostname());
        let records = domain.records();
        let n = records.len();
        let mut engine = Reconciler {
            provider,
            hostname,
            records,
            wan,
            index: 0,
            phase: if n > 0 {
                Phase::Verifying
            } else {
                Phase::Finished
            },
            summary: Updates { current: 0, updated: 0, missing: 0 },
            answers: Ghost(Seq::empty()),
            outcomes: Ghost(Seq::empty()),
            requests: Ghost(Seq::empty()),
        };
        proof {
            assert(pass_outcomes(Seq::empty(), wan) =~= Seq::empty());
        }
        let step = engine.advance();
        (engine, step)
    }
}

} // verus!
