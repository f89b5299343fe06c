use crate::address::{IpAddress, IpType};
use crate::config::DomainConfig;
use crate::errors::DnessError;
use crate::providers::{domain_ip_types, strings_view};
use crate::summary::{
    fits, lemma_partition_sum, sum_tallies, tally_all, RecordOutcome, Tally, Updates,
};
use vstd::prelude::*;

verus! {

/// Whether some domain of `domains` is kept up to date for family `t`.
pub open spec fn wanted(domains: Seq<DomainConfig>, t: IpType) -> bool {
    exists|i: int| 0 <= i < domains.len() && #[trigger] domain_ip_types(domains[i]).contains(t)
}

/// The families whose WAN address a run resolves, in order and without
/// repeats: those the domains ask for, or IPv4 alone when there is no domain,
/// so that the address is still reported.
pub open spec fn families_to_resolve(domains: Seq<DomainConfig>) -> Seq<IpType> {
    if domains.len() == 0 {
        seq![IpType::V4]
    } else {
        (if wanted(domains, IpType::V4) {
            seq![IpType::V4]
        } else {
            Seq::empty()
        }) + (if wanted(domains, IpType::V6) {
            seq![IpType::V6]
        } else {
            Seq::empty()
        })
    }
}

fn has_type(types: &Vec<IpType>, t: IpType) -> (r: bool)
    ensures
        r == types@.contains(t),
{
    let mut i: usize = 0;
    while i < types.len()
        invariant
            i <= types.len(),
            forall|k: int| 0 <= k < i ==> types@[k] != t,
        decreases types.len() - i,
    {
        if types[i] == t {
            return true;
        }
        i = i + 1;
    }
    false
}

/// The families whose WAN address a run resolves.
pub fn requested_families(domains: &Vec<DomainConfig>) -> (r: Vec<IpType>)
    ensures
        r@ == families_to_resolve(domains@),
{
    if domains.len() == 0 {
        return vec![IpType::V4];
    }
    let mut v4 = false;
    let mut v6 = false;
    let mut i: usize = 0;
    while i < domains.len()
        invariant
            i <= domains.len(),
            v4 == wanted(domains@.subrange(0, i as int), IpType::V4),
            v6 == wanted(domains@.subrange(0, i as int), IpType::V6),
        decreases domains.len() - i,
    {
        let types = domains[i].get_ip_types();
        let has4 = has_type(&types, IpType::V4);
        let has6 = has_type(&types, IpType::V6);
        proof {
            let before = domains@.subrange(0, i as int);
            let after = domains@.subrange(0, i + 1);
            assert(after[i as int] == domains@[i as int]);
            assert forall|t: IpType| wanted(after, t) == (wanted(before, t) || domain_ip_types(domains@[i as int]).contains(t)) by {
                if wanted(after, t) {
                    let k = choose|k: int| 0 <= k < after.len() && #[trigger] domain_ip_types(after[k]).contains(t);
                    if k < i {
                        assert(before[k] == after[k]);
                    }
                }
                if wanted(before, t) {
                    let k = choose|k: int| 0 <= k < before.len() && #[trigger] domain_ip_types(before[k]).contains(t);
                    assert(before[k] == after[k]);
                }
            }
        }
        v4 = v4 || has4;
        v6 = v6 || has6;
        i = i + 1;
    }
    assert(domains@.subrange(0, domains.len() as int) == domains@);
    let mut r: Vec<IpType> = Vec::new();
    if v4 {
        r.push(IpType::V4);
    }
    if v6 {
        r.push(IpType::V6);
    }
    assert(r@ =~= families_to_resolve(domains@));
    r
}

impl DomainConfig {
    /// Whether the domain is kept up to date for the family of `addr`.
    pub fn applies_to(&self, addr: IpAddress) -> (r: bool)
        ensures
            r == domain_ip_types(*self).contains(addr.family()),
    {
        let types = self.get_ip_types();
        has_type(&types, addr.ip_type())
    }
}

/// Adding one more summary to a sum adds its tally.
pub proof fn lemma_sum_push(s: Seq<Tally>, t: Tally)
    ensures
        sum_tallies(s.push(t)) == sum_tallies(s).plus(t),
    decreases s.len(),
{
    if s.len() > 0 {
        lemma_sum_push(s.drop_first(), t);
        assert(s.push(t).drop_first() == s.drop_first().push(t));
        assert(s.push(t)[0] == s[0]);
    } else {
        assert(s.push(t).drop_first() == Seq::<Tally>::empty());
        assert(sum_tallies(Seq::<Tally>::empty()) == Tally::zero());
        assert(sum_tallies(s) == Tally::zero());
    }
}

/// The run total counts every record of every domain: when each domain's
/// summary is the tally of its records' outcomes, the total of the run is the
/// tally of all those outcomes together.
pub proof fn lemma_run_total_counts_every_record(r: RunReportView, parts: Seq<Seq<RecordOutcome>>)
    requires
        r.total == sum_tallies(r.summaries),
        r.summaries == parts.map_values(|p: Seq<RecordOutcome>| tally_all(p)),
    ensures
        r.total == tally_all(parts.flatten()),
{
    lemma_partition_sum(parts);
}

/// The abstract state of a run.
pub struct RunReportView {
    /// The summaries of the domains that finished, in order.
    pub summaries: Seq<Tally>,
    /// Their sum.
    pub total: Tally,
    /// Whether a WAN resolution or a domain's write failed.
    pub failed: bool,
}

/// Folds the results of a run: the sum of the domains' summaries, and whether
/// anything failed.
pub struct RunReport {
    total: Updates,
    failed: bool,
    summaries: Ghost<Seq<Tally>>,
}

impl View for RunReport {
    type V = RunReportView;

    closed spec fn view(&self) -> RunReportView {
        RunReportView { summaries: self.summaries@, total: self.total@, failed: self.failed }
    }
}

impl RunReport {
    pub closed spec fn inv(&self) -> bool {
        self.total@ == sum_tallies(self.summaries@)
    }

    /// The report of a run in which nothing has happened yet.
    pub fn new() -> (r: RunReport)
        ensures
            r.inv(),
            r@.total == sum_tallies(r@.summaries),
            r@.summaries.len() == 0,
            r@.total == Tally::zero(),
            !r@.failed,
    {
        RunReport {
            total: Updates { current: 0, updated: 0, missing: 0 },
            failed: false,
            summaries: Ghost(Seq::empty()),
        }
    }

    /// Notes that the WAN address of some family could not be resolved.
    pub fn resolution_failed(&mut self)
        requires
            old(self).inv(),
        ensures
            final(self).inv(),
            final(self)@.total == sum_tallies(final(self)@.summaries),
            final(self)@.summaries == old(self)@.summaries,
            final(self)@.total == old(self)@.total,
            final(self)@.failed,
    {
        self.failed = true;
    }

    /// Whether the summary `u` can be added to the total without a counter
    /// overflowing.
    pub fn can_add(&self, u: &Updates) -> (r: bool)
        ensures
            r == fits(self@.total.plus(u@)),
    {
        self.total.can_merge(u)
    }

    /// Folds in one domain's result: its summary is added to the total; its
    /// write failure marks the run failed.
    pub fn domain_finished(&mut self, result: &Result<Updates, DnessError>)
        requires
            old(self).inv(),
            result matches Ok(u) ==> fits(old(self)@.total.plus(u@)),
        ensures
            final(self).inv(),
            final(self)@.total == sum_tallies(final(self)@.summaries),
            match result {
                Ok(u) => {
                    &&& final(self)@.summaries == old(self)@.summaries.push(u@)
                    &&& final(self)@.total == old(self)@.total.plus(u@)
                    &&& final(self)@.failed == old(self)@.failed
                },
                Err(_) => {
                    &&& final(self)@.summaries == old(self)@.summaries
                    &&& final(self)@.total == old(self)@.total
                    &&& final(self)@.failed
                },
            },
    {
        match result {
            Ok(u) => {
                proof {
                    lemma_sum_push(self.summaries@, u@);
                }
                self.total = self.total.merged(u);
                self.summaries = Ghost(self.summaries@.push(u@));
            },
            Err(_) => {
                self.failed = true;
            },
        }
    }

    pub fn total(&self) -> (r: Updates)
        ensures
            r@ == self@.total,
    {
        self.total
    }

    pub fn failed(&self) -> (r: bool)
        ensures
            r == self@.failed,
    {
        self.failed
    }

    /// The process exit status: 0 when nothing failed, 1 otherwise.
    pub fn exit_code(&self) -> (r: i32)
        ensures
            r == (if self@.failed {
                1i32
            } else {
                0i32
            }),
    {
        if self.failed {
            1
        } else {
            0
        }
    }
}

/// The lines that name the causes beneath an error, each on a line of its own.
pub open spec fn cause_lines(causes: Seq<Seq<char>>) -> Seq<char>
    decreases causes.len(),
{
    if causes.len() == 0 {
        Seq::empty()
    } else {
        cause_lines(causes.drop_last()) + "\n\tcaused by: "@ + causes.last()
    }
}

/// The text reported for a failure: its context, the error, and the chain of
/// causes beneath it.
pub open spec fn error_report(context: Seq<char>, err: Seq<char>, causes: Seq<Seq<char>>) -> Seq<char> {
    context + " \n\tcaused by: "@ + err + cause_lines(causes)
}

/// The report of a failure in `context`: the error's own text `err`, then each
/// cause beneath it, outermost first.
pub fn log_err(context: &str, err: &str, causes: &Vec<String>) -> (r: String)
    ensures
        r@ == error_report(context@, err@, strings_view(causes@)),
{
    let mut msg = String::from_str(context).concat(" \n\tcaused by: ").concat(err);
    let mut i: usize = 0;
    while i < causes.len()
        invariant
            i <= causes.len(),
            msg@ == error_report(context@, err@, strings_view(causes@.subrange(0, i as int))),
        decreases causes.len() - i,
    {
        let ghost before = strings_view(causes@.subrange(0, i as int));
        let ghost after = strings_view(causes@.subrange(0, i + 1));
        assert(after.drop_last() =~= before);
        assert(after.last() == causes@[i as int]@);
        msg = msg.concat("\n\tcaused by: ").concat(causes[i].as_str());
        i = i + 1;
    }
    assert(causes@.subrange(0, causes.len() as int) == causes@);
    msg
}

} // verus!
