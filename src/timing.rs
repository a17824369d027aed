use vstd::prelude::*;
use crate::decimal::{decimal_of, push_decimal};

verus! {

/// Elapsed time of each step of gathering the message data, in nanoseconds.
#[derive(Debug, Copy, Clone)]
pub struct AnalysisTiming {
    pub chat_db_time: u64,
    pub messages_query_time: u64,
    pub contacts_time: u64,
    pub handles_time: u64,
    pub total_time: u64,
}

/// The sum of the durations of `phases`.
pub open spec fn phase_total(phases: Seq<(Seq<char>, u64)>) -> nat
    decreases phases.len(),
{
    if phases.len() == 0 {
        0
    } else {
        phase_total(phases.drop_last()) + phases.last().1 as nat
    }
}

pub open spec fn saturate(n: nat) -> u64 {
    if n > u64::MAX { u64::MAX } else { n as u64 }
}

/// One line of a report: the phase's name, a colon, its duration in nanoseconds.
pub open spec fn phase_line(name: Seq<char>, nanos: u64) -> Seq<char> {
    name + ": "@ + decimal_of(nanos as nat) + " ns\n"@
}

pub open spec fn phase_lines(phases: Seq<(Seq<char>, u64)>) -> Seq<char>
    decreases phases.len(),
{
    if phases.len() == 0 {
        Seq::empty()
    } else {
        phase_lines(phases.drop_last()) + phase_line(phases.last().0, phases.last().1)
    }
}

/// The text of a report: a line per phase, then the sum of the phases and the
/// wall-clock total, which may differ.
pub open spec fn report_text(phases: Seq<(Seq<char>, u64)>, wall_clock: u64) -> Seq<char> {
    phase_lines(phases) + phase_line("Sum of All Phases"@, saturate(phase_total(phases)))
        + phase_line("Total Time"@, wall_clock)
}

/// An ordered list of named phases and their durations in nanoseconds.
pub struct TimingReport {
    phases: Vec<(String, u64)>,
}

impl View for TimingReport {
    type V = Seq<(Seq<char>, u64)>;

    closed spec fn view(&self) -> Seq<(Seq<char>, u64)> {
        self.phases@.map_values(|p: (String, u64)| (p.0@, p.1))
    }
}

impl AnalysisTiming {
    /// The gathering steps as a report, in the order in which they ran, then
    /// the measured total of the gathering.
    pub fn to_report(&self) -> (r: TimingReport)
        ensures
            r@ == seq![
                ("DB Connection"@, self.chat_db_time),
                ("Messages Query"@, self.messages_query_time),
                ("Contacts Load"@, self.contacts_time),
                ("Handles Load"@, self.handles_time),
                ("Total Analysis Time"@, self.total_time),
            ],
    {
        let mut r = TimingReport::new();
        r.add_phase("DB Connection".to_owned(), self.chat_db_time);
        r.add_phase("Messages Query".to_owned(), self.messages_query_time);
        r.add_phase("Contacts Load".to_owned(), self.contacts_time);
        r.add_phase("Handles Load".to_owned(), self.handles_time);
        r.add_phase("Total Analysis Time".to_owned(), self.total_time);
        assert(r@ =~= seq![
            ("DB Connection"@, self.chat_db_time),
            ("Messages Query"@, self.messages_query_time),
            ("Contacts Load"@, self.contacts_time),
            ("Handles Load"@, self.handles_time),
            ("Total Analysis Time"@, self.total_time),
        ]);
        r
    }
}

impl TimingReport {
    pub fn new() -> (r: TimingReport)
        ensures
            r@ == Seq::<(Seq<char>, u64)>::empty(),
    {
        let r = TimingReport { phases: Vec::new() };
        assert(r@ =~= Seq::<(Seq<char>, u64)>::empty());
        r
    }

    pub fn len(&self) -> (r: usize)
        ensures
            r == self@.len(),
    {
        self.phases.len()
    }

    /// Appends a phase after those already recorded.
    pub fn add_phase(&mut self, name: String, nanos: u64)
        ensures
            final(self)@ == old(self)@.push((name@, nanos)),
    {
        self.phases.push((name, nanos));
        assert(self@ =~= old(self)@.push((name@, nanos)));
    }

    /// Appends the phases of `other` after those already recorded.
    pub fn append_report(&mut self, other: &TimingReport)
        ensures
            final(self)@ == old(self)@ + other@,
    {
        let mut i: usize = 0;
        while i < other.phases.len()
            invariant
                i <= other@.len(),
                other@.len() == other.phases@.len(),
                self@ == old(self)@ + other@.take(i as int),
            decreases other.phases@.len() - i,
        {
            let name = other.phases[i].0.clone();
            self.add_phase(name, other.phases[i].1);
            assert(other@.take(i as int + 1) =~= other@.take(i as int).push(other@[i as int]));
            i += 1;
        }
        assert(other@.take(i as int) =~= other@);
    }

    /// The duration of phase `i`.
    pub fn nanos_at(&self, i: usize) -> (r: u64)
        requires
            i < self@.len(),
        ensures
            r == self@[i as int].1,
    {
        self.phases[i].1
    }

    /// The sum of all phase durations, saturating at the largest `u64`.
    pub fn sum_of_phases(&self) -> (r: u64)
        ensures
            r == saturate(phase_total(self@)),
    {
        let mut total: u64 = 0;
        let mut i: usize = 0;
        while i < self.phases.len()
            invariant
                i <= self@.len(),
                self@.len() == self.phases@.len(),
                total == saturate(phase_total(self@.take(i as int))),
            decreases self.phases@.len() - i,
        {
            proof {
                assert(self@.take(i as int + 1).drop_last() =~= self@.take(i as int));
            }
            total = total.saturating_add(self.phases[i].1);
            i += 1;
        }
        assert(self@.take(i as int) =~= self@);
        total
    }

    /// The report as text; see `report_text`.
    pub fn render(&self, wall_clock: u64) -> (r: String)
        ensures
            r@ == report_text(self@, wall_clock),
    {
        let r = self.render_with_details(&TimingReport::new(), wall_clock);
        assert(phase_lines(Seq::<(Seq<char>, u64)>::empty()) + report_text(self@, wall_clock)
            =~= report_text(self@, wall_clock));
        r
    }

    /// The lines of `details`, which the sum leaves out, then the report.
    pub fn render_with_details(&self, details: &TimingReport, wall_clock: u64) -> (r: String)
        ensures
            r@ == phase_lines(details@) + report_text(self@, wall_clock),
    {
        let mut out = String::new();
        let mut k: usize = 0;
        while k < details.phases.len()
            invariant
                k <= details@.len(),
                details@.len() == details.phases@.len(),
                out@ == phase_lines(details@.take(k as int)),
            decreases details.phases@.len() - k,
        {
            proof {
                assert(details@.take(k as int + 1).drop_last() =~= details@.take(k as int));
            }
            push_line(&mut out, details.phases[k].0.as_str(), details.phases[k].1);
            k += 1;
        }
        assert(details@.take(k as int) =~= details@);
        let ghost detail_text = out@;
        let mut i: usize = 0;
        while i < self.phases.len()
            invariant
                i <= self@.len(),
                self@.len() == self.phases@.len(),
                out@ == detail_text + phase_lines(self@.take(i as int)),
            decreases self.phases@.len() - i,
        {
            proof {
                assert(self@.take(i as int + 1).drop_last() =~= self@.take(i as int));
            }
            push_line(&mut out, self.phases[i].0.as_str(), self.phases[i].1);
            i += 1;
        }
        assert(self@.take(i as int) =~= self@);
        let total = self.sum_of_phases();
        push_line(&mut out, "Sum of All Phases", total);
        push_line(&mut out, "Total Time", wall_clock);
        assert(out@ =~= detail_text + report_text(self@, wall_clock));
        out
    }
}

fn push_line(out: &mut String, name: &str, nanos: u64)
    ensures
        final(out)@ == old(out)@ + phase_line(name@, nanos),
{
    out.append(name);
    out.append(": ");
    push_decimal(out, nanos);
    out.append(" ns\n");
    assert(final(out)@ =~= old(out)@ + phase_line(name@, nanos));
}

} // verus!
