use vstd::prelude::*;
use ppm_decode::PpmParser;
use crate::decoder::{completed_frames, first_frame, take_frame, ChannelFrame};
use crate::report::{get_report, wide_report, WIDE_AXES, WIDE_CENTER};

verus! {

/// Core clock in MHz: cycles per microsecond.
pub const CORE_FREQUENCY_MHZ: u32 = 84;

/// Cycles between two reports: one millisecond at the core clock.
pub const REPORT_PERIOD: u32 = 84_000;

/// Channel count of the frame reported before the decoder has completed one.
pub const NEUTRAL_CHANNEL_COUNT: u8 = 16;

/// Time of a pulse edge, in microseconds, from the cycle counter read at it.
pub fn pulse_time(cycles: u32) -> (r: u32)
    ensures
        r as int == cycles as int / CORE_FREQUENCY_MHZ as int,
{
    cycles / CORE_FREQUENCY_MHZ
}

/// The frame reported until the decoder completes one: every channel at the
/// center of the reported layout.
pub open spec fn is_neutral(f: ChannelFrame) -> bool {
    &&& f.chan_count == NEUTRAL_CHANNEL_COUNT
    &&& forall|i: int| 0 <= i < 20 ==> f.chan_values[i] == WIDE_CENTER
}

/// A report with every axis at zero.
pub open spec fn centered_report() -> Seq<u8> {
    Seq::new(32, |k: int| 0u8)
}

/// The neutral frame, every channel at the wide layout's center.
pub fn neutral_frame() -> (r: ChannelFrame)
    ensures
        is_neutral(r),
{
    ChannelFrame { chan_values: [WIDE_CENTER; 20], chan_count: NEUTRAL_CHANNEL_COUNT }
}

/// A deadline one period after `t`, on the wrapping cycle counter.
pub open spec fn next_deadline(t: u32) -> u32 {
    ((t as int + REPORT_PERIOD as int) % 0x1_0000_0000) as u32
}

/// The deadline after `n` reports, the first of which was due at `t`.
pub open spec fn deadline_after(t: u32, n: nat) -> u32
    decreases n,
{
    if n == 0 {
        t
    } else {
        next_deadline(deadline_after(t, (n - 1) as nat))
    }
}

/// The first sixteen channel values of a frame.
pub open spec fn report_axes(f: ChannelFrame) -> Seq<u32> {
    f.chan_values@.subrange(0, 16)
}

/// The periodic reporting task's state: the last frame the decoder completed and
/// the cycle count at which the next report is due.
pub struct ReportScheduler {
    last_frame: ChannelFrame,
    scheduled: u32,
}

impl ReportScheduler {
    /// The frame that the next report encodes, unless a newer one completes.
    pub closed spec fn frame(self) -> ChannelFrame {
        self.last_frame
    }

    /// The cycle count at which the next report is due.
    pub closed spec fn deadline(self) -> u32 {
        self.scheduled
    }

    /// A scheduler started at cycle `start`: the first report is due one period
    /// later, and it reports centered sticks until a frame completes.
    pub fn new(start: u32) -> (r: ReportScheduler)
        ensures
            is_neutral(r.frame()),
            wide_report(report_axes(r.frame())) == centered_report(),
            r.deadline() == next_deadline(start),
    {
        let r = ReportScheduler { last_frame: neutral_frame(), scheduled: start.wrapping_add(REPORT_PERIOD) };
        assert(wide_report(report_axes(r.last_frame)) =~= centered_report());
        r
    }

    /// The cycle count at which the next report is due.
    pub fn scheduled(&self) -> (r: u32)
        ensures
            r == self.deadline(),
    {
        self.scheduled
    }

    /// The last frame taken from the decoder.
    pub fn last_frame(&self) -> (r: ChannelFrame)
        ensures
            r == self.frame(),
    {
        self.last_frame
    }

    /// The start of one report, the only part that needs the decoder: takes
    /// its new frame if it completed one, and moves the deadline one period on
    /// from the deadline this report was due at, whenever it actually ran.
    pub fn update(&mut self, parser: &mut PpmParser)
        ensures
            final(self).deadline() == next_deadline(old(self).deadline()),
            final(self).frame() == (match first_frame(completed_frames(*old(parser))) {
                Some(f) => f,
                None => old(self).frame(),
            }),
            completed_frames(*final(parser)).len() == 0,
    {
        self.scheduled = self.scheduled.wrapping_add(REPORT_PERIOD);
        match take_frame(parser) {
            Some(frame) => {
                self.last_frame = frame;
            },
            None => {},
        }
    }

    /// The wide-layout report of the last frame.
    pub fn report(&self) -> (report: [u8; 32])
        ensures
            report@ == wide_report(report_axes(self.frame())),
    {
        let mut axes: [u32; 16] = [0u32; 16];
        let mut i: usize = 0;
        while i < WIDE_AXES
            invariant
                i <= 16,
                forall|j: int| 0 <= j < i ==> axes[j] == self.last_frame.chan_values[j],
            decreases 16 - i,
        {
            axes[i] = self.last_frame.chan_values[i];
            i = i + 1;
        }
        assert(axes@ =~= report_axes(self.last_frame));
        get_report(&axes)
    }

    /// One whole report: `update`, then `report`.
    pub fn run(&mut self, parser: &mut PpmParser) -> (report: [u8; 32])
        ensures
            final(self).deadline() == next_deadline(old(self).deadline()),
            final(self).frame() == (match first_frame(completed_frames(*old(parser))) {
                Some(f) => f,
                None => old(self).frame(),
            }),
            completed_frames(*final(parser)).len() == 0,
            report@ == wide_report(report_axes(final(self).frame())),
    {
        self.update(parser);
        self.report()
    }
}

/// Reports do not drift: after `n` runs the next one is due exactly `n` periods
/// after the first, on the wrapping cycle counter, however long each run took.
pub proof fn lemma_no_drift(start: u32, n: nat)
    ensures
        deadline_after(start, n) as int == (start as int + n * REPORT_PERIOD as int) % 0x1_0000_0000,
    decreases n,
{
    if n > 0 {
        lemma_no_drift(start, (n - 1) as nat);
        let m = 0x1_0000_0000int;
        let a = start as int + (n - 1) * REPORT_PERIOD as int;
        assert((a % m + REPORT_PERIOD as int) % m == (a + REPORT_PERIOD as int) % m) by (nonlinear_arith)
            requires m == 0x1_0000_0000int;
        assert(a + REPORT_PERIOD as int == start as int + n * REPORT_PERIOD as int) by (nonlinear_arith)
            requires
                a == start as int + (n - 1) * REPORT_PERIOD as int,
        ;
    }
}

/// Reports do not drift over any number of runs: when each deadline is the one
/// before moved on by `update` (one period, on the wrapping cycle counter), the
/// `k`-th is exactly `k` periods after the first, whatever each run took.
pub proof fn lemma_deadlines_no_drift(deadlines: Seq<u32>)
    requires
        forall|i: int| 0 <= i < deadlines.len() - 1 ==> #[trigger] deadlines[i + 1] == next_deadline(deadlines[i]),
    ensures
        forall|k: int|
            0 <= k < deadlines.len() ==> #[trigger] deadlines[k] as int == (deadlines[0] as int + k
                * REPORT_PERIOD as int) % 0x1_0000_0000,
{
    assert forall|k: int| 0 <= k < deadlines.len() implies #[trigger] deadlines[k] as int == (
    deadlines[0] as int + k * REPORT_PERIOD as int) % 0x1_0000_0000 by {
        lemma_chain_follows(deadlines, k);
        lemma_no_drift(deadlines[0], k as nat);
    }
}

/// Along such a chain the `k`-th deadline is `deadline_after` of the first.
proof fn lemma_chain_follows(deadlines: Seq<u32>, k: int)
    requires
        0 <= k < deadlines.len(),
        forall|i: int| 0 <= i < deadlines.len() - 1 ==> #[trigger] deadlines[i + 1] == next_deadline(deadlines[i]),
    ensures
        deadlines[k] == deadline_after(deadlines[0], k as nat),
    decreases k,
{
    if k > 0 {
        lemma_chain_follows(deadlines, k - 1);
        assert(deadlines[(k - 1) + 1] == next_deadline(deadlines[k - 1]));
    }
}

} // verus!
