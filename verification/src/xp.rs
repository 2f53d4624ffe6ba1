use vstd::prelude::*;
use crate::text::string_of_chars;

verus! {

/// XP granted for each kind of gameplay event.
pub const XP_DISTANCE_MILESTONE: i32 = 50;
pub const XP_SPEED_MILESTONE: i32 = 20;
pub const XP_HARD_IMPACT: i32 = -10;
pub const XP_BIG_TILT: i32 = -5;
pub const XP_BRAKE_STOP: i32 = 10;
pub const XP_AIRTIME: i32 = 30;
pub const XP_WHEELIE: i32 = 40;
pub const XP_WAYPOINT: i32 = 100;

/// Score totals shown by the XP panel.
#[derive(Clone, Copy, Debug, PartialEq, Eq, Structural)]
pub struct XpState {
    /// Total XP over all sessions.
    pub total_xp: u64,
    /// XP gained this session.
    pub session_xp: u64,
    /// Most recent delta (positive = gain, negative = penalty).
    pub last_gain: i32,
}

/// `x` moved by `delta`, clamped into the range of `u64`.
pub open spec fn clamp_add(x: u64, delta: int) -> u64 {
    if x + delta > u64::MAX {
        u64::MAX
    } else if x + delta < 0 {
        0
    } else {
        (x + delta) as u64
    }
}

/// The state after one signed XP delta.
pub open spec fn gained(s: XpState, delta: i32) -> XpState {
    XpState {
        total_xp: clamp_add(s.total_xp, delta as int),
        session_xp: clamp_add(s.session_xp, delta as int),
        last_gain: delta,
    }
}

/// The state after the same delta applied `n` times.
pub open spec fn gained_times(s: XpState, delta: i32, n: nat) -> XpState
    decreases n,
{
    if n == 0 {
        s
    } else {
        gained(gained_times(s, delta, (n - 1) as nat), delta)
    }
}

impl XpState {
    pub fn new() -> (r: XpState)
        ensures
            r == (XpState { total_xp: 0, session_xp: 0, last_gain: 0 }),
    {
        XpState { total_xp: 0, session_xp: 0, last_gain: 0 }
    }

    /// Applies a signed XP delta with saturating arithmetic and records it
    /// as the latest gain.
    pub fn apply_delta(&mut self, delta: i32)
        ensures
            *final(self) == gained(*old(self), delta),
    {
        if delta >= 0 {
            let d = delta as u64;
            self.total_xp = self.total_xp.saturating_add(d);
            self.session_xp = self.session_xp.saturating_add(d);
        } else {
            let d: u64 = (-(delta as i64)) as u64;
            self.total_xp = self.total_xp.saturating_sub(d);
            self.session_xp = self.session_xp.saturating_sub(d);
        }
        self.last_gain = delta;
    }

    /// Applies the same delta `n` times.
    pub fn apply_delta_times(&mut self, delta: i32, n: u32)
        ensures
            *final(self) == gained_times(*old(self), delta, n as nat),
    {
        let mut i: u32 = 0;
        while i < n
            invariant
                i <= n,
                *self == gained_times(*old(self), delta, i as nat),
            decreases n - i,
        {
            self.apply_delta(delta);
            i = i + 1;
        }
    }
}


/// Kinds of gameplay events recorded in the event log.
#[derive(Clone, Copy, Debug, PartialEq, Eq, Structural)]
pub enum GameEventKind {
    DistanceMilestone,
    SpeedMilestone,
    HardImpact,
    BigTilt,
    BrakeStop,
    Airtime,
}

/// The XP delta that an event of this kind is worth.
pub open spec fn spec_event_delta(kind: GameEventKind) -> i32 {
    match kind {
        GameEventKind::DistanceMilestone => XP_DISTANCE_MILESTONE,
        GameEventKind::SpeedMilestone => XP_SPEED_MILESTONE,
        GameEventKind::HardImpact => XP_HARD_IMPACT,
        GameEventKind::BigTilt => XP_BIG_TILT,
        GameEventKind::BrakeStop => XP_BRAKE_STOP,
        GameEventKind::Airtime => XP_AIRTIME,
    }
}

pub fn event_delta(kind: GameEventKind) -> (d: i32)
    ensures
        d == spec_event_delta(kind),
{
    match kind {
        GameEventKind::DistanceMilestone => XP_DISTANCE_MILESTONE,
        GameEventKind::SpeedMilestone => XP_SPEED_MILESTONE,
        GameEventKind::HardImpact => XP_HARD_IMPACT,
        GameEventKind::BigTilt => XP_BIG_TILT,
        GameEventKind::BrakeStop => XP_BRAKE_STOP,
        GameEventKind::Airtime => XP_AIRTIME,
    }
}

/// The state after the events of `evs`, in order.
pub open spec fn gained_events(s: XpState, evs: Seq<GameEventKind>) -> XpState
    decreases evs.len(),
{
    if evs.len() == 0 {
        s
    } else {
        gained(gained_events(s, evs.drop_last()), spec_event_delta(evs.last()))
    }
}

/// The events of the log that a reader who has consumed `processed` events
/// has not seen yet: the newest `len - processed` entries.
pub open spec fn unseen_events(log: Seq<GameEventKind>, processed: nat) -> Seq<GameEventKind> {
    if log.len() > processed {
        log.subrange(processed as int, log.len() as int)
    } else {
        Seq::empty()
    }
}

/// A counter source read by the award system: `Some(count)` when present.
pub open spec fn counter_gain(s: XpState, last: u32, current: Option<u32>, delta: i32) -> XpState {
    match current {
        Some(c) => if c > last { gained_times(s, delta, (c - last) as nat) } else { s },
        None => s,
    }
}

pub open spec fn counter_next(last: u32, current: Option<u32>) -> u32 {
    match current {
        Some(c) => if c > last { c } else { last },
        None => last,
    }
}

/// What the award system has consumed so far from each of its sources.
#[derive(Clone, Copy, Debug, PartialEq, Eq, Structural)]
pub struct XpCursor {
    /// Number of event-log entries already consumed.
    pub processed: usize,
    pub last_wheelie: u32,
    pub last_airtime: u32,
    pub last_waypoint: u32,
}

/// The effect of one award pass, as a pair (new state, new cursor).
pub open spec fn award_pass(
    s: XpState,
    c: XpCursor,
    log: Option<Seq<GameEventKind>>,
    wheelies: Option<u32>,
    airtimes: Option<u32>,
    waypoints: Option<u32>,
) -> (XpState, XpCursor) {
    let s1 = match log {
        Some(l) => gained_events(s, unseen_events(l, c.processed as nat)),
        None => s,
    };
    let processed = match log {
        Some(l) => if l.len() > c.processed { l.len() as usize } else { c.processed },
        None => c.processed,
    };
    let s2 = counter_gain(s1, c.last_wheelie, wheelies, XP_WHEELIE);
    let s3 = counter_gain(s2, c.last_airtime, airtimes, XP_AIRTIME);
    let s4 = counter_gain(s3, c.last_waypoint, waypoints, XP_WAYPOINT);
    (
        s4,
        XpCursor {
            processed,
            last_wheelie: counter_next(c.last_wheelie, wheelies),
            last_airtime: counter_next(c.last_airtime, airtimes),
            last_waypoint: counter_next(c.last_waypoint, waypoints),
        },
    )
}

impl XpCursor {
    pub fn new() -> (r: XpCursor)
        ensures
            r == (XpCursor { processed: 0, last_wheelie: 0, last_airtime: 0, last_waypoint: 0 }),
    {
        XpCursor { processed: 0, last_wheelie: 0, last_airtime: 0, last_waypoint: 0 }
    }

    /// One pass of the award system: scores the events appended to the log
    /// since the last pass, then each rise of the wheelie, airtime and
    /// waypoint counters (one award per unit of rise).
    pub fn award(
        &mut self,
        state: &mut XpState,
        log: Option<&Vec<GameEventKind>>,
        wheelies: Option<u32>,
        airtimes: Option<u32>,
        waypoints: Option<u32>,
    )
        ensures
            (*final(state), *final(self)) == award_pass(
                *old(state),
                *old(self),
                match log {
                    Some(l) => Some(l@),
                    None => None,
                },
                wheelies,
                airtimes,
                waypoints,
            ),
    {
        match log {
            Some(events) => {
                let total = events.len();
                if total > self.processed {
                    let start = self.processed;
                    let ghost s0 = *state;
                    let mut i = start;
                    while i < total
                        invariant
                            start <= i <= total,
                            total == events.len(),
                            *state == gained_events(s0, events@.subrange(start as int, i as int)),
                        decreases total - i,
                    {
                        let d = event_delta(events[i]);
                        state.apply_delta(d);
                        proof {
                            assert(events@.subrange(start as int, i + 1).drop_last()
                                =~= events@.subrange(start as int, i as int));
                        }
                        i = i + 1;
                    }
                    self.processed = total;
                }
            },
            None => {},
        }
        if let Some(c) = wheelies {
            if c > self.last_wheelie {
                state.apply_delta_times(XP_WHEELIE, c - self.last_wheelie);
                self.last_wheelie = c;
            }
        }
        if let Some(c) = airtimes {
            if c > self.last_airtime {
                state.apply_delta_times(XP_AIRTIME, c - self.last_airtime);
                self.last_airtime = c;
            }
        }
        if let Some(c) = waypoints {
            if c > self.last_waypoint {
                state.apply_delta_times(XP_WAYPOINT, c - self.last_waypoint);
                self.last_waypoint = c;
            }
        }
    }
}


impl XpState {
    /// Adds a reward to both totals (saturating) without touching the
    /// latest-gain popup, as career objectives do.
    pub fn add_reward(&mut self, reward: u32)
        ensures
            final(self).total_xp == clamp_add(old(self).total_xp, reward as int),
            final(self).session_xp == clamp_add(old(self).session_xp, reward as int),
            final(self).last_gain == old(self).last_gain,
    {
        self.total_xp = self.total_xp.saturating_add(reward as u64);
        self.session_xp = self.session_xp.saturating_add(reward as u64);
    }

    /// Adds a bonus to both totals (saturating) and shows it as the latest
    /// gain, as finished challenges and drifts do.
    pub fn add_bonus(&mut self, amount: u32)
        ensures
            final(self).total_xp == clamp_add(old(self).total_xp, amount as int),
            final(self).session_xp == clamp_add(old(self).session_xp, amount as int),
            final(self).last_gain == amount as i32,
    {
        self.total_xp = self.total_xp.saturating_add(amount as u64);
        self.session_xp = self.session_xp.saturating_add(amount as u64);
        self.last_gain = amount as i32;
    }

    /// Adds a reward with plain addition and shows it as the latest gain, as
    /// the daily challenge does; the totals must leave room for it.
    pub fn add_daily_reward(&mut self, reward: u32)
        requires
            old(self).total_xp + reward <= u64::MAX,
            old(self).session_xp + reward <= u64::MAX,
        ensures
            final(self).total_xp == old(self).total_xp + reward,
            final(self).session_xp == old(self).session_xp + reward,
            final(self).last_gain == reward as i32,
    {
        self.total_xp = self.total_xp + reward as u64;
        self.session_xp = self.session_xp + reward as u64;
        self.last_gain = reward as i32;
    }
}

/// The character of a decimal digit.
pub open spec fn digit_char(d: nat) -> char {
    if d == 0 { '0' }
    else if d == 1 { '1' }
    else if d == 2 { '2' }
    else if d == 3 { '3' }
    else if d == 4 { '4' }
    else if d == 5 { '5' }
    else if d == 6 { '6' }
    else if d == 7 { '7' }
    else if d == 8 { '8' }
    else { '9' }
}

/// The decimal digits of `n`, most significant first, without leading zeros.
pub open spec fn decimal(n: nat) -> Seq<char>
    decreases n,
{
    if n < 10 {
        seq![digit_char(n)]
    } else {
        decimal(n / 10).push(digit_char(n % 10))
    }
}

/// `d` with a comma between each group of three characters, counted from
/// the right.
pub open spec fn with_commas(d: Seq<char>) -> Seq<char>
    decreases d.len(),
{
    if d.len() <= 3 {
        d
    } else {
        with_commas(d.subrange(0, d.len() - 3)) + seq![','] + d.subrange(d.len() - 3, d.len() as int)
    }
}

fn digit(d: u64) -> (c: char)
    requires
        d < 10,
    ensures
        c == digit_char(d as nat),
{
    match d {
        0 => '0',
        1 => '1',
        2 => '2',
        3 => '3',
        4 => '4',
        5 => '5',
        6 => '6',
        7 => '7',
        8 => '8',
        _ => '9',
    }
}

/// The decimal digits of `n`, most significant first.
pub fn decimal_digits(n: u64) -> (r: Vec<char>)
    ensures
        r@ == decimal(n as nat),
{
    let mut rev: Vec<char> = Vec::new();
    rev.push(digit(n % 10));
    let mut m: u64 = n / 10;
    proof {
        assert(decimal(n as nat) =~= (if m == 0 { Seq::<char>::empty() } else { decimal(m as nat) }) + rev@.reverse());
    }
    while m > 0
        invariant
            decimal(n as nat) =~= (if m == 0 { Seq::<char>::empty() } else { decimal(m as nat) }) + rev@.reverse(),
        decreases m,
    {
        let ghost old_rev = rev@;
        let ghost old_m = m;
        rev.push(digit(m % 10));
        m = m / 10;
        proof {
            assert(rev@.reverse() =~= seq![digit_char((old_m % 10) as nat)] + old_rev.reverse());
            assert(decimal(old_m as nat) =~= (if m == 0 { Seq::<char>::empty() } else { decimal(m as nat) }) + seq![digit_char((old_m % 10) as nat)]);
        }
    }
    let mut out: Vec<char> = Vec::new();
    let len = rev.len();
    let mut i: usize = 0;
    while i < len
        invariant
            len == rev.len(),
            i <= len,
            out@ =~= rev@.reverse().subrange(0, i as int),
        decreases len - i,
    {
        out.push(rev[len - 1 - i]);
        i = i + 1;
    }
    proof {
        assert(out@ =~= rev@.reverse());
    }
    out
}


proof fn lemma_with_commas_step(d: Seq<char>, k: int)
    requires
        1 <= k,
        k + 3 <= d.len(),
    ensures
        with_commas(d.subrange(0, k + 3)) == with_commas(d.subrange(0, k)) + seq![','] + d.subrange(k, k + 3),
{
    let x = d.subrange(0, k + 3);
    assert(x.subrange(0, x.len() - 3) =~= d.subrange(0, k));
    assert(x.subrange(x.len() - 3, x.len() as int) =~= d.subrange(k, k + 3));
}

/// `digits` grouped by threes from the right with commas.
pub fn group_thousands(digits: &Vec<char>) -> (r: Vec<char>)
    ensures
        r@ == with_commas(digits@),
{
    let len = digits.len();
    let mut out: Vec<char> = Vec::new();
    if len <= 3 {
        let mut i: usize = 0;
        while i < len
            invariant
                len == digits.len(),
                i <= len,
                out@ =~= digits@.subrange(0, i as int),
            decreases len - i,
        {
            out.push(digits[i]);
            i = i + 1;
        }
        proof {
            assert(out@ =~= digits@);
        }
        return out;
    }
    let head = if len % 3 == 0 { 3 } else { len % 3 };
    let mut i: usize = 0;
    while i < head
        invariant
            len == digits.len(),
            1 <= head <= 3,
            head <= len,
            i <= head,
            out@ =~= digits@.subrange(0, i as int),
        decreases head - i,
    {
        out.push(digits[i]);
        i = i + 1;
    }
    proof {
        assert(with_commas(digits@.subrange(0, head as int)) == digits@.subrange(0, head as int));
    }
    let mut pos: usize = head;
    while pos < len
        invariant
            len == digits.len(),
            1 <= head <= 3,
            head <= pos <= len,
            (pos - head) % 3 == 0,
            (len - head) % 3 == 0,
            out@ == with_commas(digits@.subrange(0, pos as int)),
        decreases len - pos,
    {
        proof {
            lemma_with_commas_step(digits@, pos as int);
        }
        out.push(',');
        out.push(digits[pos]);
        out.push(digits[pos + 1]);
        out.push(digits[pos + 2]);
        proof {
            assert(out@ =~= with_commas(digits@.subrange(0, pos as int)) + seq![','] + digits@.subrange(pos as int, pos + 3));
        }
        pos = pos + 3;
    }
    proof {
        assert(digits@.subrange(0, len as int) =~= digits@);
    }
    out
}

/// Formats a score with commas: 12450 becomes "12,450".
pub fn format_xp(n: u64) -> (r: String)
    ensures
        r@ == with_commas(decimal(n as nat)),
{
    let digits = decimal_digits(n);
    let grouped = group_thousands(&digits);
    string_of_chars(&grouped)
}

/// The popup text for the latest gain: "+N XP" or "-N XP"; none for a
/// gain of zero.
pub open spec fn spec_popup_text(gain: i32) -> Option<Seq<char>> {
    if gain > 0 {
        Some("+"@ + decimal(gain as nat) + " XP"@)
    } else if gain < 0 {
        Some("-"@ + decimal((-gain) as nat) + " XP"@)
    } else {
        None
    }
}

pub fn popup_text(gain: i32) -> (r: Option<String>)
    ensures
        match r {
            Some(t) => spec_popup_text(gain) == Some(t@),
            None => spec_popup_text(gain) is None,
        },
{
    if gain == 0 {
        return None;
    }
    let (sign, abs): (&str, u64) = if gain > 0 { ("+", gain as u64) } else { ("-", (-(gain as i64)) as u64) };
    let mut s = String::from_str(sign);
    crate::text::append_decimal(&mut s, abs);
    s.append(" XP");
    Some(s)
}

/// Each logged event and each counter rise is paid for once: a second
/// award pass over the same sources changes nothing.
pub proof fn lemma_award_once(
    s: XpState,
    c: XpCursor,
    log: Option<Seq<GameEventKind>>,
    wheelies: Option<u32>,
    airtimes: Option<u32>,
    waypoints: Option<u32>,
)
    requires
        log is Some ==> log.unwrap().len() <= usize::MAX,
    ensures
        ({
            let (s1, c1) = award_pass(s, c, log, wheelies, airtimes, waypoints);
            award_pass(s1, c1, log, wheelies, airtimes, waypoints) == (s1, c1)
        }),
{
    let (s1, c1) = award_pass(s, c, log, wheelies, airtimes, waypoints);
    match log {
        Some(l) => {
            assert(c1.processed >= l.len());
            assert(unseen_events(l, c1.processed as nat) =~= Seq::<GameEventKind>::empty());
        },
        None => {},
    }
}

proof fn lemma_decimal_no_commas(n: nat)
    ensures
        !decimal(n).contains(','),
    decreases n,
{
    if n >= 10 {
        lemma_decimal_no_commas(n / 10);
        assert forall|i: int| 0 <= i < decimal(n).len() implies decimal(n)[i] != ',' by {
            if i < decimal(n / 10).len() {
                assert(decimal(n)[i] == decimal(n / 10)[i]);
            }
        }
    }
}

proof fn lemma_strip_commas(d: Seq<char>)
    requires
        !d.contains(','),
    ensures
        with_commas(d).filter(|c: char| c != ',') == d,
    decreases d.len(),
{
    broadcast use vstd::seq_lib::group_filter_ensures;
    let keep = |c: char| c != ',';
    if d.len() <= 3 {
        assert(d.filter(keep) =~= d) by {
            d.lemma_all_neg_filter_empty(|c: char| c == ',');
            lemma_filter_all_kept(d);
        }
    } else {
        let front = d.subrange(0, d.len() - 3);
        let back = d.subrange(d.len() - 3, d.len() as int);
        assert forall|i: int| 0 <= i < front.len() implies front[i] != ',' by {
            assert(front[i] == d[i]);
        }
        lemma_strip_commas(front);
        Seq::filter_distributes_over_add(with_commas(front) + seq![','], back, keep);
        Seq::filter_distributes_over_add(with_commas(front), seq![','], keep);
        assert(seq![','].filter(keep) =~= Seq::<char>::empty()) by {
            reveal_with_fuel(Seq::filter, 2);
            assert(seq![','].drop_last() =~= Seq::<char>::empty());
        }
        assert forall|i: int| 0 <= i < back.len() implies back[i] != ',' by {
            assert(back[i] == d[i + d.len() - 3]);
        }
        lemma_filter_all_kept(back);
        assert(front + back =~= d);
    }
}

proof fn lemma_filter_all_kept(d: Seq<char>)
    requires
        !d.contains(','),
    ensures
        d.filter(|c: char| c != ',') == d,
    decreases d.len(),
{
    reveal(Seq::filter);
    if d.len() > 0 {
        assert forall|i: int| 0 <= i < d.drop_last().len() implies d.drop_last()[i] != ',' by {
            assert(d.drop_last()[i] == d[i]);
        }
        lemma_filter_all_kept(d.drop_last());
        assert(d.drop_last().push(d.last()) =~= d);
    }
}

/// The thousands separators of `format_xp` change nothing but the look:
/// dropping the commas gives back the plain decimal digits.
pub proof fn lemma_format_xp_digits(n: nat)
    ensures
        with_commas(decimal(n)).filter(|c: char| c != ',') == decimal(n),
{
    lemma_decimal_no_commas(n);
    lemma_strip_commas(decimal(n));
}

/// `x` plus `add`, capped at `u64::MAX`.
pub open spec fn capped_sum(x: u64, add: int) -> int {
    if x + add > u64::MAX { u64::MAX as int } else { x + add }
}

/// A gain of `d >= 0` repeated `n` times adds `n * d` to both totals,
/// capped at the top of the range, and shows `d` as the latest gain.
pub proof fn lemma_gain_repeated(s: XpState, d: i32, n: nat)
    requires
        d >= 0,
    ensures
        gained_times(s, d, n).total_xp == capped_sum(s.total_xp, n * d),
        gained_times(s, d, n).session_xp == capped_sum(s.session_xp, n * d),
        n > 0 ==> gained_times(s, d, n).last_gain == d,
        n == 0 ==> gained_times(s, d, n) == s,
    decreases n,
{
    if n > 0 {
        lemma_gain_repeated(s, d, (n - 1) as nat);
        assert((n - 1) * d + d == n * d) by (nonlinear_arith);
        assert(0 <= (n - 1) * d) by (nonlinear_arith) requires n >= 1, d >= 0;
    }
}

/// Each unit that a counter rises by is paid once, at the counter's rate:
/// an award pass in which only the airtime counter has risen, from
/// `last_airtime` to `k`, adds 30 XP per unit of the rise to both totals
/// (capped), shows 30 as the latest gain and moves the airtime cursor to
/// `k`; the same holds of the wheelie counter at 40 XP and the waypoint
/// counter at 100 XP.
pub proof fn lemma_counter_rise_paid(s: XpState, c: XpCursor, k: u32)
    ensures
        k > c.last_airtime ==> {
            let (s1, c1) = award_pass(s, c, None, None, Some(k), None);
            &&& s1.total_xp == capped_sum(s.total_xp, 30 * (k - c.last_airtime))
            &&& s1.session_xp == capped_sum(s.session_xp, 30 * (k - c.last_airtime))
            &&& s1.last_gain == 30
            &&& c1.last_airtime == k
        },
        k > c.last_wheelie ==> {
            let (s1, c1) = award_pass(s, c, None, Some(k), None, None);
            &&& s1.total_xp == capped_sum(s.total_xp, 40 * (k - c.last_wheelie))
            &&& s1.session_xp == capped_sum(s.session_xp, 40 * (k - c.last_wheelie))
            &&& s1.last_gain == 40
            &&& c1.last_wheelie == k
        },
        k > c.last_waypoint ==> {
            let (s1, c1) = award_pass(s, c, None, None, None, Some(k));
            &&& s1.total_xp == capped_sum(s.total_xp, 100 * (k - c.last_waypoint))
            &&& s1.session_xp == capped_sum(s.session_xp, 100 * (k - c.last_waypoint))
            &&& s1.last_gain == 100
            &&& c1.last_waypoint == k
        },
{
    if k > c.last_airtime {
        lemma_gain_repeated(s, XP_AIRTIME, (k - c.last_airtime) as nat);
        assert((k - c.last_airtime) * 30 == 30 * (k - c.last_airtime)) by (nonlinear_arith);
    }
    if k > c.last_wheelie {
        lemma_gain_repeated(s, XP_WHEELIE, (k - c.last_wheelie) as nat);
        assert((k - c.last_wheelie) * 40 == 40 * (k - c.last_wheelie)) by (nonlinear_arith);
    }
    if k > c.last_waypoint {
        lemma_gain_repeated(s, XP_WAYPOINT, (k - c.last_waypoint) as nat);
        assert((k - c.last_waypoint) * 100 == 100 * (k - c.last_waypoint)) by (nonlinear_arith);
    }
}

/// A logged event is paid at its own rate: an award pass that sees one new
/// event and no counter adds that event's XP (distance 50, speed 20, clean
/// stop 10, airtime 30) to both totals, capped, or takes away its penalty
/// (hard impact 10, big tilt 5), never below zero.
pub proof fn lemma_event_paid(s: XpState, c: XpCursor, log: Seq<GameEventKind>)
    requires
        log.len() == c.processed + 1,
        log.len() <= usize::MAX,
    ensures
        ({
            let ev = log[c.processed as int];
            let (s1, c1) = award_pass(s, c, Some(log), None, None, None);
            let amount: int = if ev is DistanceMilestone { 50 } else if ev is SpeedMilestone { 20 }
                else if ev is BrakeStop { 10 } else if ev is Airtime { 30 } else { 0 };
            &&& amount > 0 ==> s1.total_xp == capped_sum(s.total_xp, amount)
            &&& amount > 0 ==> s1.session_xp == capped_sum(s.session_xp, amount)
            &&& ev is HardImpact ==> s1.total_xp == (if s.total_xp >= 10 { s.total_xp - 10 } else { 0 })
            &&& ev is BigTilt ==> s1.total_xp == (if s.total_xp >= 5 { s.total_xp - 5 } else { 0 })
            &&& ev is HardImpact ==> s1.last_gain == -10
            &&& ev is BigTilt ==> s1.last_gain == -5
            &&& amount > 0 ==> s1.last_gain == amount
            &&& c1.processed == log.len()
        }),
{
    let u = unseen_events(log, c.processed as nat);
    assert(u =~= seq![log[c.processed as int]]);
    assert(u.drop_last() =~= Seq::<GameEventKind>::empty());
    assert(u.last() == log[c.processed as int]);
    assert(gained_events(s, u.drop_last()) == s);
    assert(gained_events(s, u) == gained(s, spec_event_delta(u.last())));
}

} // verus!
