//! The touch-gesture engine: turns the multitouch slot protocol of the
//! source screen into relative pointer motion, two-finger scroll and
//! contact up/down, one batch per report.
//!
//! Axis mapping: the source x axis drives `REL_X` and the source y axis
//! drives `REL_Y`, unchanged. A single finger that did not move emits no
//! motion. Scrolling: moving the fingers up (decreasing
//! y) gives positive `REL_WHEEL`; moving them right gives positive
//! `REL_HWHEEL`.
use vstd::prelude::*;

use crate::event::{
    key_event, key_spec, rel_event, rel_spec, syn_report, syn_report_spec, RawEvent,
    ABS_MT_POSITION_X, ABS_MT_POSITION_Y, ABS_MT_SLOT, ABS_MT_TRACKING_ID, BTN_TOUCH, EV_ABS,
    EV_REL, EV_SYN, REL_HWHEEL, REL_WHEEL, REL_X, REL_Y, SYN_REPORT,
};

verus! {

/// Number of multitouch slots tracked.
pub const MAX_SLOTS: usize = 16;

/// Per-axis bound on a centroid step before it is turned into ticks.
pub const SCROLL_DELTA_LIMIT: i64 = 200;

/// Centroid units per scroll tick.
pub const SCROLL_UNITS_PER_TICK: i64 = 30;

/// Bound on the scroll ticks of one report, per axis.
pub const SCROLL_TICK_LIMIT: i64 = 15;

/// What is known of one slot. An inactive slot holds no position.
#[derive(Clone, Copy, Debug, PartialEq, Eq, Structural)]
pub struct SlotState {
    pub active: bool,
    pub x: Option<i32>,
    pub y: Option<i32>,
}

pub open spec fn empty_slot() -> SlotState {
    SlotState { active: false, x: None, y: None }
}

/// The state of the engine, as a mathematical value.
pub struct TouchModel {
    pub slots: Seq<SlotState>,
    pub current: int,
    pub primary: Option<int>,
    pub last_primary: Option<(i32, i32)>,
    pub touch_down: bool,
    pub last_centroid: Option<(int, int)>,
}

/// Number of active slots among the first `k`.
pub open spec fn count_active(slots: Seq<SlotState>, k: int) -> int
    decreases k,
{
    if k <= 0 {
        0
    } else {
        count_active(slots, k - 1) + if slots[k - 1].active { 1int } else { 0int }
    }
}

pub open spec fn contacts(slots: Seq<SlotState>) -> int {
    count_active(slots, slots.len() as int)
}

/// The lowest-indexed active slot at or after `i`.
pub open spec fn first_active_from(slots: Seq<SlotState>, i: int) -> Option<int>
    decreases slots.len() - i,
{
    if i < 0 || i >= slots.len() {
        None
    } else if slots[i].active {
        Some(i)
    } else {
        first_active_from(slots, i + 1)
    }
}

/// The position of a slot, where both coordinates are known.
pub open spec fn position(s: SlotState) -> Option<(i32, i32)> {
    match (s.x, s.y) {
        (Some(x), Some(y)) => Some((x, y)),
        _ => None,
    }
}

/// Sum of the x (`of_x`) or y coordinates of the first `k` slots that are
/// active and have a position.
pub open spec fn coord_sum(slots: Seq<SlotState>, k: int, of_x: bool) -> int
    decreases k,
{
    if k <= 0 {
        0
    } else {
        coord_sum(slots, k - 1, of_x) + match (slots[k - 1].active, position(slots[k - 1])) {
            (true, Some((x, y))) => if of_x { x as int } else { y as int },
            _ => 0int,
        }
    }
}

/// Division rounding toward zero.
pub open spec fn div_toward_zero(a: int, d: int) -> int {
    if a >= 0 { a / d } else { -((-a) / d) }
}

pub open spec fn clamp(v: int, lo: int, hi: int) -> int {
    if v < lo { lo } else if v > hi { hi } else { v }
}

/// Slot selected by a slot-select value: out-of-range values are clamped.
pub open spec fn clamp_slot(v: i32) -> int {
    clamp(v as int, 0, MAX_SLOTS - 1)
}

/// Effect of one absolute-axis event on the state.
pub open spec fn absorb(m: TouchModel, code: u16, value: i32) -> TouchModel {
    let c = m.current;
    let s = m.slots[c];
    if code == ABS_MT_SLOT {
        TouchModel { current: clamp_slot(value), ..m }
    } else if code == ABS_MT_TRACKING_ID {
        if value >= 0 {
            TouchModel { slots: m.slots.update(c, SlotState { active: true, ..s }), ..m }
        } else {
            TouchModel { slots: m.slots.update(c, empty_slot()), ..m }
        }
    } else if code == ABS_MT_POSITION_X && s.active {
        TouchModel { slots: m.slots.update(c, SlotState { x: Some(value), ..s }), ..m }
    } else if code == ABS_MT_POSITION_Y && s.active {
        TouchModel { slots: m.slots.update(c, SlotState { y: Some(value), ..s }), ..m }
    } else {
        m
    }
}

/// The slot that drives the cursor after a report: the previous one while
/// it stays active, else the lowest-indexed active slot.
pub open spec fn next_primary(m: TouchModel) -> Option<int> {
    if contacts(m.slots) == 0 {
        None
    } else if m.primary is Some && m.slots[m.primary->0].active {
        m.primary
    } else {
        first_active_from(m.slots, 0)
    }
}

/// Baseline of the primary slot once the primary is chosen: reset to the
/// new primary's position whenever the primary changes.
pub open spec fn primary_baseline(m: TouchModel) -> Option<(i32, i32)> {
    let p = next_primary(m);
    if p == m.primary {
        m.last_primary
    } else {
        match p {
            Some(s) => position(m.slots[s]),
            None => None,
        }
    }
}

/// Contact edge of a report.
pub open spec fn edge_events(m: TouchModel) -> Seq<RawEvent> {
    let n = contacts(m.slots);
    if n > 0 && !m.touch_down {
        seq![key_spec(BTN_TOUCH, 1)]
    } else if n == 0 && m.touch_down {
        seq![key_spec(BTN_TOUCH, 0)]
    } else {
        seq![]
    }
}

/// Centroid of the positioned active slots, over the contact count.
pub open spec fn centroid(m: TouchModel) -> (int, int) {
    let n = contacts(m.slots);
    (
        div_toward_zero(coord_sum(m.slots, MAX_SLOTS as int, true), n),
        div_toward_zero(coord_sum(m.slots, MAX_SLOTS as int, false), n),
    )
}

/// Scroll ticks for one centroid step along one axis.
pub open spec fn ticks(delta: int) -> int {
    clamp(
        div_toward_zero(clamp(delta, -SCROLL_DELTA_LIMIT, SCROLL_DELTA_LIMIT as int), SCROLL_UNITS_PER_TICK as int),
        -SCROLL_TICK_LIMIT,
        SCROLL_TICK_LIMIT as int,
    )
}

/// Scroll events for the centroid moving from `last` to `c`.
pub open spec fn scroll_events(last: (int, int), c: (int, int)) -> Seq<RawEvent> {
    let wheel = ticks(-(c.1 - last.1));
    let hwheel = ticks(c.0 - last.0);
    (if wheel != 0 { seq![rel_spec(REL_WHEEL, wheel as i32)] } else { seq![] })
        + (if hwheel != 0 { seq![rel_spec(REL_HWHEEL, hwheel as i32)] } else { seq![] })
}

/// Motion and scroll events of a report, before the contact edge.
pub open spec fn motion_events(m: TouchModel) -> Seq<RawEvent> {
    if contacts(m.slots) >= 2 {
        match m.last_centroid {
            Some(last) => scroll_events(last, centroid(m)),
            None => seq![],
        }
    } else {
        match (next_primary(m), primary_baseline(m)) {
            (Some(s), Some((px, py))) => match position(m.slots[s]) {
                Some((x, y)) => if x == px && y == py {
                    seq![]
                } else {
                    seq![rel_spec(REL_X, (x - px) as i32), rel_spec(REL_Y, (y - py) as i32)]
                },
                None => seq![],
            },
            _ => seq![],
        }
    }
}

/// Everything a report emits: nothing at all when it is quiet, else the
/// edge, the motion and a trailing report marker.
pub open spec fn report_events(m: TouchModel) -> Seq<RawEvent> {
    let out = edge_events(m) + motion_events(m);
    if out.len() == 0 { out } else { out.push(syn_report_spec()) }
}

/// The state after a report.
pub open spec fn committed(m: TouchModel) -> TouchModel {
    let n = contacts(m.slots);
    let p = next_primary(m);
    let base = primary_baseline(m);
    TouchModel {
        primary: p,
        touch_down: n > 0,
        last_centroid: if n >= 2 { Some(centroid(m)) } else { None },
        last_primary: if n >= 2 {
            base
        } else {
            match p {
                Some(s) => match position(m.slots[s]) {
                    Some(xy) => Some(xy),
                    None => base,
                },
                None => base,
            }
        },
        ..m
    }
}

pub open spec fn is_report(ev: RawEvent) -> bool {
    ev.type_ == EV_SYN && ev.code == SYN_REPORT
}

/// The state after one event.
pub open spec fn next_state(m: TouchModel, ev: RawEvent) -> TouchModel {
    if ev.type_ == EV_ABS {
        absorb(m, ev.code, ev.value)
    } else if is_report(ev) {
        committed(m)
    } else {
        m
    }
}

/// What one event emits.
pub open spec fn emitted(m: TouchModel, ev: RawEvent) -> Seq<RawEvent> {
    if ev.type_ != EV_ABS && is_report(ev) {
        report_events(m)
    } else {
        seq![]
    }
}


/// Updating slot `i` changes the number of active slots by the change of
/// that slot alone.
proof fn lemma_count_update(s: Seq<SlotState>, i: int, v: SlotState, k: int)
    requires
        0 <= i < s.len(),
        0 <= k <= s.len(),
    ensures
        count_active(s.update(i, v), k) == count_active(s, k)
            - (if i < k && s[i].active { 1int } else { 0int })
            + (if i < k && v.active { 1int } else { 0int }),
    decreases k,
{
    if k > 0 {
        lemma_count_update(s, i, v, k - 1);
    }
}

proof fn lemma_count_bounds(s: Seq<SlotState>, k: int)
    requires
        0 <= k <= s.len(),
    ensures
        0 <= count_active(s, k) <= k,
    decreases k,
{
    if k > 0 {
        lemma_count_bounds(s, k - 1);
    }
}

/// Bound on stored centroid coordinates: the sum of sixteen `i32` values.
pub open spec fn centroid_bound() -> int {
    34359738368
}

/// The touch-gesture engine of one touch channel.
pub struct TouchEngine {
    slots: [SlotState; 16],
    current: usize,
    contact_count: usize,
    primary: Option<usize>,
    last_primary: Option<(i32, i32)>,
    touch_down: bool,
    last_centroid: Option<(i64, i64)>,
}

impl View for TouchEngine {
    type V = TouchModel;

    closed spec fn view(&self) -> TouchModel {
        TouchModel {
            slots: self.slots@,
            current: self.current as int,
            primary: match self.primary {
                Some(p) => Some(p as int),
                None => None,
            },
            last_primary: self.last_primary,
            touch_down: self.touch_down,
            last_centroid: match self.last_centroid {
                Some((x, y)) => Some((x as int, y as int)),
                None => None,
            },
        }
    }
}

/// A well-formed model: sixteen slots, inactive slots hold no position, and
/// the selected and primary slots are in range.
pub open spec fn model_wf(m: TouchModel) -> bool {
    &&& m.slots.len() == MAX_SLOTS
    &&& 0 <= m.current < MAX_SLOTS
    &&& forall|i: int| 0 <= i < MAX_SLOTS && !(#[trigger] m.slots[i]).active ==> m.slots[i] == empty_slot()
    &&& m.primary is Some ==> 0 <= m.primary->0 < MAX_SLOTS
    &&& m.last_centroid is Some ==> {
        let (x, y) = m.last_centroid->0;
        -centroid_bound() <= x <= centroid_bound() && -centroid_bound() <= y <= centroid_bound()
    }
}

/// The state after each event of `evs` in turn.
pub open spec fn run_events(m: TouchModel, evs: Seq<RawEvent>) -> TouchModel
    decreases evs.len(),
{
    if evs.len() == 0 {
        m
    } else {
        run_events(next_state(m, evs[0]), evs.drop_first())
    }
}

impl TouchEngine {
    pub closed spec fn wf(&self) -> bool {
        &&& model_wf(self@)
        &&& self.contact_count as int == contacts(self@.slots)
    }

    /// An engine with no contact, slot 0 selected.
    pub fn new() -> (r: TouchEngine)
        ensures
            r.wf(),
            model_wf(r@),
            r@.slots == Seq::new(MAX_SLOTS as nat, |i: int| empty_slot()),
            r@.current == 0,
            r@.primary is None,
            r@.last_primary is None,
            !r@.touch_down,
            r@.last_centroid is None,
    {
        let e = SlotState { active: false, x: None, y: None };
        let r = TouchEngine {
            slots: [e; 16],
            current: 0,
            contact_count: 0,
            primary: None,
            last_primary: None,
            touch_down: false,
            last_centroid: None,
        };
        assert(r@.slots =~= Seq::new(MAX_SLOTS as nat, |i: int| empty_slot()));
        proof {
            let s = r@.slots;
            assert forall|k: int| 0 <= k <= 16 implies count_active(s, k) == 0 by {
                lemma_count_zero(s, k);
            }
        }
        r
    }

    fn set_slot(&mut self, v: SlotState)
        requires
            old(self).wf(),
            !v.active ==> v == empty_slot(),
        ensures
            final(self).wf(),
            final(self)@ == (TouchModel { slots: old(self)@.slots.update(old(self)@.current, v), ..old(self)@ }),
    {
        let c = self.current;
        let was = self.slots[c].active;
        proof {
            lemma_count_update(self@.slots, c as int, v, MAX_SLOTS as int);
            lemma_count_bounds(self@.slots, MAX_SLOTS as int);
            lemma_count_bounds(self@.slots.update(c as int, v), MAX_SLOTS as int);
        }
        if was && !v.active {
            self.contact_count = self.contact_count - 1;
        } else if !was && v.active {
            self.contact_count = self.contact_count + 1;
        }
        self.slots[c] = v;
        assert(self@.slots =~= old(self)@.slots.update(c as int, v));
    }

    /// Applies one absolute-axis event to the current frame.
    fn absorb(&mut self, code: u16, value: i32)
        requires
            old(self).wf(),
        ensures
            final(self).wf(),
            final(self)@ == absorb(old(self)@, code, value),
    {
        let c = self.current;
        let s = self.slots[c];
        if code == ABS_MT_SLOT {
            self.current = if value < 0 { 0 } else if value >= 16 { 15 } else { value as usize };
        } else if code == ABS_MT_TRACKING_ID {
            if value >= 0 {
                self.set_slot(SlotState { active: true, ..s });
            } else {
                self.set_slot(SlotState { active: false, x: None, y: None });
            }
        } else if code == ABS_MT_POSITION_X && s.active {
            self.set_slot(SlotState { x: Some(value), ..s });
        } else if code == ABS_MT_POSITION_Y && s.active {
            self.set_slot(SlotState { y: Some(value), ..s });
        }
    }
}

proof fn lemma_count_zero(s: Seq<SlotState>, k: int)
    requires
        0 <= k <= s.len(),
        forall|i: int| 0 <= i < s.len() ==> !(#[trigger] s[i]).active,
    ensures
        count_active(s, k) == 0,
    decreases k,
{
    if k > 0 {
        lemma_count_zero(s, k - 1);
    }
}


/// Division rounding toward zero, by a positive divisor.
fn div_toward_zero_i64(a: i64, d: i64) -> (r: i64)
    requires
        d > 0,
        a > i64::MIN,
    ensures
        r == div_toward_zero(a as int, d as int),
        a >= 0 ==> 0 <= r <= a,
        a < 0 ==> a <= r <= 0,
{
    if a >= 0 {
        let ua = a as u64;
        let ud = d as u64;
        let q = ua / ud;
        assert(q <= ua) by (nonlinear_arith)
            requires
                q == ua / ud,
                ud > 0,
        ;
        q as i64
    } else {
        let ua = (-a) as u64;
        let ud = d as u64;
        let q = ua / ud;
        assert(q <= ua) by (nonlinear_arith)
            requires
                q == ua / ud,
                ud > 0,
        ;
        -(q as i64)
    }
}

fn clamp_i64(v: i64, lo: i64, hi: i64) -> (r: i64)
    ensures
        r == clamp(v as int, lo as int, hi as int),
{
    if v < lo {
        lo
    } else if v > hi {
        hi
    } else {
        v
    }
}

/// Scroll ticks for one centroid step.
fn ticks_i64(delta: i64) -> (r: i64)
    requires
        delta > i64::MIN,
    ensures
        r == ticks(delta as int),
        -SCROLL_TICK_LIMIT <= r <= SCROLL_TICK_LIMIT,
{
    let d = clamp_i64(delta, -SCROLL_DELTA_LIMIT, SCROLL_DELTA_LIMIT);
    let t = div_toward_zero_i64(d, SCROLL_UNITS_PER_TICK);
    clamp_i64(t, -SCROLL_TICK_LIMIT, SCROLL_TICK_LIMIT)
}

fn position_of(s: SlotState) -> (r: Option<(i32, i32)>)
    ensures
        r == position(s),
{
    match (s.x, s.y) {
        (Some(x), Some(y)) => Some((x, y)),
        _ => None,
    }
}

impl TouchEngine {
    fn first_active(&self) -> (r: Option<usize>)
        requires
            self.wf(),
        ensures
            match r {
                Some(i) => first_active_from(self@.slots, 0) == Some(i as int),
                None => first_active_from(self@.slots, 0) is None,
            },
            r matches Some(i) ==> i < MAX_SLOTS,
    {
        let mut i: usize = 0;
        while i < MAX_SLOTS
            invariant
                self.wf(),
                i <= MAX_SLOTS,
                first_active_from(self@.slots, 0) == first_active_from(self@.slots, i as int),
            decreases MAX_SLOTS - i,
        {
            if self.slots[i].active {
                return Some(i);
            }
            i = i + 1;
        }
        None
    }

    /// Sums of the x and y coordinates of the positioned active slots.
    fn coord_sums(&self) -> (r: (i64, i64))
        requires
            self.wf(),
        ensures
            r.0 as int == coord_sum(self@.slots, MAX_SLOTS as int, true),
            r.1 as int == coord_sum(self@.slots, MAX_SLOTS as int, false),
            -centroid_bound() <= r.0 <= centroid_bound(),
            -centroid_bound() <= r.1 <= centroid_bound(),
    {
        let mut sx: i64 = 0;
        let mut sy: i64 = 0;
        let mut i: usize = 0;
        while i < MAX_SLOTS
            invariant
                self.wf(),
                i <= MAX_SLOTS,
                sx as int == coord_sum(self@.slots, i as int, true),
                sy as int == coord_sum(self@.slots, i as int, false),
                -(i as int) * 2147483648 <= sx <= (i as int) * 2147483648,
                -(i as int) * 2147483648 <= sy <= (i as int) * 2147483648,
            decreases MAX_SLOTS - i,
        {
            let s = self.slots[i];
            if s.active {
                if let Some((x, y)) = position_of(s) {
                    sx = sx + x as i64;
                    sy = sy + y as i64;
                }
            }
            i = i + 1;
        }
        (sx, sy)
    }

    /// Commits the frame at a report boundary and returns what it emits.
    fn commit(&mut self) -> (out: Vec<RawEvent>)
        requires
            old(self).wf(),
        ensures
            final(self).wf(),
            final(self)@ == committed(old(self)@),
            out@ == report_events(old(self)@),
    {
        let ghost m = self@;
        let n = self.contact_count;
        proof {
            lemma_count_bounds(m.slots, MAX_SLOTS as int);
        }
        let p: Option<usize> = if n == 0 {
            None
        } else if self.primary.is_some() && self.slots[self.primary.unwrap()].active {
            self.primary
        } else {
            self.first_active()
        };
        assert(p matches Some(s) ==> next_primary(m) == Some(s as int));
        assert(p is None ==> next_primary(m) is None);
        let changed = match (p, self.primary) {
            (Some(a), Some(b)) => a != b,
            (None, None) => false,
            _ => true,
        };
        if changed {
            self.primary = p;
            self.last_primary = match p {
                Some(s) => position_of(self.slots[s]),
                None => None,
            };
        }
        assert(self.last_primary == primary_baseline(m));
        let mut out: Vec<RawEvent> = Vec::new();
        if n > 0 && !self.touch_down {
            out.push(key_event(BTN_TOUCH, 1));
        } else if n == 0 && self.touch_down {
            out.push(key_event(BTN_TOUCH, 0));
        }
        self.touch_down = n > 0;
        assert(out@ =~= edge_events(m));
        if n >= 2 {
            let (sx, sy) = self.coord_sums();
            let cx = div_toward_zero_i64(sx, n as i64);
            let cy = div_toward_zero_i64(sy, n as i64);
            if let Some((lx, ly)) = self.last_centroid {
                let wheel = ticks_i64(ly - cy);
                let hwheel = ticks_i64(cx - lx);
                if wheel != 0 {
                    out.push(rel_event(REL_WHEEL, wheel as i32));
                }
                if hwheel != 0 {
                    out.push(rel_event(REL_HWHEEL, hwheel as i32));
                }
            }
            self.last_centroid = Some((cx, cy));
        } else {
            self.last_centroid = None;
            if let Some(s) = p {
                if let Some((x, y)) = position_of(self.slots[s]) {
                    if let Some((px, py)) = self.last_primary {
                        if x != px || y != py {
                            let dx: i32 = #[verifier::truncate] ((x as i64 - px as i64) as i32);
                            let dy: i32 = #[verifier::truncate] ((y as i64 - py as i64) as i32);
                            out.push(rel_event(REL_X, dx));
                            out.push(rel_event(REL_Y, dy));
                        }
                    }
                    self.last_primary = Some((x, y));
                }
            }
        }
        assert(out@ =~= edge_events(m) + motion_events(m));
        if out.len() > 0 {
            out.push(syn_report());
        }
        assert(self@ == committed(m));
        out
    }

    /// Number of active contacts.
    pub fn contact_count(&self) -> (r: usize)
        requires
            self.wf(),
        ensures
            r as int == contacts(self@.slots),
    {
        self.contact_count
    }

    /// Whether a contact-down was emitted and not yet followed by a
    /// contact-up.
    pub fn is_touch_down(&self) -> (r: bool)
        ensures
            r == self@.touch_down,
    {
        self.touch_down
    }

    /// The slot that drives the cursor, as of the last report.
    pub fn primary_slot(&self) -> (r: Option<usize>)
        ensures
            match r {
                Some(p) => self@.primary == Some(p as int),
                None => self@.primary is None,
            },
    {
        self.primary
    }

    /// Feeds one decoded event to the engine and returns the batch to emit:
    /// empty, except at a report boundary that changes something.
    pub fn handle(&mut self, ev: RawEvent) -> (out: Vec<RawEvent>)
        requires
            old(self).wf(),
        ensures
            final(self).wf(),
            model_wf(final(self)@),
            final(self)@ == next_state(old(self)@, ev),
            out@ == emitted(old(self)@, ev),
            forall|i: int|
                0 <= i < out@.len() && (#[trigger] out@[i]).type_ == EV_REL
                    && (out@[i].code == REL_WHEEL || out@[i].code == REL_HWHEEL)
                    ==> -SCROLL_TICK_LIMIT <= out@[i].value <= SCROLL_TICK_LIMIT,
    {
        if ev.type_ == EV_ABS {
            self.absorb(ev.code, ev.value);
            Vec::new()
        } else if ev.type_ == EV_SYN && ev.code == SYN_REPORT {
            self.commit()
        } else {
            Vec::new()
        }
    }
}


proof fn lemma_active_counted(s: Seq<SlotState>, i: int, k: int)
    requires
        0 <= i < k <= s.len(),
        s[i].active,
    ensures
        count_active(s, k) >= 1,
    decreases k,
{
    lemma_count_bounds(s, k - 1);
    if i < k - 1 {
        lemma_active_counted(s, i, k - 1);
    }
}

proof fn lemma_quiet_events_keep_touch_down(m: TouchModel, evs: Seq<RawEvent>)
    requires
        forall|i: int| 0 <= i < evs.len() ==> !is_report(#[trigger] evs[i]),
    ensures
        run_events(m, evs).touch_down == m.touch_down,
    decreases evs.len(),
{
    if evs.len() > 0 {
        let rest = evs.drop_first();
        assert forall|i: int| 0 <= i < rest.len() implies !is_report(#[trigger] rest[i]) by {
            assert(rest[i] == evs[i + 1]);
        }
        lemma_quiet_events_keep_touch_down(next_state(m, evs[0]), rest);
    }
}

/// Contact edges are not repeated: after a report with contacts, a later
/// report with the same positive contact count, with only non-report events
/// between the two, emits no contact-down or contact-up event.
pub proof fn lemma_contact_edge_not_repeated(
    m: TouchModel,
    first: RawEvent,
    between: Seq<RawEvent>,
    second: RawEvent,
)
    requires
        is_report(first),
        is_report(second),
        forall|i: int| 0 <= i < between.len() ==> !is_report(#[trigger] between[i]),
        contacts(next_state(m, first).slots) > 0,
        contacts(run_events(next_state(m, first), between).slots) == contacts(
            next_state(m, first).slots,
        ),
    ensures
        forall|i: int|
            0 <= i < emitted(run_events(next_state(m, first), between), second).len() ==> !(
            #[trigger] emitted(run_events(next_state(m, first), between), second)[i] == key_spec(
                BTN_TOUCH,
                0,
            ) || emitted(run_events(next_state(m, first), between), second)[i] == key_spec(
                BTN_TOUCH,
                1,
            )),
{
    let m1 = next_state(m, first);
    let m2 = run_events(m1, between);
    lemma_quiet_events_keep_touch_down(m1, between);
    assert(m2.touch_down);
    assert(edge_events(m2) =~= seq![]);
    let out = emitted(m2, second);
    let mo = motion_events(m2);
    assert forall|i: int| 0 <= i < mo.len() implies (#[trigger] mo[i]).type_ == EV_REL by {
        if contacts(m2.slots) >= 2 {
            match m2.last_centroid {
                Some(last) => {
                    let c = centroid(m2);
                    let wheel = ticks(-(c.1 - last.1));
                    let hwheel = ticks(c.0 - last.0);
                    let a: Seq<RawEvent> = if wheel != 0 { seq![rel_spec(REL_WHEEL, wheel as i32)] } else { seq![] };
                    let b: Seq<RawEvent> = if hwheel != 0 { seq![rel_spec(REL_HWHEEL, hwheel as i32)] } else { seq![] };
                    assert(mo == a + b);
                    if i < a.len() {
                        assert(mo[i] == a[i]);
                    } else {
                        assert(mo[i] == b[i - a.len()]);
                    }
                },
                None => {},
            }
        }
    }
    assert forall|i: int| 0 <= i < out.len() implies !(#[trigger] out[i] == key_spec(BTN_TOUCH, 0)
        || out[i] == key_spec(BTN_TOUCH, 1)) by {
        assert(edge_events(m2) + mo =~= mo);
        if i < mo.len() {
            assert(out[i] == mo[i]);
        } else {
            assert(out[i] == syn_report_spec());
        }
    }
}

/// The primary slot never changes while it stays active: whatever the
/// event, if the primary slot is still active after it, it is still the
/// primary slot.
pub proof fn lemma_primary_stable(m: TouchModel, ev: RawEvent, p: int)
    requires
        model_wf(m),
        m.primary == Some(p),
        next_state(m, ev).slots[p].active,
    ensures
        next_state(m, ev).primary == Some(p),
{
    if ev.type_ != EV_ABS && is_report(ev) {
        lemma_active_counted(m.slots, p, MAX_SLOTS as int);
    }
}

} // verus!
