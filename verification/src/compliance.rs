//! Compliance screening of lending activity: which checks an event gets, when
//! each check reports a violation, the reasons recorded on a flagged plan, and
//! the cooldown that keeps one alert from being raised twice in a row.
//!
//! Instants are microseconds since the Unix epoch.
use vstd::prelude::*;
use crate::decimal::{dec_le, dec_le_spec, dec_to_string, decimal_text, Dec};
use crate::error::ApiError;
use crate::text::{contains, contains_seq, i64_to_string, signed_decimal_string, str_eq};

verus! {

/// How long a raised alert keeps the same alert from being raised again:
/// five minutes, in microseconds.
pub const ALERT_COOLDOWN_MICROS: i64 = 300_000_000;

/// Time between two looks for the row of a lending event, in milliseconds.
pub const EVENT_COMMIT_POLL_INTERVAL_MILLIS: u64 = 200;

/// How many times the row of a lending event is looked for.
pub const EVENT_COMMIT_MAX_RETRIES: usize = 5;

/// Thirty days in microseconds: the dormancy window of the activity-spike
/// rule.
pub const DORMANCY_WINDOW_MICROS: i64 = 2_592_000_000_000;

/// Interval of the periodic scan, in seconds.
pub const SCAN_INTERVAL_SECS: u64 = 300;

// ── Lending events ─────────────────────────────────────────────────────────

/// Kind of a lending event.
#[derive(Debug, Clone, Copy, PartialEq, Eq, Structural)]
pub enum EventType {
    Borrow,
    Repay,
    Liquidation,
    InterestAccrual,
}

/// A recorded lending event, as the compliance rules read it.
#[derive(Debug)]
pub struct LendingEvent {
    pub id: u128,
    pub event_type: EventType,
    pub user_id: u128,
    pub plan_id: Option<u128>,
    pub asset_code: String,
    pub amount: Dec,
    pub transaction_hash: Option<String>,
    pub block_number: Option<i64>,
    pub event_timestamp: i64,
    pub created_at: i64,
}

/// Receiver of lending events as they happen.
pub trait RealtimeComplianceListener {
    fn on_event(&self, event: LendingEvent) -> Result<(), ApiError>;
}

// ── The listener slot ──────────────────────────────────────────────────────

/// The one real-time listener of the process: set once, never replaced.
pub struct ListenerRegistry<L> {
    listener: Option<L>,
}

impl<L> View for ListenerRegistry<L> {
    type V = Option<L>;

    closed spec fn view(&self) -> Option<L> {
        self.listener
    }
}

/// What registering `listener` in a slot holding `slot` gives: whether it was
/// accepted, and the slot afterwards.
pub open spec fn register_outcome<L>(slot: Option<L>, listener: L) -> (bool, Option<L>) {
    match slot {
        Some(_) => (false, slot),
        None => (true, Some(listener)),
    }
}

impl<L> ListenerRegistry<L> {
    /// An empty slot.
    pub fn new() -> (r: Self)
        ensures
            r@ is None,
    {
        ListenerRegistry { listener: None }
    }

    /// The registered listener, if any.
    pub fn listener(&self) -> (r: Option<&L>)
        ensures
            r is Some <==> self@ is Some,
            r matches Some(l) ==> self@ == Some(*l),
    {
        match &self.listener {
            Some(l) => Some(l),
            None => None,
        }
    }
}

/// Registers the real-time listener. Only the first registration is
/// accepted; a later one is refused and leaves the first in place.
pub fn register_realtime_compliance_listener<L>(registry: &mut ListenerRegistry<L>, listener: L) -> (r:
    Result<(), &'static str>)
    ensures
        r is Ok == register_outcome(old(registry)@, listener).0,
        final(registry)@ == register_outcome(old(registry)@, listener).1,
        r matches Err(m) ==> m@ == "real-time compliance listener already registered"@,
{
    if registry.listener.is_some() {
        Err("real-time compliance listener already registered")
    } else {
        registry.listener = Some(listener);
        Ok(())
    }
}

/// The registered listener, if any.
pub fn get_realtime_compliance_listener<L>(registry: &ListenerRegistry<L>) -> (r: Option<&L>)
    ensures
        r is Some <==> registry@ is Some,
        r matches Some(l) ==> registry@ == Some(*l),
{
    registry.listener()
}

/// Hands `event` to the registered listener, if there is one, and gives back
/// what the listener answered. Without a listener the event is dropped.
pub fn dispatch_realtime_event<L: RealtimeComplianceListener>(
    registry: &ListenerRegistry<L>,
    event: LendingEvent,
) -> (r: Option<Result<(), ApiError>>)
    ensures
        r is Some <==> registry@ is Some,
        registry@ matches Some(l) ==> (r matches Some(x) && call_ensures(
            L::on_event,
            (&l, event),
            x,
        )),
{
    match registry.listener() {
        Some(l) => Some(l.on_event(event)),
        None => None,
    }
}

/// Registration is write-once: once a listener is in the slot, any later
/// registration is refused and the slot keeps the first listener.
pub proof fn lemma_first_listener_stays<L>(slot: Option<L>, first: L, second: L)
    ensures
        register_outcome(register_outcome(slot, first).1, second).0 == false,
        register_outcome(register_outcome(slot, first).1, second).1 == register_outcome(
            slot,
            first,
        ).1,
        slot is None ==> register_outcome(register_outcome(slot, first).1, second).1 == Some(
            first,
        ),
{
}

// ── Which checks an event gets ─────────────────────────────────────────────

/// A real-time compliance check.
#[derive(Debug, Clone, Copy, PartialEq, Eq, Structural)]
pub enum ComplianceCheck {
    AbnormalVolume,
    SuddenActivitySpike,
    HighVelocity,
}

/// The checks run, in order, for an event of type `t`.
pub open spec fn checks_for(t: EventType) -> Seq<ComplianceCheck> {
    match t {
        EventType::Borrow => seq![
            ComplianceCheck::AbnormalVolume,
            ComplianceCheck::SuddenActivitySpike,
            ComplianceCheck::HighVelocity,
        ],
        EventType::Repay => seq![ComplianceCheck::HighVelocity],
        _ => Seq::empty(),
    }
}

/// The checks run for a committed event, in the order they run: a borrow is
/// checked for volume, dormancy and velocity; a repayment for velocity only;
/// other events are not checked.
pub fn realtime_checks(event_type: EventType) -> (r: Vec<ComplianceCheck>)
    ensures
        r@ == checks_for(event_type),
{
    match event_type {
        EventType::Borrow => {
            let r = vec![
                ComplianceCheck::AbnormalVolume,
                ComplianceCheck::SuddenActivitySpike,
                ComplianceCheck::HighVelocity,
            ];
            assert(r@ =~= checks_for(event_type));
            r
        },
        EventType::Repay => {
            let r = vec![ComplianceCheck::HighVelocity];
            assert(r@ =~= checks_for(event_type));
            r
        },
        _ => {
            let r: Vec<ComplianceCheck> = Vec::new();
            assert(r@ =~= checks_for(event_type));
            r
        },
    }
}

/// What to do after looking for an event's row.
#[derive(Debug, Clone, Copy, PartialEq, Eq, Structural)]
pub enum CommitPoll {
    /// The row is there: run the checks.
    Committed,
    /// Not yet: wait the poll interval and look again.
    PollAgain,
    /// Still missing after the last look: wait the poll interval, then skip
    /// the checks.
    NotCommitted,
}

/// The decision after the `attempts_done`-th look for an event's row.
pub fn commit_poll_step(attempts_done: usize, found: bool) -> (r: CommitPoll)
    ensures
        found ==> r == CommitPoll::Committed,
        !found && attempts_done < EVENT_COMMIT_MAX_RETRIES ==> r == CommitPoll::PollAgain,
        !found && attempts_done >= EVENT_COMMIT_MAX_RETRIES ==> r == CommitPoll::NotCommitted,
{
    if found {
        CommitPoll::Committed
    } else if attempts_done < EVENT_COMMIT_MAX_RETRIES {
        CommitPoll::PollAgain
    } else {
        CommitPoll::NotCommitted
    }
}

// ── Reasons ────────────────────────────────────────────────────────────────

/// Reason recorded for high velocity.
pub open spec fn high_velocity_text(event_count: int, window_mins: int) -> Seq<char> {
    "High velocity detected: "@ + signed_decimal_string(event_count)
        + " borrowing events in last "@ + signed_decimal_string(window_mins) + " minutes"@
}

/// Reason recorded for one large borrow.
pub open spec fn abnormal_volume_text(amount: Seq<char>, asset_code: Seq<char>, threshold: Seq<
    char,
>) -> Seq<char> {
    "Abnormal volume detected: Borrowed "@ + amount + " "@ + asset_code + " (Threshold: "@
        + threshold + ")"@
}

/// Reason recorded for a large net borrowed volume over the velocity window.
pub open spec fn cumulative_volume_text(
    net_volume: Seq<char>,
    asset_code: Seq<char>,
    window_mins: int,
    threshold: Seq<char>,
) -> Seq<char> {
    "Abnormal cumulative volume detected: Net "@ + net_volume + " "@ + asset_code + " in "@
        + signed_decimal_string(window_mins) + " minutes (Threshold: "@ + threshold + ")"@
}

/// Reason recorded for a borrow after a dormant month.
pub open spec fn sudden_activity_text() -> Seq<char> {
    "Sudden activity spike: Borrowing after 30+ days of dormancy"@
}

/// Reason recorded for a sanctions hit.
pub open spec fn sanctions_hit_text(match_reason: Seq<char>) -> Seq<char> {
    "Sanctions screening hit: "@ + match_reason
}

/// Notification sent to a user whose plan was flagged.
pub open spec fn flag_notification_text(reason: Seq<char>) -> Seq<char> {
    "ALARM: Your account has been flagged for abnormal activity: "@ + reason
        + ". A compliance officer has been notified."@
}

/// The high-velocity reason.
pub fn high_velocity_reason(event_count: i64, window_mins: i64) -> (r: String)
    ensures
        r@ == high_velocity_text(event_count as int, window_mins as int),
{
    let mut r = "High velocity detected: ".to_owned();
    r.append(i64_to_string(event_count).as_str());
    r.append(" borrowing events in last ");
    r.append(i64_to_string(window_mins).as_str());
    r.append(" minutes");
    r
}

/// The abnormal-volume reason for one borrow.
pub fn abnormal_volume_reason(amount: &Dec, asset_code: &str, threshold: &Dec) -> (r: String)
    requires
        amount.wf(),
        threshold.wf(),
    ensures
        r@ == abnormal_volume_text(
            decimal_text(amount.mantissa, amount.scale),
            asset_code@,
            decimal_text(threshold.mantissa, threshold.scale),
        ),
{
    let mut r = "Abnormal volume detected: Borrowed ".to_owned();
    r.append(dec_to_string(amount).as_str());
    r.append(" ");
    r.append(asset_code);
    r.append(" (Threshold: ");
    r.append(dec_to_string(threshold).as_str());
    r.append(")");
    r
}

/// The cumulative-volume reason.
pub fn cumulative_volume_reason(
    net_volume: &Dec,
    asset_code: &str,
    window_mins: i64,
    threshold: &Dec,
) -> (r: String)
    requires
        net_volume.wf(),
        threshold.wf(),
    ensures
        r@ == cumulative_volume_text(
            decimal_text(net_volume.mantissa, net_volume.scale),
            asset_code@,
            window_mins as int,
            decimal_text(threshold.mantissa, threshold.scale),
        ),
{
    let mut r = "Abnormal cumulative volume detected: Net ".to_owned();
    r.append(dec_to_string(net_volume).as_str());
    r.append(" ");
    r.append(asset_code);
    r.append(" in ");
    r.append(i64_to_string(window_mins).as_str());
    r.append(" minutes (Threshold: ");
    r.append(dec_to_string(threshold).as_str());
    r.append(")");
    r
}

/// The activity-spike reason.
pub fn sudden_activity_reason() -> (r: String)
    ensures
        r@ == sudden_activity_text(),
{
    "Sudden activity spike: Borrowing after 30+ days of dormancy".to_owned()
}

/// The sanctions reason.
pub fn sanctions_hit_reason(match_reason: &str) -> (r: String)
    ensures
        r@ == sanctions_hit_text(match_reason@),
{
    let mut r = "Sanctions screening hit: ".to_owned();
    r.append(match_reason);
    r
}

/// The notification text for a flagged plan.
pub fn flag_notification(reason: &str) -> (r: String)
    ensures
        r@ == flag_notification_text(reason@),
{
    let mut r = "ALARM: Your account has been flagged for abnormal activity: ".to_owned();
    r.append(reason);
    r.append(". A compliance officer has been notified.");
    r
}

/// A plan is flagged again for `reason` unless its recorded flags already
/// hold that reason.
pub fn needs_flag(current_flags: Option<&str>, reason: &str) -> (r: bool)
    ensures
        r == !(current_flags matches Some(f) && contains_seq(f@, reason@)),
{
    match current_flags {
        Some(f) => !contains(f, reason),
        None => true,
    }
}

/// A candidate is screened for sanctions unless it has neither an email nor
/// a wallet.
pub fn should_screen_candidate(email: &str, wallet_address: Option<&str>) -> (r: bool)
    ensures
        r == !(email@.len() == 0 && wallet_address is None),
{
    !(email.is_empty() && wallet_address.is_none())
}

// ── Alert cooldown ─────────────────────────────────────────────────────────

/// What identifies an alert for the cooldown.
#[derive(Debug)]
pub struct AlertKey {
    pub entity_id: u128,
    pub rule_id: String,
    pub severity: String,
}

/// `a` identifies the alert `rule_id`/`severity` raised for `entity_id`.
pub open spec fn is_alert(a: AlertKey, entity_id: u128, rule_id: Seq<char>, severity: Seq<char>) -> bool {
    a.entity_id == entity_id && a.rule_id@ == rule_id && a.severity@ == severity
}

/// `a` and `b` identify the same alert.
pub open spec fn same_alert(a: AlertKey, b: AlertKey) -> bool {
    is_alert(a, b.entity_id, b.rule_id@, b.severity@)
}

/// A raised alert and when it was last raised.
pub type AlertEntry = (AlertKey, i64);

/// The test an entry passes to outlive `cutoff`.
pub open spec fn raised_after_pred(cutoff: int) -> spec_fn(AlertEntry) -> bool {
    |e: AlertEntry| e.1 > cutoff
}

/// The entries raised after `cutoff`.
pub open spec fn raised_after(h: Seq<AlertEntry>, cutoff: int) -> Seq<AlertEntry> {
    h.filter(raised_after_pred(cutoff))
}

/// `h` holds an entry for the alert `rule_id`/`severity` of `entity_id`.
pub open spec fn holds_alert(h: Seq<AlertEntry>, entity_id: u128, rule_id: Seq<char>, severity: Seq<
    char,
>) -> bool {
    exists|i: int| 0 <= i < h.len() && is_alert(#[trigger] h[i].0, entity_id, rule_id, severity)
}

/// No alert occurs twice in `h`.
pub open spec fn distinct_alerts(h: Seq<AlertEntry>) -> bool {
    forall|i: int, j: int|
        0 <= i < j < h.len() ==> !same_alert(#[trigger] h[i].0, #[trigger] h[j].0)
}

/// Raising alert `k` at `now` over the history `h`: the entries older than
/// the cooldown are dropped; the alert is raised unless one for `k` remains,
/// and a raised alert is remembered at `now`.
pub open spec fn record_alert(h: Seq<AlertEntry>, k: AlertKey, now: int) -> (bool, Seq<AlertEntry>) {
    let kept = raised_after(h, now - ALERT_COOLDOWN_MICROS);
    if holds_alert(kept, k.entity_id, k.rule_id@, k.severity@) {
        (false, kept)
    } else {
        (true, kept.push((k, now as i64)))
    }
}

/// The alerts raised within the cooldown, with when each was last raised.
pub struct AlertHistory {
    entries: Vec<AlertEntry>,
}

impl View for AlertHistory {
    type V = Seq<AlertEntry>;

    closed spec fn view(&self) -> Seq<AlertEntry> {
        self.entries@
    }
}

fn copy_key(k: &AlertKey) -> (r: AlertKey)
    ensures
        r == *k,
{
    AlertKey { entity_id: k.entity_id, rule_id: k.rule_id.clone(), severity: k.severity.clone() }
}

fn keys_match(a: &AlertKey, b: &AlertKey) -> (r: bool)
    ensures
        r == same_alert(*a, *b),
{
    a.entity_id == b.entity_id && str_eq(a.rule_id.as_str(), b.rule_id.as_str()) && str_eq(
        a.severity.as_str(),
        b.severity.as_str(),
    )
}

proof fn lemma_raised_after(h: Seq<AlertEntry>, cutoff: int)
    ensures
        distinct_alerts(h) ==> distinct_alerts(raised_after(h, cutoff)),
        forall|e: AlertEntry| #[trigger]
            raised_after(h, cutoff).contains(e) ==> h.contains(e) && e.1 > cutoff,
        forall|i: int|
            0 <= i < h.len() && h[i].1 > cutoff ==> #[trigger] raised_after(h, cutoff).contains(
                h[i],
            ),
    decreases h.len(),
{
    reveal(Seq::filter);
    let pred = raised_after_pred(cutoff);
    if h.len() > 0 {
        let init = h.drop_last();
        if distinct_alerts(h) {
            assert forall|i: int, j: int| 0 <= i < j < init.len() implies !same_alert(
                #[trigger] init[i].0,
                #[trigger] init[j].0,
            ) by {
                assert(init[i] == h[i] && init[j] == h[j]);
            }
        }
        lemma_raised_after(init, cutoff);
        let sub = raised_after(init, cutoff);
        assert(raised_after(h, cutoff) == (if pred(h.last()) {
            sub.push(h.last())
        } else {
            sub
        }));
        if pred(h.last()) {
            let r = sub.push(h.last());
            assert forall|e: AlertEntry| #[trigger] r.contains(e) implies h.contains(e) && e.1
                > cutoff by {
                if e != h.last() {
                    let k = choose|k: int| 0 <= k < r.len() && r[k] == e;
                    assert(sub.contains(e)) by {
                        assert(sub[k] == e);
                    }
                    let m = choose|m: int| 0 <= m < init.len() && init[m] == e;
                    assert(h[m] == e);
                } else {
                    assert(h[h.len() - 1] == e);
                }
            }
            if distinct_alerts(h) {
                assert forall|i: int, j: int| 0 <= i < j < r.len() implies !same_alert(
                    #[trigger] r[i].0,
                    #[trigger] r[j].0,
                ) by {
                    if j == r.len() - 1 {
                        assert(sub.contains(r[i])) by {
                            assert(sub[i] == r[i]);
                        }
                        let m = choose|m: int| 0 <= m < init.len() && init[m] == r[i];
                        assert(h[m] == r[i]);
                        assert(h[h.len() - 1] == r[j]);
                    } else {
                        assert(r[i] == sub[i] && r[j] == sub[j]);
                    }
                }
            }
            assert forall|i: int| 0 <= i < h.len() && h[i].1 > cutoff implies #[trigger] r.contains(
                h[i],
            ) by {
                if i == h.len() - 1 {
                    assert(r[r.len() - 1] == h[i]);
                } else {
                    assert(init[i] == h[i]);
                    assert(sub.contains(h[i]));
                    let k = choose|k: int| 0 <= k < sub.len() && sub[k] == h[i];
                    assert(r[k] == h[i]);
                }
            }
        } else {
            assert forall|e: AlertEntry| #[trigger] sub.contains(e) implies h.contains(e) && e.1
                > cutoff by {
                let m = choose|m: int| 0 <= m < init.len() && init[m] == e;
                assert(h[m] == e);
            }
            assert forall|i: int| 0 <= i < h.len() && h[i].1 > cutoff implies #[trigger] sub.contains(
                h[i],
            ) by {
                assert(i != h.len() - 1);
                assert(init[i] == h[i]);
            }
        }
    } else {
        assert(raised_after(h, cutoff) =~= h);
    }
}

impl AlertHistory {
    /// No alert is held twice.
    pub open spec fn wf(&self) -> bool {
        distinct_alerts(self@)
    }

    /// An empty history.
    pub fn new() -> (r: Self)
        ensures
            r@ == Seq::<AlertEntry>::empty(),
            r.wf(),
    {
        AlertHistory { entries: Vec::new() }
    }

    /// Raises alert `key` at `now` unless the same alert was raised within the
    /// cooldown; entries older than the cooldown are forgotten either way.
    /// Gives whether the alert is raised.
    pub fn try_record(&mut self, key: AlertKey, now: i64) -> (r: bool)
        requires
            old(self).wf(),
            now >= i64::MIN + ALERT_COOLDOWN_MICROS,
        ensures
            final(self).wf(),
            (r, final(self)@) == record_alert(old(self)@, key, now as int),
    {
        let cutoff = now - ALERT_COOLDOWN_MICROS;
        let ghost h = self.entries@;
        let ghost pred = raised_after_pred(cutoff as int);
        let mut kept: Vec<AlertEntry> = Vec::new();
        let n = self.entries.len();
        let mut i: usize = 0;
        while i < n
            invariant
                n == self.entries@.len(),
                h == self.entries@,
                i <= n,
                kept@ == h.take(i as int).filter(pred),
                pred == raised_after_pred(cutoff as int),
            decreases n - i,
        {
            let e = &self.entries[i];
            proof {
                assert(h.take(i + 1) =~= h.take(i as int).push(h[i as int]));
                h.take(i as int).lemma_filter_push(h[i as int], pred);
            }
            if e.1 > cutoff {
                kept.push((copy_key(&e.0), e.1));
            }
            i = i + 1;
        }
        assert(h.take(n as int) =~= h);
        proof {
            lemma_raised_after(h, cutoff as int);
        }
        let mut found = false;
        let mut j: usize = 0;
        while j < kept.len()
            invariant
                j <= kept@.len(),
                found == (exists|m: int|
                    0 <= m < j && is_alert(
                        #[trigger] kept@[m].0,
                        key.entity_id,
                        key.rule_id@,
                        key.severity@,
                    )),
            decreases kept@.len() - j,
        {
            if keys_match(&kept[j].0, &key) {
                found = true;
            }
            j = j + 1;
        }
        if found {
            self.entries = kept;
            false
        } else {
            let ghost before = kept@;
            kept.push((key, now));
            proof {
                assert forall|a: int, b: int| 0 <= a < b < kept@.len() implies !same_alert(
                    #[trigger] kept@[a].0,
                    #[trigger] kept@[b].0,
                ) by {
                    if b == kept@.len() - 1 {
                        assert(kept@[a] == before[a]);
                    } else {
                        assert(kept@[a] == before[a] && kept@[b] == before[b]);
                    }
                }
            }
            self.entries = kept;
            true
        }
    }
}

/// An alert raised at `t` is suppressed when raised again for the same
/// entity, rule and severity before the cooldown has passed.
pub proof fn lemma_duplicate_alert_suppressed(h: Seq<AlertEntry>, k: AlertKey, t: int, t2: int)
    requires
        distinct_alerts(h),
        record_alert(h, k, t).0,
        i64::MIN <= t <= i64::MAX,
        t2 < t + ALERT_COOLDOWN_MICROS,
    ensures
        !record_alert(record_alert(h, k, t).1, k, t2).0,
{
    let h1 = record_alert(h, k, t).1;
    let last = h1.len() - 1;
    assert(h1[last] == (k, t as i64));
    lemma_raised_after(h1, t2 - ALERT_COOLDOWN_MICROS);
    let kept = raised_after(h1, t2 - ALERT_COOLDOWN_MICROS);
    assert(kept.contains(h1[last]));
    let m = choose|m: int| 0 <= m < kept.len() && kept[m] == h1[last];
    assert(same_alert(kept[m].0, k));
}

/// An alert raised at `t` is raised again for the same entity, rule and
/// severity once the cooldown has passed.
pub proof fn lemma_alert_raised_after_cooldown(h: Seq<AlertEntry>, k: AlertKey, t: int, t2: int)
    requires
        distinct_alerts(h),
        record_alert(h, k, t).0,
        i64::MIN <= t <= i64::MAX,
        t2 >= t + ALERT_COOLDOWN_MICROS,
    ensures
        record_alert(record_alert(h, k, t).1, k, t2).0,
{
    let cutoff0 = t - ALERT_COOLDOWN_MICROS;
    let kept0 = raised_after(h, cutoff0);
    lemma_raised_after(h, cutoff0);
    let h1 = kept0.push((k, t as i64));
    let cutoff = t2 - ALERT_COOLDOWN_MICROS;
    lemma_raised_after(h1, cutoff);
    let kept = raised_after(h1, cutoff);
    if holds_alert(kept, k.entity_id, k.rule_id@, k.severity@) {
        let i = choose|i: int|
            0 <= i < kept.len() && is_alert(#[trigger] kept[i].0, k.entity_id, k.rule_id@, k.severity@);
        assert(kept.contains(kept[i]));
        assert(h1.contains(kept[i]));
        let m = choose|m: int| 0 <= m < h1.len() && h1[m] == kept[i];
        if m == h1.len() - 1 {
            assert(kept[i].1 == t);
        } else {
            assert(h1[m] == kept0[m]);
            assert(kept0.contains(kept0[m]));
            assert(same_alert(kept0[m].0, k));
        }
    }
}

/// Raising alert `rule_id`/`severity` of `entity_id` at `now` takes the
/// history from `before` to `after` and answers `raised`: the entries older
/// than the cooldown are dropped; the alert is raised exactly when none of
/// the remaining entries is the same alert, and a raised alert is appended
/// with the time `now`.
pub open spec fn alert_step(
    before: Seq<AlertEntry>,
    after: Seq<AlertEntry>,
    entity_id: u128,
    rule_id: Seq<char>,
    severity: Seq<char>,
    now: int,
    raised: bool,
) -> bool {
    let kept = raised_after(before, now - ALERT_COOLDOWN_MICROS);
    &&& raised == !holds_alert(kept, entity_id, rule_id, severity)
    &&& !raised ==> after == kept
    &&& raised ==> {
        &&& after.len() == kept.len() + 1
        &&& after.drop_last() == kept
        &&& is_alert(after.last().0, entity_id, rule_id, severity)
        &&& after.last().1 == now
    }
}

/// An alert raised at `t` is not raised again for the same entity, rule and
/// severity at any `t2` before the cooldown has passed, whatever else the
/// history holds.
pub proof fn lemma_alert_suppressed_within_cooldown(
    h0: Seq<AlertEntry>,
    h1: Seq<AlertEntry>,
    h2: Seq<AlertEntry>,
    entity_id: u128,
    rule_id: Seq<char>,
    severity: Seq<char>,
    t: int,
    t2: int,
    raised_again: bool,
)
    requires
        alert_step(h0, h1, entity_id, rule_id, severity, t, true),
        alert_step(h1, h2, entity_id, rule_id, severity, t2, raised_again),
        t2 < t + ALERT_COOLDOWN_MICROS,
    ensures
        !raised_again,
{
    let last = h1.len() - 1;
    assert(h1[last] == h1.last());
    lemma_raised_after(h1, t2 - ALERT_COOLDOWN_MICROS);
    let kept = raised_after(h1, t2 - ALERT_COOLDOWN_MICROS);
    assert(kept.contains(h1[last]));
    let m = choose|m: int| 0 <= m < kept.len() && kept[m] == h1[last];
    assert(is_alert(kept[m].0, entity_id, rule_id, severity));
}

/// An alert raised at `t` is raised again for the same entity, rule and
/// severity at any `t2` once the cooldown has passed.
pub proof fn lemma_alert_raised_again_after_cooldown(
    h0: Seq<AlertEntry>,
    h1: Seq<AlertEntry>,
    h2: Seq<AlertEntry>,
    entity_id: u128,
    rule_id: Seq<char>,
    severity: Seq<char>,
    t: int,
    t2: int,
    raised_again: bool,
)
    requires
        alert_step(h0, h1, entity_id, rule_id, severity, t, true),
        alert_step(h1, h2, entity_id, rule_id, severity, t2, raised_again),
        t2 >= t + ALERT_COOLDOWN_MICROS,
    ensures
        raised_again,
{
    let kept0 = raised_after(h0, t - ALERT_COOLDOWN_MICROS);
    let cutoff = t2 - ALERT_COOLDOWN_MICROS;
    lemma_raised_after(h1, cutoff);
    let kept = raised_after(h1, cutoff);
    if holds_alert(kept, entity_id, rule_id, severity) {
        let i = choose|i: int|
            0 <= i < kept.len() && is_alert(#[trigger] kept[i].0, entity_id, rule_id, severity);
        assert(kept.contains(kept[i]));
        assert(h1.contains(kept[i]));
        let m = choose|m: int| 0 <= m < h1.len() && h1[m] == kept[i];
        if m == h1.len() - 1 {
            assert(kept[i].1 == t);
        } else {
            assert(h1[m] == h1.drop_last()[m]);
            assert(kept0[m] == kept[i]);
            assert(is_alert(kept0[m].0, entity_id, rule_id, severity));
        }
    }
}

// ── The engine's rules ─────────────────────────────────────────────────────

/// Thresholds of the compliance rules and the alert cooldown state.
pub struct ComplianceEngine {
    pub velocity_threshold: usize,
    pub velocity_window_mins: i64,
    pub volume_threshold: Dec,
    pub alert_history: AlertHistory,
}

impl ComplianceEngine {
    /// The thresholds are valid and the cooldown state is well formed.
    pub open spec fn wf(&self) -> bool {
        self.volume_threshold.wf() && self.alert_history.wf()
    }

    /// An engine with the given thresholds and no alert raised yet.
    pub fn new(velocity_threshold: usize, velocity_window_mins: i64, volume_threshold: Dec) -> (r:
        Self)
        requires
            volume_threshold.wf(),
        ensures
            r.wf(),
            r.velocity_threshold == velocity_threshold,
            r.velocity_window_mins == velocity_window_mins,
            r.volume_threshold == volume_threshold,
            r.alert_history@ == Seq::<AlertEntry>::empty(),
    {
        ComplianceEngine {
            velocity_threshold,
            velocity_window_mins,
            volume_threshold,
            alert_history: AlertHistory::new(),
        }
    }

    /// The velocity rule: with `recent_count` borrow and repay events already
    /// recorded in the window, the new event makes `recent_count + 1`; at or
    /// above the threshold that count is a violation.
    pub fn velocity_violation(&self, recent_count: i64) -> (r: Option<i64>)
        requires
            recent_count < i64::MAX,
        ensures
            r is Some <==> recent_count + 1 >= (self.velocity_threshold as i64),
            r matches Some(c) ==> c == recent_count + 1,
    {
        let event_count = recent_count + 1;
        if event_count >= self.velocity_threshold as i64 {
            Some(event_count)
        } else {
            None
        }
    }

    /// The volume rule: a borrow of at least the threshold is a violation.
    pub fn is_abnormal_volume(&self, amount: &Dec) -> (r: bool)
        requires
            self.wf(),
            amount.wf(),
        ensures
            r == dec_le_spec(self.volume_threshold, *amount),
    {
        dec_le(&self.volume_threshold, amount)
    }

    /// The dormancy rule's first condition: the plan was created at least
    /// thirty days before `now`. Younger plans are not checked.
    pub fn plan_old_enough(plan_created_at: i64, now: i64) -> (r: bool)
        requires
            now >= i64::MIN + DORMANCY_WINDOW_MICROS,
        ensures
            r == (plan_created_at <= now - DORMANCY_WINDOW_MICROS),
    {
        !(plan_created_at > now - DORMANCY_WINDOW_MICROS)
    }

    /// Raises alert `rule_id`/`severity` for `entity_id` at `now` unless the
    /// same alert was raised within the cooldown. Gives whether it is raised.
    pub fn try_emit_violation_alert(
        &mut self,
        entity_id: u128,
        rule_id: &str,
        severity: &str,
        now: i64,
    ) -> (r: bool)
        requires
            old(self).wf(),
            now >= i64::MIN + ALERT_COOLDOWN_MICROS,
        ensures
            final(self).wf(),
            final(self).velocity_threshold == old(self).velocity_threshold,
            final(self).velocity_window_mins == old(self).velocity_window_mins,
            final(self).volume_threshold == old(self).volume_threshold,
            alert_step(
                old(self).alert_history@,
                final(self).alert_history@,
                entity_id,
                rule_id@,
                severity@,
                now as int,
                r,
            ),
    {
        let key = AlertKey {
            entity_id,
            rule_id: rule_id.to_owned(),
            severity: severity.to_owned(),
        };
        let ghost k = key;
        let r = self.alert_history.try_record(key, now);
        assert(is_alert(k, entity_id, rule_id@, severity@));
        proof {
            if r {
                let kept = raised_after(old(self).alert_history@, now - ALERT_COOLDOWN_MICROS);
                assert(self.alert_history@ == kept.push((k, now)));
                assert(self.alert_history@.drop_last() =~= kept);
            }
            assert(alert_step(
                old(self).alert_history@,
                self.alert_history@,
                entity_id,
                rule_id@,
                severity@,
                now as int,
                r,
            ));
        }
        r
    }
}

} // verus!
