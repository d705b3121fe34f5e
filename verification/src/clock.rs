//! The controller clock: readings, the durable fence, and the checkpoint that
//! every operation passes.

use crate::error::{DatabaseFault, StoreError};
use crate::ids::new_hex_id;
use crate::json::{json_fields, json_object, object_text, JsonScalar, JsonScalarView};
use crate::limits::{clamped, saturated_difference, saturated_sum};
use crate::records::ClockReconciliation;
use crate::relation::{
    any, any_row, copy_option, count, option_view, remove_rows, update_rows, updated, without,
    Duplicate,
};
use crate::store::{Store, StoreView};
use crate::tables::{
    ApprovalRow, ApprovalRowView, AuditRow, AuditRowView, SessionRow, SessionRowView,
};
use crate::text::{
    append_decimal, append_digits, copy_optional, decimal, digits, optional_text, same,
    same_optional,
};
use vstd::prelude::*;

verus! {

/// The recorded high-water mark of the clock advances at most this often.
pub const CLOCK_ADVANCE_INTERVAL_MS: i64 = 1_000;

/// How a running clock moved since the last monitor sample.
#[derive(Debug, Clone, Copy, PartialEq, Eq, Structural)]
pub struct RunningClockCheck {
    pub database_regressed: bool,
    pub host_regressed: bool,
    pub database_advanced: bool,
    pub host_advanced: bool,
}

/// How the clocks at startup stand to the recorded ones.
#[derive(Debug, Clone, Copy, PartialEq, Eq, Structural)]
pub enum StartupClockCheck {
    SameBoot,
    BootChangedOrUnknown,
    DatabaseRegressed,
    HostRegressed,
    BothRegressed,
}

/// Both clocks when they were last compared, and the monotonic clock then.
#[derive(Debug, Clone, Copy, PartialEq, Eq, Structural)]
pub struct ClockMonitorSample {
    pub database_ms: i64,
    pub host_wall_ms: i64,
    pub measured_at_ms: u64,
}

/// A reading of the host clock.
#[derive(Debug, PartialEq, Eq)]
pub struct ClockSample {
    pub boot_id: Option<String>,
    pub boottime_ms: i64,
    pub host_wall_ms: i64,
}

/// What a `ClockSample` stands for.
#[verifier::ext_equal]
pub struct ClockSampleView {
    pub boot_id: Option<Seq<char>>,
    pub boottime_ms: i64,
    pub host_wall_ms: i64,
}

impl View for ClockSample {
    type V = ClockSampleView;

    open spec fn view(&self) -> ClockSampleView {
        ClockSampleView {
            boot_id: optional_text(self.boot_id),
            boottime_ms: self.boottime_ms,
            host_wall_ms: self.host_wall_ms,
        }
    }
}

impl Duplicate for ClockSample {
    fn duplicate(&self) -> (copy: ClockSample) {
        ClockSample {
            boot_id: copy_optional(&self.boot_id),
            boottime_ms: self.boottime_ms,
            host_wall_ms: self.host_wall_ms,
        }
    }
}

impl Clone for ClockSample {
    fn clone(&self) -> (copy: ClockSample)
        ensures
            copy@ == self@,
    {
        self.duplicate()
    }
}

/// The one clock row of a controller: the highest database time that was seen,
/// the host clock at that moment, and the fence.
#[derive(Debug, PartialEq, Eq)]
pub struct PersistedClockAnchor {
    pub last_observed_ms: i64,
    pub boot_id: Option<String>,
    pub boottime_ms: Option<i64>,
    pub host_wall_ms: Option<i64>,
    pub fenced_at: Option<i64>,
}

/// What a `PersistedClockAnchor` stands for.
#[verifier::ext_equal]
pub struct PersistedClockAnchorView {
    pub last_observed_ms: i64,
    pub boot_id: Option<Seq<char>>,
    pub boottime_ms: Option<i64>,
    pub host_wall_ms: Option<i64>,
    pub fenced_at: Option<i64>,
}

impl View for PersistedClockAnchor {
    type V = PersistedClockAnchorView;

    open spec fn view(&self) -> PersistedClockAnchorView {
        PersistedClockAnchorView {
            last_observed_ms: self.last_observed_ms,
            boot_id: optional_text(self.boot_id),
            boottime_ms: self.boottime_ms,
            host_wall_ms: self.host_wall_ms,
            fenced_at: self.fenced_at,
        }
    }
}

impl Duplicate for PersistedClockAnchor {
    fn duplicate(&self) -> (copy: PersistedClockAnchor) {
        PersistedClockAnchor {
            last_observed_ms: self.last_observed_ms,
            boot_id: copy_optional(&self.boot_id),
            boottime_ms: self.boottime_ms,
            host_wall_ms: self.host_wall_ms,
            fenced_at: self.fenced_at,
        }
    }
}

impl Clone for PersistedClockAnchor {
    fn clone(&self) -> (copy: PersistedClockAnchor)
        ensures
            copy@ == self@,
    {
        self.duplicate()
    }
}

/// A moment as both clocks had it.
#[derive(Debug, PartialEq, Eq)]
pub struct ClockAnchor {
    pub boot_id: Option<String>,
    pub boottime_ms: i64,
    pub database_ms: i64,
    pub host_wall_ms: i64,
}

/// What a `ClockAnchor` stands for.
#[verifier::ext_equal]
pub struct ClockAnchorView {
    pub boot_id: Option<Seq<char>>,
    pub boottime_ms: i64,
    pub database_ms: i64,
    pub host_wall_ms: i64,
}

impl View for ClockAnchor {
    type V = ClockAnchorView;

    open spec fn view(&self) -> ClockAnchorView {
        ClockAnchorView {
            boot_id: optional_text(self.boot_id),
            boottime_ms: self.boottime_ms,
            database_ms: self.database_ms,
            host_wall_ms: self.host_wall_ms,
        }
    }
}

impl Duplicate for ClockAnchor {
    fn duplicate(&self) -> (copy: ClockAnchor) {
        ClockAnchor {
            boot_id: copy_optional(&self.boot_id),
            boottime_ms: self.boottime_ms,
            database_ms: self.database_ms,
            host_wall_ms: self.host_wall_ms,
        }
    }
}

impl Clone for ClockAnchor {
    fn clone(&self) -> (copy: ClockAnchor)
        ensures
            copy@ == self@,
    {
        self.duplicate()
    }
}

/// What one operation reads of the clocks.
#[derive(Debug, PartialEq, Eq)]
pub struct ClockReading {
    /// The database clock when the checkpoint reads it.
    pub checkpoint_ms: i64,
    /// The host clock at the checkpoint, absent where it cannot be read.
    pub sample: Option<ClockSample>,
    /// How both clocks moved since the last monitor sample.
    pub check: RunningClockCheck,
    /// A monotonic clock at the checkpoint.
    pub monotonic_ms: u64,
    /// The database clock when the operation reads it.
    pub now_ms: i64,
    /// The database clock when the operation reads it once more.
    pub later_ms: i64,
    /// The identifier of the audit event that a fence appends.
    pub audit_id: String,
}

/// What a `ClockReading` stands for.
#[verifier::ext_equal]
pub struct ClockReadingView {
    pub checkpoint_ms: i64,
    pub sample: Option<ClockSampleView>,
    pub check: RunningClockCheck,
    pub monotonic_ms: u64,
    pub now_ms: i64,
    pub later_ms: i64,
    pub audit_id: Seq<char>,
}

impl View for ClockReading {
    type V = ClockReadingView;

    open spec fn view(&self) -> ClockReadingView {
        ClockReadingView {
            checkpoint_ms: self.checkpoint_ms,
            sample: option_view(self.sample),
            check: self.check,
            monotonic_ms: self.monotonic_ms,
            now_ms: self.now_ms,
            later_ms: self.later_ms,
            audit_id: self.audit_id@,
        }
    }
}

impl Duplicate for ClockReading {
    fn duplicate(&self) -> (copy: ClockReading) {
        ClockReading {
            checkpoint_ms: self.checkpoint_ms,
            sample: copy_option(&self.sample),
            check: self.check,
            monotonic_ms: self.monotonic_ms,
            now_ms: self.now_ms,
            later_ms: self.later_ms,
            audit_id: self.audit_id.clone(),
        }
    }
}

impl Clone for ClockReading {
    fn clone(&self) -> (copy: ClockReading)
        ensures
            copy@ == self@,
    {
        self.duplicate()
    }
}

impl ClockReading {
    /// A reading for one operation, with a fresh identifier for the audit event
    /// that a fence would append.
    pub fn take(
        checkpoint_ms: i64,
        sample: Option<ClockSample>,
        check: RunningClockCheck,
        monotonic_ms: u64,
        now_ms: i64,
        later_ms: i64,
    ) -> (reading: ClockReading)
        ensures
            crate::ids::is_hex_id(reading@.audit_id),
            reading@ == (ClockReadingView {
                checkpoint_ms,
                sample: option_view(sample),
                check,
                monotonic_ms,
                now_ms,
                later_ms,
                audit_id: reading@.audit_id,
            }),
    {
        ClockReading {
            checkpoint_ms,
            sample,
            check,
            monotonic_ms,
            now_ms,
            later_ms,
            audit_id: new_hex_id(),
        }
    }
}

/// The milliseconds between two monotonic readings, as far as a column holds
/// them.
pub fn elapsed_ms(previous_ms: u64, current_ms: u64) -> (elapsed: i64)
    ensures
        elapsed == if current_ms <= previous_ms {
            0
        } else {
            clamped(current_ms - previous_ms)
        },
{
    if current_ms <= previous_ms {
        0
    } else {
        let elapsed: u64 = current_ms - previous_ms;
        if elapsed <= i64::MAX as u64 {
            elapsed as i64
        } else {
            i64::MAX
        }
    }
}

/// The approvals that a fence deletes.
pub open spec fn pending_approval() -> spec_fn(ApprovalRowView) -> bool {
    |row: ApprovalRowView| row.status == "pending"@
}

/// The approvals that a reconciliation deletes.
pub open spec fn unsettled_approval() -> spec_fn(ApprovalRowView) -> bool {
    |row: ApprovalRowView| row.status == "pending"@ || row.status == "approved"@
}

/// The sessions that are not revoked.
pub open spec fn open_session() -> spec_fn(SessionRowView) -> bool {
    |row: SessionRowView| row.revoked_at_ms is None
}

/// A session, revoked at a moment.
pub open spec fn session_revoked_at(at_ms: Option<i64>) -> spec_fn(SessionRowView) -> SessionRowView {
    |row: SessionRowView| SessionRowView { revoked_at_ms: at_ms, ..row }
}

/// The audit events with an identifier.
pub open spec fn audit_event_with(id: Seq<char>) -> spec_fn(AuditRowView) -> bool {
    |row: AuditRowView| row.id == id
}

/// The audit event of a system action on the controller.
pub open spec fn system_event(
    id: Seq<char>,
    tenant_id: Seq<char>,
    action: Seq<char>,
    metadata_json: Seq<char>,
    created_at_ms: i64,
) -> AuditRowView {
    AuditRowView {
        id,
        tenant_id,
        actor_type: "system"@,
        actor_id: None,
        action,
        target_type: "controller"@,
        target_id: None,
        metadata_json,
        created_at_ms,
    }
}

/// A reconciliation summary as JSON: one object without white space, whose fields
/// stand in the order of the record.
pub open spec fn summary_json(summary: ClockReconciliation) -> Seq<char> {
    "{\"regression_detected\":"@ + (if summary.regression_detected {
        "true"@
    } else {
        "false"@
    })
        + ",\"persisted_ms\":"@ + decimal(summary.persisted_ms)
        + ",\"database_now_ms\":"@ + decimal(summary.database_now_ms)
        + ",\"removed_secret_requests\":"@ + digits(summary.removed_secret_requests as nat)
        + ",\"removed_exchanges\":"@ + digits(summary.removed_exchanges as nat)
        + ",\"removed_approvals\":"@ + digits(summary.removed_approvals as nat)
        + ",\"removed_bootstrap_tokens\":"@ + digits(summary.removed_bootstrap_tokens as nat)
        + ",\"removed_rate_windows\":"@ + digits(summary.removed_rate_windows as nat)
        + ",\"removed_idempotency_keys\":"@ + digits(summary.removed_idempotency_keys as nat)
        + ",\"revoked_sessions\":"@ + digits(summary.revoked_sessions as nat)
        + "}"@
}

impl StoreView {
    /// The time that an operation reads at a database wall clock reading:
    /// nothing while the wall clock is behind the recorded high-water mark.
    pub open spec fn now(self, wall_ms: i64) -> Option<i64> {
        if wall_ms >= self.clock.last_observed_ms {
            Some(wall_ms)
        } else {
            None
        }
    }

    /// The state with the fence set, unless it was set before.
    pub open spec fn fenced(self, at_ms: i64) -> StoreView {
        if self.clock.fenced_at is Some {
            self
        } else {
            StoreView {
                clock: PersistedClockAnchorView { fenced_at: Some(at_ms), ..self.clock },
                ..self
            }
        }
    }

    /// The state with the clock row moved to a sample.
    pub open spec fn anchored(self, sample: ClockSampleView, database_ms: i64) -> StoreView {
        StoreView {
            clock: PersistedClockAnchorView {
                last_observed_ms: database_ms,
                boot_id: sample.boot_id,
                boottime_ms: Some(sample.boottime_ms),
                host_wall_ms: Some(sample.host_wall_ms),
                ..self.clock
            },
            ..self
        }
    }

    /// The state with a new monitor sample.
    pub open spec fn monitored(
        self,
        database_ms: i64,
        host_wall_ms: i64,
        measured_at_ms: u64,
    ) -> StoreView {
        StoreView {
            clock_monitor: Some(ClockMonitorSample { database_ms, host_wall_ms, measured_at_ms }),
            ..self
        }
    }

    /// The counts that the audit event of a restart fence records.
    pub open spec fn fence_counts(self) -> Seq<(Seq<char>, JsonScalarView)> {
        seq![
            (
                "removed_secret_requests"@,
                JsonScalarView::Count(self.secret_requests.len() as u64),
            ),
            ("removed_exchanges"@, JsonScalarView::Count(self.exchanges.len() as u64)),
            (
                "removed_pending_approvals"@,
                JsonScalarView::Count(count(self.approvals, pending_approval()) as u64),
            ),
            (
                "removed_bootstrap_tokens"@,
                JsonScalarView::Count(self.bootstrap_tokens.len() as u64),
            ),
            ("removed_rate_windows"@, JsonScalarView::Count(self.rate_windows.len() as u64)),
            (
                "removed_idempotency_keys"@,
                JsonScalarView::Count(self.idempotency_keys.len() as u64),
            ),
        ]
    }

    /// The state without the records whose deadlines cannot be trusted once the
    /// clock was interrupted, with the approvals that `stale` picks.
    pub open spec fn purged(self, stale: spec_fn(ApprovalRowView) -> bool) -> StoreView {
        StoreView {
            secret_requests: Seq::empty(),
            exchanges: Seq::empty(),
            approvals: without(self.approvals, stale),
            bootstrap_tokens: Seq::empty(),
            rate_windows: Seq::empty(),
            idempotency_keys: Seq::empty(),
            ..self
        }
    }

    /// The state with one more audit event.
    pub open spec fn audited(self, event: AuditRowView) -> StoreView {
        StoreView { audit_events: self.audit_events.push(event), ..self }
    }

    /// The state after the host was seen to have restarted: the fence is set,
    /// what depends on deadlines is gone, and one audit event has the counts.
    pub open spec fn fence_after_restart(
        self,
        sample: ClockSampleView,
        database_ms: i64,
        audit_id: Seq<char>,
    ) -> Result<StoreView, StoreError> {
        if self.clock.fenced_at is Some {
            Ok(self)
        } else if any(self.audit_events, audit_event_with(audit_id)) {
            Err(StoreError::Database(DatabaseFault::DuplicateKey))
        } else {
            Ok(
                self.fenced(database_ms).anchored(sample, database_ms).purged(
                    pending_approval(),
                ).audited(
                    system_event(
                        audit_id,
                        self.tenant_id,
                        "clock_restart_fence"@,
                        json_object(self.fence_counts()),
                        database_ms,
                    ),
                ),
            )
        }
    }

    /// Whether a sample comes from another boot than the recorded one, or from
    /// one that cannot be told.
    pub open spec fn boot_changed(self, sample: ClockSampleView) -> bool {
        self.clock.boot_id != sample.boot_id || sample.boot_id is None
    }

    /// Whether the checkpoint sees the database clock behind the recorded
    /// high-water mark by more than the tolerance.
    pub open spec fn behind(self, database_ms: i64) -> bool {
        clamped(database_ms + self.clock_tolerance_ms) < self.clock.last_observed_ms
    }

    /// Whether a checkpoint moves the recorded high-water mark.
    pub open spec fn anchor_due(self, database_ms: i64) -> bool {
        database_ms < self.clock.last_observed_ms || clamped(
            database_ms - self.clock.last_observed_ms,
        ) >= CLOCK_ADVANCE_INTERVAL_MS
    }

    /// The checkpoint that every operation passes first, and what it does to the
    /// state. A fenced clock, an unreadable or a restarted host, and a regressed
    /// clock refuse the operation.
    pub open spec fn checkpoint_clock(self, c: ClockReadingView) -> (
        StoreView,
        Result<(), StoreError>,
    ) {
        if self.clock.fenced_at is Some {
            (self, Err(StoreError::ClockFenced))
        } else {
            match c.sample {
                None => (self.fenced(c.checkpoint_ms), Err(StoreError::ClockFenced)),
                Some(sample) => if self.boot_changed(sample) {
                    match self.fence_after_restart(sample, c.checkpoint_ms, c.audit_id) {
                        Ok(after) => (after, Err(StoreError::ClockFenced)),
                        Err(error) => (self, Err(error)),
                    }
                } else if self.clock_monitor is None {
                    (self, Err(StoreError::ClockFenced))
                } else if c.check.database_regressed || c.check.host_regressed || self.behind(
                    c.checkpoint_ms,
                ) {
                    (self.fenced(c.checkpoint_ms), Err(StoreError::ClockRegression))
                } else {
                    let moved = if self.anchor_due(c.checkpoint_ms) {
                        self.anchored(sample, c.checkpoint_ms)
                    } else {
                        self
                    };
                    (
                        moved.monitored(c.checkpoint_ms, sample.host_wall_ms, c.monotonic_ms),
                        Ok(()),
                    )
                },
            }
        }
    }

    /// What the one-second monitor does with a reading.
    pub open spec fn monitor_clock(self, c: ClockReadingView) -> (
        StoreView,
        Result<(), StoreError>,
    ) {
        match c.sample {
            None => (self.fenced(c.checkpoint_ms), Err(StoreError::ClockFenced)),
            Some(sample) => if self.clock.fenced_at is Some {
                (self, Err(StoreError::ClockFenced))
            } else if self.boot_changed(sample) {
                match self.fence_after_restart(sample, c.checkpoint_ms, c.audit_id) {
                    Ok(after) => (after, Err(StoreError::ClockFenced)),
                    Err(error) => (self, Err(error)),
                }
            } else if self.clock_monitor is None {
                (self, Err(StoreError::ClockFenced))
            } else if c.check.database_regressed || c.check.host_regressed {
                (self.fenced(c.checkpoint_ms), Err(StoreError::ClockFenced))
            } else {
                (
                    self.anchored(sample, c.checkpoint_ms).monitored(
                        c.checkpoint_ms,
                        sample.host_wall_ms,
                        c.monotonic_ms,
                    ),
                    Ok(()),
                )
            },
        }
    }

    /// Read the database clock.
    pub open spec fn database_now_ms(self, c: ClockReadingView) -> (
        StoreView,
        Result<i64, StoreError>,
    ) {
        let (s, gate) = self.checkpoint_clock(c);
        match gate {
            Err(error) => (s, Err(error)),
            Ok(()) => (s, Ok(c.now_ms)),
        }
    }

    /// Tell whether the store serves, by a probe of the database.
    pub open spec fn is_ready(self, c: ClockReadingView, probe: Option<i32>) -> (StoreView, bool) {
        let (s, gate) = self.checkpoint_clock(c);
        (s, gate is Ok && probe == Some(1i32))
    }

    /// Read the signing recovery epoch.
    pub open spec fn issuer_epoch(self, c: ClockReadingView) -> (
        StoreView,
        Result<u64, StoreError>,
    ) {
        let (s, gate) = self.checkpoint_clock(c);
        match gate {
            Err(error) => (s, Err(error)),
            Ok(()) => if s.meta.issuer_epoch >= 0 {
                (s, Ok(s.meta.issuer_epoch as u64))
            } else {
                (s, Err(StoreError::MissingState("issuer epoch")))
            },
        }
    }

    /// What opening a store does to the clock.
    pub open spec fn initialize_clock(
        self,
        sample: ClockSampleView,
        check: StartupClockCheck,
        database_ms: i64,
        monotonic_ms: u64,
        audit_id: Seq<char>,
    ) -> (StoreView, Result<(), StoreError>) {
        if self.clock.fenced_at is Some {
            (self.monitored(database_ms, sample.host_wall_ms, monotonic_ms), Ok(()))
        } else {
            match check {
                StartupClockCheck::SameBoot => (
                    self.anchored(sample, database_ms).monitored(
                        database_ms,
                        sample.host_wall_ms,
                        monotonic_ms,
                    ),
                    Ok(()),
                ),
                StartupClockCheck::BootChangedOrUnknown => match self.fence_after_restart(
                    sample,
                    database_ms,
                    audit_id,
                ) {
                    Ok(after) => (
                        after.monitored(database_ms, sample.host_wall_ms, monotonic_ms),
                        Ok(()),
                    ),
                    Err(error) => (self, Err(error)),
                },
                _ => (self.fenced(database_ms), Err(StoreError::ClockRegression)),
            }
        }
    }

    /// What a reconciliation at a database clock reading finds and does.
    pub open spec fn reconciliation(self, database_ms: i64) -> ClockReconciliation {
        let found = database_ms < self.clock.last_observed_ms || self.clock.fenced_at is Some;
        ClockReconciliation {
            regression_detected: found,
            persisted_ms: self.clock.last_observed_ms,
            database_now_ms: database_ms,
            removed_secret_requests: if found { self.secret_requests.len() as u64 } else { 0 },
            removed_exchanges: if found { self.exchanges.len() as u64 } else { 0 },
            removed_approvals: if found {
                count(self.approvals, unsettled_approval()) as u64
            } else {
                0
            },
            removed_bootstrap_tokens: if found { self.bootstrap_tokens.len() as u64 } else { 0 },
            removed_rate_windows: if found { self.rate_windows.len() as u64 } else { 0 },
            removed_idempotency_keys: if found { self.idempotency_keys.len() as u64 } else { 0 },
            revoked_sessions: if found {
                count(self.operator_sessions, open_session()) as u64
            } else {
                0
            },
        }
    }

    /// The state after a reconciliation that found a regression.
    pub open spec fn reconciled(
        self,
        sample: ClockSampleView,
        database_ms: i64,
        audit_id: Seq<char>,
    ) -> StoreView {
        let purged = self.purged(unsettled_approval()).anchored(sample, database_ms);
        StoreView {
            operator_sessions: updated(
                self.operator_sessions,
                open_session(),
                session_revoked_at(Some(database_ms)),
            ),
            clock: PersistedClockAnchorView { fenced_at: None, ..purged.clock },
            ..purged
        }.audited(
            system_event(
                audit_id,
                self.meta.tenant_id,
                "clock_reconciled"@,
                summary_json(self.reconciliation(database_ms)),
                database_ms,
            ),
        )
    }

    /// What a reconciliation does to the state and reports.
    pub open spec fn recover_clock(
        self,
        sample: Option<ClockSampleView>,
        database_ms: i64,
        audit_id: Seq<char>,
    ) -> (StoreView, Result<ClockReconciliation, StoreError>) {
        match sample {
            Some(host) if host.boot_id is Some => {
                let summary = self.reconciliation(database_ms);
                if !summary.regression_detected {
                    (self, Ok(summary))
                } else if any(self.audit_events, audit_event_with(audit_id)) {
                    (self, Err(StoreError::Database(DatabaseFault::DuplicateKey)))
                } else {
                    (self.reconciled(host, database_ms, audit_id), Ok(summary))
                }
            },
            _ => (self, Err(StoreError::ClockSourceUnavailable)),
        }
    }
}

/// Write a reconciliation summary as JSON.
pub fn summary_text(summary: &ClockReconciliation) -> (text: String)
    ensures
        text@ == summary_json(*summary),
{
    let mut text = "{\"regression_detected\":".to_owned();
    if summary.regression_detected {
        text.append("true");
    } else {
        text.append("false");
    }
    text.append(",\"persisted_ms\":");
    append_decimal(&mut text, summary.persisted_ms);
    text.append(",\"database_now_ms\":");
    append_decimal(&mut text, summary.database_now_ms);
    text.append(",\"removed_secret_requests\":");
    append_digits(&mut text, summary.removed_secret_requests);
    text.append(",\"removed_exchanges\":");
    append_digits(&mut text, summary.removed_exchanges);
    text.append(",\"removed_approvals\":");
    append_digits(&mut text, summary.removed_approvals);
    text.append(",\"removed_bootstrap_tokens\":");
    append_digits(&mut text, summary.removed_bootstrap_tokens);
    text.append(",\"removed_rate_windows\":");
    append_digits(&mut text, summary.removed_rate_windows);
    text.append(",\"removed_idempotency_keys\":");
    append_digits(&mut text, summary.removed_idempotency_keys);
    text.append(",\"revoked_sessions\":");
    append_digits(&mut text, summary.revoked_sessions);
    text.append("}");
    text
}

/// A table without rows.
fn cleared<R: View>(rows: &mut Vec<R>)
    ensures
        crate::relation::rows_view(final(rows)@) == Seq::<R::V>::empty(),
{
    rows.clear();
    proof {
        assert(crate::relation::rows_view(rows@) =~= Seq::<R::V>::empty());
    }
}

impl Store {
    /// The time that the operation reads.
    pub fn now(&self, wall_ms: i64) -> (now: Option<i64>)
        ensures
            now == self@.now(wall_ms),
    {
        if wall_ms >= self.clock.last_observed_ms {
            Some(wall_ms)
        } else {
            None
        }
    }

    /// Set the fence, unless it is set.
    pub fn persist_clock_fence(&mut self, at_ms: i64)
        ensures
            final(self)@ == old(self)@.fenced(at_ms),
    {
        if self.clock.fenced_at.is_none() {
            self.clock.fenced_at = Some(at_ms);
        }
    }

    fn move_anchor(&mut self, sample: &ClockSample, database_ms: i64)
        ensures
            final(self)@ == old(self)@.anchored(sample@, database_ms),
    {
        self.clock.last_observed_ms = database_ms;
        self.clock.boot_id = copy_optional(&sample.boot_id);
        self.clock.boottime_ms = Some(sample.boottime_ms);
        self.clock.host_wall_ms = Some(sample.host_wall_ms);
    }

    fn set_monitor_sample(&mut self, database_ms: i64, host_wall_ms: i64, measured_at_ms: u64)
        ensures
            final(self)@ == old(self)@.monitored(database_ms, host_wall_ms, measured_at_ms),
    {
        self.clock_monitor = Some(ClockMonitorSample { database_ms, host_wall_ms, measured_at_ms });
    }

    pub(crate) fn audit_id_taken(&self, audit_id: &str) -> (taken: bool)
        ensures
            taken == any(self@.audit_events, audit_event_with(audit_id@)),
    {
        any_row(
            &self.audit_events,
            |row: &AuditRow| -> (b: bool)
                ensures
                    b == audit_event_with(audit_id@)(row@)
                { same(&row.id, audit_id) },
            Ghost(audit_event_with(audit_id@)),
        )
    }

    /// Append the audit event of a system action on the controller.
    fn push_system_event(
        &mut self,
        audit_id: &str,
        tenant_id: String,
        action: &str,
        metadata_json: String,
        created_at_ms: i64,
    )
        ensures
            final(self)@ == old(self)@.audited(
                system_event(audit_id@, tenant_id@, action@, metadata_json@, created_at_ms),
            ),
    {
        let ghost before = self@.audit_events;
        let event = AuditRow {
            id: audit_id.to_owned(),
            tenant_id,
            actor_type: "system".to_owned(),
            actor_id: None,
            action: action.to_owned(),
            target_type: "controller".to_owned(),
            target_id: None,
            metadata_json,
            created_at_ms,
        };
        let ghost pushed = event@;
        self.audit_events.push(event);
        proof {
            assert(self@.audit_events =~= before.push(pushed));
        }
    }

    /// Fence the clock after the host restarted and drop what depends on
    /// deadlines, with one audit event that has the counts.
    pub fn fence_after_restart(
        &mut self,
        sample: &ClockSample,
        database_ms: i64,
        audit_id: &str,
    ) -> (reply: Result<(), StoreError>)
        ensures
            match old(self)@.fence_after_restart(sample@, database_ms, audit_id@) {
                Ok(after) => reply is Ok && final(self)@ == after,
                Err(error) => reply == Err::<(), StoreError>(error) && final(self)@ == old(self)@,
            },
    {
        if self.clock.fenced_at.is_some() {
            return Ok(());
        }
        let pending: usize = crate::relation::count_rows(
            &self.approvals,
            |row: &ApprovalRow| -> (b: bool)
                ensures
                    b == pending_approval()(row@)
                { same(&row.status, "pending") },
            Ghost(pending_approval()),
        );
        let mut fields: Vec<(String, JsonScalar)> = Vec::new();
        fields.push(
            (
                "removed_secret_requests".to_owned(),
                JsonScalar::Count(self.secret_requests.len() as u64),
            ),
        );
        fields.push(
            ("removed_exchanges".to_owned(), JsonScalar::Count(self.exchanges.len() as u64)),
        );
        fields.push(("removed_pending_approvals".to_owned(), JsonScalar::Count(pending as u64)));
        fields.push(
            (
                "removed_bootstrap_tokens".to_owned(),
                JsonScalar::Count(self.bootstrap_tokens.len() as u64),
            ),
        );
        fields.push(
            ("removed_rate_windows".to_owned(), JsonScalar::Count(self.rate_windows.len() as u64)),
        );
        fields.push(
            (
                "removed_idempotency_keys".to_owned(),
                JsonScalar::Count(self.idempotency_keys.len() as u64),
            ),
        );
        proof {
            assert(json_fields(fields@) =~= self@.fence_counts());
        }
        let metadata = match object_text(&fields) {
            Ok(text) => text,
            Err(_) => {
                return Err(StoreError::InvalidInput("clock fence audit metadata"));
            },
        };
        if self.audit_id_taken(audit_id) {
            return Err(StoreError::Database(DatabaseFault::DuplicateKey));
        }
        let tenant_id = self.tenant_id.clone();
        self.persist_clock_fence(database_ms);
        self.move_anchor(sample, database_ms);
        cleared(&mut self.secret_requests);
        cleared(&mut self.exchanges);
        remove_rows(
            &mut self.approvals,
            |row: &ApprovalRow| -> (b: bool)
                ensures
                    b == pending_approval()(row@)
                { same(&row.status, "pending") },
            Ghost(pending_approval()),
        );
        cleared(&mut self.bootstrap_tokens);
        cleared(&mut self.rate_windows);
        cleared(&mut self.idempotency_keys);
        self.push_system_event(audit_id, tenant_id, "clock_restart_fence", metadata, database_ms);
        Ok(())
    }

    fn same_boot(&self, sample: &ClockSample) -> (same_boot: bool)
        ensures
            same_boot == !self@.boot_changed(sample@),
    {
        same_optional(&self.clock.boot_id, &sample.boot_id) && sample.boot_id.is_some()
    }

    /// Refuse an operation while the durable fence is set, and compare the
    /// clocks with the last sample before it runs.
    pub fn checkpoint_clock(&mut self, reading: &ClockReading) -> (reply: Result<(), StoreError>)
        ensures
            (final(self)@, reply) == old(self)@.checkpoint_clock(reading@),
    {
        if self.clock.fenced_at.is_some() {
            return Err(StoreError::ClockFenced);
        }
        let sample = match &reading.sample {
            Some(sample) => sample,
            None => {
                self.persist_clock_fence(reading.checkpoint_ms);
                return Err(StoreError::ClockFenced);
            },
        };
        if !self.same_boot(sample) {
            return match self.fence_after_restart(
                sample,
                reading.checkpoint_ms,
                &reading.audit_id,
            ) {
                Ok(()) => Err(StoreError::ClockFenced),
                Err(error) => Err(error),
            };
        }
        if self.clock_monitor.is_none() {
            return Err(StoreError::ClockFenced);
        }
        let now: i64 = reading.checkpoint_ms;
        let behind = saturated_sum(now, self.clock_tolerance_ms) < self.clock.last_observed_ms;
        if reading.check.database_regressed || reading.check.host_regressed || behind {
            self.persist_clock_fence(now);
            return Err(StoreError::ClockRegression);
        }
        if now < self.clock.last_observed_ms || saturated_difference(
            now,
            self.clock.last_observed_ms,
        ) >= CLOCK_ADVANCE_INTERVAL_MS {
            self.move_anchor(sample, now);
        }
        self.set_monitor_sample(now, sample.host_wall_ms, reading.monotonic_ms);
        Ok(())
    }

    /// Compare host and database time against the previous monitor sample. A
    /// regression sets the durable fence.
    pub fn monitor_clock(&mut self, reading: &ClockReading) -> (reply: Result<(), StoreError>)
        ensures
            (final(self)@, reply) == old(self)@.monitor_clock(reading@),
    {
        let sample = match &reading.sample {
            Some(sample) => sample,
            None => {
                self.persist_clock_fence(reading.checkpoint_ms);
                return Err(StoreError::ClockFenced);
            },
        };
        if self.clock.fenced_at.is_some() {
            return Err(StoreError::ClockFenced);
        }
        if !self.same_boot(sample) {
            return match self.fence_after_restart(
                sample,
                reading.checkpoint_ms,
                &reading.audit_id,
            ) {
                Ok(()) => Err(StoreError::ClockFenced),
                Err(error) => Err(error),
            };
        }
        if self.clock_monitor.is_none() {
            return Err(StoreError::ClockFenced);
        }
        if reading.check.database_regressed || reading.check.host_regressed {
            self.persist_clock_fence(reading.checkpoint_ms);
            return Err(StoreError::ClockFenced);
        }
        self.move_anchor(sample, reading.checkpoint_ms);
        self.set_monitor_sample(reading.checkpoint_ms, sample.host_wall_ms, reading.monotonic_ms);
        Ok(())
    }

    /// The recorded moment and the present one, as a startup check compares
    /// them.
    pub fn startup_anchors(&self, sample: &ClockSample, database_ms: i64) -> (anchors: (
        ClockAnchor,
        ClockAnchor,
    ))
        ensures
            anchors.0@ == (ClockAnchorView {
                boot_id: self@.clock.boot_id,
                boottime_ms: match self@.clock.boottime_ms {
                    Some(value) => value,
                    None => 0,
                },
                database_ms: self@.clock.last_observed_ms,
                host_wall_ms: match self@.clock.host_wall_ms {
                    Some(value) => value,
                    None => 0,
                },
            }),
            anchors.1@ == (ClockAnchorView {
                boot_id: sample@.boot_id,
                boottime_ms: sample@.boottime_ms,
                database_ms,
                host_wall_ms: sample@.host_wall_ms,
            }),
    {
        let previous = ClockAnchor {
            boot_id: copy_optional(&self.clock.boot_id),
            boottime_ms: match self.clock.boottime_ms {
                Some(value) => value,
                None => 0,
            },
            database_ms: self.clock.last_observed_ms,
            host_wall_ms: match self.clock.host_wall_ms {
                Some(value) => value,
                None => 0,
            },
        };
        let current = ClockAnchor {
            boot_id: copy_optional(&sample.boot_id),
            boottime_ms: sample.boottime_ms,
            database_ms,
            host_wall_ms: sample.host_wall_ms,
        };
        (previous, current)
    }

    /// Bring the clock row up to the present when a store is opened.
    pub fn initialize_clock(
        &mut self,
        sample: &ClockSample,
        check: StartupClockCheck,
        database_ms: i64,
        monotonic_ms: u64,
        audit_id: &str,
    ) -> (reply: Result<(), StoreError>)
        ensures
            (final(self)@, reply) == old(self)@.initialize_clock(
                sample@,
                check,
                database_ms,
                monotonic_ms,
                audit_id@,
            ),
    {
        if self.clock.fenced_at.is_some() {
            self.set_monitor_sample(database_ms, sample.host_wall_ms, monotonic_ms);
            return Ok(());
        }
        match check {
            StartupClockCheck::SameBoot => {
                self.move_anchor(sample, database_ms);
                self.set_monitor_sample(database_ms, sample.host_wall_ms, monotonic_ms);
                Ok(())
            },
            StartupClockCheck::BootChangedOrUnknown => {
                match self.fence_after_restart(sample, database_ms, audit_id) {
                    Ok(()) => {
                        self.set_monitor_sample(database_ms, sample.host_wall_ms, monotonic_ms);
                        Ok(())
                    },
                    Err(error) => Err(error),
                }
            },
            _ => {
                self.persist_clock_fence(database_ms);
                Err(StoreError::ClockRegression)
            },
        }
    }

    /// The database clock, once the checkpoint has passed.
    pub fn database_now_ms(&mut self, reading: &ClockReading) -> (reply: Result<i64, StoreError>)
        ensures
            (final(self)@, reply) == old(self)@.database_now_ms(reading@),
    {
        match self.checkpoint_clock(reading) {
            Ok(()) => Ok(reading.now_ms),
            Err(error) => Err(error),
        }
    }

    /// Whether the checkpoint passes and the database answered a probe with one.
    pub fn is_ready(&mut self, reading: &ClockReading, probe: Option<i32>) -> (ready: bool)
        ensures
            (final(self)@, ready) == old(self)@.is_ready(reading@, probe),
    {
        match self.checkpoint_clock(reading) {
            Ok(()) => match probe {
                Some(answer) => answer == 1,
                None => false,
            },
            Err(_) => false,
        }
    }

    /// The signing recovery epoch that is published to enrolled nodes, once the
    /// checkpoint has passed.
    pub fn issuer_epoch(&mut self, reading: &ClockReading) -> (reply: Result<u64, StoreError>)
        ensures
            (final(self)@, reply) == old(self)@.issuer_epoch(reading@),
    {
        if let Err(error) = self.checkpoint_clock(reading) {
            return Err(error);
        }
        if self.meta.issuer_epoch >= 0 {
            Ok(self.meta.issuer_epoch as u64)
        } else {
            Err(StoreError::MissingState("issuer epoch"))
        }
    }

    /// What a reconciliation would find and do. Nothing changes.
    pub fn reconciliation(&self, database_ms: i64) -> (summary: ClockReconciliation)
        ensures
            summary == self@.reconciliation(database_ms),
    {
        let found = database_ms < self.clock.last_observed_ms || self.clock.fenced_at.is_some();
        if !found {
            return ClockReconciliation {
                regression_detected: false,
                persisted_ms: self.clock.last_observed_ms,
                database_now_ms: database_ms,
                removed_secret_requests: 0,
                removed_exchanges: 0,
                removed_approvals: 0,
                removed_bootstrap_tokens: 0,
                removed_rate_windows: 0,
                removed_idempotency_keys: 0,
                revoked_sessions: 0,
            };
        }
        let approvals: usize = crate::relation::count_rows(
            &self.approvals,
            |row: &ApprovalRow| -> (b: bool)
                ensures
                    b == unsettled_approval()(row@)
                { same(&row.status, "pending") || same(&row.status, "approved") },
            Ghost(unsettled_approval()),
        );
        let sessions: usize = crate::relation::count_rows(
            &self.operator_sessions,
            |row: &SessionRow| -> (b: bool)
                ensures
                    b == open_session()(row@)
                { row.revoked_at_ms.is_none() },
            Ghost(open_session()),
        );
        ClockReconciliation {
            regression_detected: true,
            persisted_ms: self.clock.last_observed_ms,
            database_now_ms: database_ms,
            removed_secret_requests: self.secret_requests.len() as u64,
            removed_exchanges: self.exchanges.len() as u64,
            removed_approvals: approvals as u64,
            removed_bootstrap_tokens: self.bootstrap_tokens.len() as u64,
            removed_rate_windows: self.rate_windows.len() as u64,
            removed_idempotency_keys: self.idempotency_keys.len() as u64,
            revoked_sessions: sessions as u64,
        }
    }

    /// Recover a store whose recorded high-water mark is ahead of the database
    /// clock, or that is fenced. Nothing changes unless one of both is so. What
    /// was given a deadline by a clock ahead of the present one is removed
    /// rather than trusted, sessions are revoked, the mark is moved to the
    /// present and the fence is lifted. An audit event holds the summary as JSON.
    pub(crate) fn recover_clock(
        &mut self,
        sample: Option<&ClockSample>,
        database_ms: i64,
        audit_id: &str,
    ) -> (reply: Result<ClockReconciliation, StoreError>)
        ensures
            (final(self)@, reply) == old(self)@.recover_clock(
                match sample {
                    Some(host) => Some(host@),
                    None => None,
                },
                database_ms,
                audit_id@,
            ),
    {
        let sample = match sample {
            Some(sample) => sample,
            None => {
                return Err(StoreError::ClockSourceUnavailable);
            },
        };
        if sample.boot_id.is_none() {
            return Err(StoreError::ClockSourceUnavailable);
        }
        let summary = self.reconciliation(database_ms);
        if !summary.regression_detected {
            return Ok(summary);
        }
        if self.audit_id_taken(audit_id) {
            return Err(StoreError::Database(DatabaseFault::DuplicateKey));
        }
        let tenant_id = self.meta.tenant_id.clone();
        cleared(&mut self.secret_requests);
        cleared(&mut self.exchanges);
        remove_rows(
            &mut self.approvals,
            |row: &ApprovalRow| -> (b: bool)
                ensures
                    b == unsettled_approval()(row@)
                { same(&row.status, "pending") || same(&row.status, "approved") },
            Ghost(unsettled_approval()),
        );
        cleared(&mut self.bootstrap_tokens);
        cleared(&mut self.rate_windows);
        cleared(&mut self.idempotency_keys);
        update_rows(
            &mut self.operator_sessions,
            |row: &SessionRow| -> (b: bool)
                ensures
                    b == open_session()(row@)
                { row.revoked_at_ms.is_none() },
            |row: &SessionRow| -> (next: SessionRow)
                ensures
                    next@ == session_revoked_at(Some(database_ms))(row@)
                {
                    let mut next = row.duplicate();
                    next.revoked_at_ms = Some(database_ms);
                    next
                },
            Ghost(open_session()),
            Ghost(session_revoked_at(Some(database_ms))),
        );
        self.move_anchor(sample, database_ms);
        self.clock.fenced_at = None;
        self.push_system_event(
            audit_id,
            tenant_id,
            "clock_reconciled",
            summary_text(&summary),
            database_ms,
        );
        Ok(summary)
    }
}

} // verus!
