//! How operations and their approvals end.

use crate::relation::Duplicate;
use crate::tables::{
    OperationApprovalRow, OperationApprovalRowView, OperationRow, OperationRowView,
};
use crate::records::{OperationApprovalRecordView, OperationRecordView};
use vstd::prelude::*;

verus! {

/// The result of an operation that ended for a reason.
pub open spec fn reason_result(reason: Seq<char>) -> Seq<char> {
    "{\"reason\":\""@ + reason + "\"}"@
}

/// The result of an operation that ended for a reason, as JSON.
pub fn reason_json(reason: &str) -> (json: String)
    ensures
        json@ == reason_result(reason@),
{
    let mut json = "{\"reason\":\"".to_owned();
    json.append(reason);
    json.append("\"}");
    json
}

/// Whether an operation holds a grant that may still be used.
pub open spec fn is_running(status: Seq<char>) -> bool {
    status == "granted"@ || status == "executing"@
}

/// Whether a grant may still be used.
pub open spec fn is_live(status: Seq<char>) -> bool {
    status == "issued"@ || status == "delivered"@
}

/// Test whether an operation holds a grant that may still be used.
pub fn running(status: &str) -> (yes: bool)
    ensures
        yes == is_running(status@),
{
    crate::text::same(status, "granted") || crate::text::same(status, "executing")
}

/// Test whether a grant may still be used.
pub fn live(status: &str) -> (yes: bool)
    ensures
        yes == is_live(status@),
{
    crate::text::same(status, "issued") || crate::text::same(status, "delivered")
}

/// An operation that ended with a result, unless its version is exhausted.
pub open spec fn settled(status: Seq<char>, result: Seq<char>, at_ms: i64) -> spec_fn(
    OperationRowView,
) -> Option<OperationRowView> {
    |row: OperationRowView|
        if row.record.version == i64::MAX {
            None
        } else {
            Some(
                OperationRowView {
                    record: OperationRecordView {
                        status,
                        result_json: Some(result),
                        completed_at_ms: Some(at_ms),
                        version: (row.record.version + 1) as i64,
                        ..row.record
                    },
                    ..row
                },
            )
        }
}

/// End an operation with a result.
pub fn settle(row: &OperationRow, status: &str, result: &str, at_ms: i64) -> (next: Option<
    OperationRow,
>)
    ensures
        crate::relation::option_view(next) == settled(status@, result@, at_ms)(row@),
{
    if row.record.version == i64::MAX {
        return None;
    }
    let mut next = row.duplicate();
    next.record.status = status.to_owned();
    next.record.result_json = Some(result.to_owned());
    next.record.completed_at_ms = Some(at_ms);
    next.record.version = row.record.version + 1;
    Some(next)
}

/// An operation with another status, unless its version is exhausted.
pub open spec fn restated(status: Seq<char>) -> spec_fn(OperationRowView) -> Option<
    OperationRowView,
> {
    |row: OperationRowView|
        if row.record.version == i64::MAX {
            None
        } else {
            Some(
                OperationRowView {
                    record: OperationRecordView {
                        status,
                        version: (row.record.version + 1) as i64,
                        ..row.record
                    },
                    ..row
                },
            )
        }
}

/// Give an operation another status.
pub fn restate(row: &OperationRow, status: &str) -> (next: Option<OperationRow>)
    ensures
        crate::relation::option_view(next) == restated(status@)(row@),
{
    if row.record.version == i64::MAX {
        return None;
    }
    let mut next = row.duplicate();
    next.record.status = status.to_owned();
    next.record.version = row.record.version + 1;
    Some(next)
}

/// An approval that lapsed at a moment, unless its version is exhausted.
pub open spec fn lapsed(at_ms: i64) -> spec_fn(OperationApprovalRowView) -> Option<
    OperationApprovalRowView,
> {
    |row: OperationApprovalRowView|
        if row.record.version == i64::MAX {
            None
        } else {
            Some(
                OperationApprovalRowView {
                    record: OperationApprovalRecordView {
                        status: "expired"@,
                        decided_at_ms: Some(at_ms),
                        version: (row.record.version + 1) as i64,
                        ..row.record
                    },
                    ..row
                },
            )
        }
}

/// Let an approval lapse.
pub fn lapse(row: &OperationApprovalRow, at_ms: i64) -> (next: Option<OperationApprovalRow>)
    ensures
        crate::relation::option_view(next) == lapsed(at_ms)(row@),
{
    if row.record.version == i64::MAX {
        return None;
    }
    let mut next = row.duplicate();
    next.record.status = "expired".to_owned();
    next.record.decided_at_ms = Some(at_ms);
    next.record.version = row.record.version + 1;
    Some(next)
}

} // verus!
