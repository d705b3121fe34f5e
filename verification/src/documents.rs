//! Signed documents: what their envelopes were read as, and the bindings that
//! the store demands of them.

use crate::error::StoreError;
use crate::limits::{clamped, exact_sum, saturated_difference, saturated_sum};
use crate::relation::{copy_rows, rows_view, Duplicate};
use crate::text::{
    byte_count, byte_len, copy_bytes, copy_optional, optional_text, same,
};
use vstd::prelude::*;

verus! {

/// The largest signed document, in bytes.
pub const MAX_DOCUMENT_BYTES: usize = 65_536;

/// How long a tombstone outlives its grant at least.
pub const TOMBSTONE_RETENTION_MS: i64 = 604_800_000;

/// What a signed envelope says it carries.
#[derive(Debug, Clone, Copy, PartialEq, Eq, Structural)]
pub enum DocumentKind {
    Grant,
    Revocation,
    NodeRevocation,
    NodeKeyRotation,
    Other,
}

/// What a signed text was read as.
#[derive(Debug, PartialEq, Eq)]
pub enum Parsed<T> {
    /// The text is not a signed envelope.
    Unreadable,
    /// The envelope does not carry a body of this type.
    BadBody,
    /// The envelope's kind and epoch, and its body.
    Document { kind: DocumentKind, epoch: u64, body: T },
}

impl<T: View> View for Parsed<T> {
    type V = Parsed<T::V>;

    open spec fn view(&self) -> Parsed<T::V> {
        match self {
            Parsed::Unreadable => Parsed::Unreadable,
            Parsed::BadBody => Parsed::BadBody,
            Parsed::Document { kind, epoch, body } => Parsed::Document {
                kind: *kind,
                epoch: *epoch,
                body: body@,
            },
        }
    }
}

impl<T: Duplicate> Duplicate for Parsed<T> {
    fn duplicate(&self) -> (copy: Parsed<T>) {
        match self {
            Parsed::Unreadable => Parsed::Unreadable,
            Parsed::BadBody => Parsed::BadBody,
            Parsed::Document { kind, epoch, body } => Parsed::Document {
                kind: *kind,
                epoch: *epoch,
                body: body.duplicate(),
            },
        }
    }
}

/// The body of a signed grant revocation.
#[derive(Debug, PartialEq, Eq)]
pub struct Revocation {
    pub grant_id: String,
    pub node_id: String,
    pub reason: String,
    pub issuer_epoch: u64,
    pub revoked_at_ms: u64,
    pub retain_until_ms: u64,
}

/// What a `Revocation` stands for.
#[verifier::ext_equal]
pub struct RevocationView {
    pub grant_id: Seq<char>,
    pub node_id: Seq<char>,
    pub reason: Seq<char>,
    pub issuer_epoch: u64,
    pub revoked_at_ms: u64,
    pub retain_until_ms: u64,
}

impl View for Revocation {
    type V = RevocationView;

    open spec fn view(&self) -> RevocationView {
        RevocationView {
            grant_id: self.grant_id@,
            node_id: self.node_id@,
            reason: self.reason@,
            issuer_epoch: self.issuer_epoch,
            revoked_at_ms: self.revoked_at_ms,
            retain_until_ms: self.retain_until_ms,
        }
    }
}

impl Duplicate for Revocation {
    fn duplicate(&self) -> (copy: Revocation) {
        Revocation {
            grant_id: self.grant_id.clone(),
            node_id: self.node_id.clone(),
            reason: self.reason.clone(),
            issuer_epoch: self.issuer_epoch,
            revoked_at_ms: self.revoked_at_ms,
            retain_until_ms: self.retain_until_ms,
        }
    }
}

impl Clone for Revocation {
    fn clone(&self) -> (copy: Revocation)
        ensures
            copy@ == self@,
    {
        self.duplicate()
    }
}

/// The body of a signed node revocation.
#[derive(Debug, PartialEq, Eq)]
pub struct NodeRevocation {
    pub node_id: String,
    pub issuer_epoch: u64,
    pub revoked_at_ms: u64,
}

/// What a `NodeRevocation` stands for.
#[verifier::ext_equal]
pub struct NodeRevocationView {
    pub node_id: Seq<char>,
    pub issuer_epoch: u64,
    pub revoked_at_ms: u64,
}

impl View for NodeRevocation {
    type V = NodeRevocationView;

    open spec fn view(&self) -> NodeRevocationView {
        NodeRevocationView {
            node_id: self.node_id@,
            issuer_epoch: self.issuer_epoch,
            revoked_at_ms: self.revoked_at_ms,
        }
    }
}

impl Duplicate for NodeRevocation {
    fn duplicate(&self) -> (copy: NodeRevocation) {
        NodeRevocation {
            node_id: self.node_id.clone(),
            issuer_epoch: self.issuer_epoch,
            revoked_at_ms: self.revoked_at_ms,
        }
    }
}

impl Clone for NodeRevocation {
    fn clone(&self) -> (copy: NodeRevocation)
        ensures
            copy@ == self@,
    {
        self.duplicate()
    }
}

/// The body of a signed node key rotation.
#[derive(Debug, PartialEq, Eq)]
pub struct NodeKeyRotation {
    pub rotation_id: String,
    pub node_id: String,
    pub from_key_version: u64,
    pub to_key_version: u64,
    pub signing_public: String,
    pub recipient_public: String,
    pub fingerprint: String,
    pub issuer_epoch: u64,
}

/// What a `NodeKeyRotation` stands for.
#[verifier::ext_equal]
pub struct NodeKeyRotationView {
    pub rotation_id: Seq<char>,
    pub node_id: Seq<char>,
    pub from_key_version: u64,
    pub to_key_version: u64,
    pub signing_public: Seq<char>,
    pub recipient_public: Seq<char>,
    pub fingerprint: Seq<char>,
    pub issuer_epoch: u64,
}

impl View for NodeKeyRotation {
    type V = NodeKeyRotationView;

    open spec fn view(&self) -> NodeKeyRotationView {
        NodeKeyRotationView {
            rotation_id: self.rotation_id@,
            node_id: self.node_id@,
            from_key_version: self.from_key_version,
            to_key_version: self.to_key_version,
            signing_public: self.signing_public@,
            recipient_public: self.recipient_public@,
            fingerprint: self.fingerprint@,
            issuer_epoch: self.issuer_epoch,
        }
    }
}

impl Duplicate for NodeKeyRotation {
    fn duplicate(&self) -> (copy: NodeKeyRotation) {
        NodeKeyRotation {
            rotation_id: self.rotation_id.clone(),
            node_id: self.node_id.clone(),
            from_key_version: self.from_key_version,
            to_key_version: self.to_key_version,
            signing_public: self.signing_public.clone(),
            recipient_public: self.recipient_public.clone(),
            fingerprint: self.fingerprint.clone(),
            issuer_epoch: self.issuer_epoch,
        }
    }
}

impl Clone for NodeKeyRotation {
    fn clone(&self) -> (copy: NodeKeyRotation)
        ensures
            copy@ == self@,
    {
        self.duplicate()
    }
}

/// The body of a signed grant.
#[derive(Debug, PartialEq, Eq)]
pub struct Grant {
    pub id: String,
    pub operation_id: String,
    pub node_id: String,
    pub workload_id: String,
    pub invocation_id: String,
    pub unit: String,
    pub account: String,
    pub resource_id: String,
    pub recipient_key_id: String,
    pub policy_version: u64,
    pub approval_reference: Option<String>,
    pub action: String,
    pub mode: String,
    pub audience: String,
    pub issuer_epoch: u64,
    pub issued_at_ms: u64,
    pub expires_at_ms: u64,
    pub local_ceiling_seconds: u64,
}

/// What a `Grant` stands for.
#[verifier::ext_equal]
pub struct GrantView {
    pub id: Seq<char>,
    pub operation_id: Seq<char>,
    pub node_id: Seq<char>,
    pub workload_id: Seq<char>,
    pub invocation_id: Seq<char>,
    pub unit: Seq<char>,
    pub account: Seq<char>,
    pub resource_id: Seq<char>,
    pub recipient_key_id: Seq<char>,
    pub policy_version: u64,
    pub approval_reference: Option<Seq<char>>,
    pub action: Seq<char>,
    pub mode: Seq<char>,
    pub audience: Seq<char>,
    pub issuer_epoch: u64,
    pub issued_at_ms: u64,
    pub expires_at_ms: u64,
    pub local_ceiling_seconds: u64,
}

impl View for Grant {
    type V = GrantView;

    open spec fn view(&self) -> GrantView {
        GrantView {
            id: self.id@,
            operation_id: self.operation_id@,
            node_id: self.node_id@,
            workload_id: self.workload_id@,
            invocation_id: self.invocation_id@,
            unit: self.unit@,
            account: self.account@,
            resource_id: self.resource_id@,
            recipient_key_id: self.recipient_key_id@,
            policy_version: self.policy_version,
            approval_reference: optional_text(self.approval_reference),
            action: self.action@,
            mode: self.mode@,
            audience: self.audience@,
            issuer_epoch: self.issuer_epoch,
            issued_at_ms: self.issued_at_ms,
            expires_at_ms: self.expires_at_ms,
            local_ceiling_seconds: self.local_ceiling_seconds,
        }
    }
}

impl Duplicate for Grant {
    fn duplicate(&self) -> (copy: Grant) {
        Grant {
            id: self.id.clone(),
            operation_id: self.operation_id.clone(),
            node_id: self.node_id.clone(),
            workload_id: self.workload_id.clone(),
            invocation_id: self.invocation_id.clone(),
            unit: self.unit.clone(),
            account: self.account.clone(),
            resource_id: self.resource_id.clone(),
            recipient_key_id: self.recipient_key_id.clone(),
            policy_version: self.policy_version,
            approval_reference: copy_optional(&self.approval_reference),
            action: self.action.clone(),
            mode: self.mode.clone(),
            audience: self.audience.clone(),
            issuer_epoch: self.issuer_epoch,
            issued_at_ms: self.issued_at_ms,
            expires_at_ms: self.expires_at_ms,
            local_ceiling_seconds: self.local_ceiling_seconds,
        }
    }
}

impl Clone for Grant {
    fn clone(&self) -> (copy: Grant)
        ensures
            copy@ == self@,
    {
        self.duplicate()
    }
}

/// A signed revocation of one grant, with what its envelope was read as.
#[derive(Debug, PartialEq, Eq)]
pub struct NodeGrantRevocationDraft {
    pub grant_id: String,
    pub reason: String,
    pub envelope_json: String,
    pub parsed: Parsed<Revocation>,
}

/// What a `NodeGrantRevocationDraft` stands for.
#[verifier::ext_equal]
pub struct NodeGrantRevocationDraftView {
    pub grant_id: Seq<char>,
    pub reason: Seq<char>,
    pub envelope_json: Seq<char>,
    pub parsed: Parsed<RevocationView>,
}

impl View for NodeGrantRevocationDraft {
    type V = NodeGrantRevocationDraftView;

    open spec fn view(&self) -> NodeGrantRevocationDraftView {
        NodeGrantRevocationDraftView {
            grant_id: self.grant_id@,
            reason: self.reason@,
            envelope_json: self.envelope_json@,
            parsed: self.parsed@,
        }
    }
}

impl Duplicate for NodeGrantRevocationDraft {
    fn duplicate(&self) -> (copy: NodeGrantRevocationDraft) {
        NodeGrantRevocationDraft {
            grant_id: self.grant_id.clone(),
            reason: self.reason.clone(),
            envelope_json: self.envelope_json.clone(),
            parsed: self.parsed.duplicate(),
        }
    }
}

impl Clone for NodeGrantRevocationDraft {
    fn clone(&self) -> (copy: NodeGrantRevocationDraft)
        ensures
            copy@ == self@,
    {
        self.duplicate()
    }
}

/// A key rotation to be staged, with the signed rotation document and the revocations
/// of the grants that the old key could still use.
#[derive(Debug, PartialEq, Eq)]
pub struct NodeKeyRotationDraft {
    pub rotation: NodeKeyRotation,
    pub grant_revocations: Vec<NodeGrantRevocationDraft>,
    pub rotation_document_json: String,
    pub parsed: Parsed<NodeKeyRotation>,
}

/// What a `NodeKeyRotationDraft` stands for.
#[verifier::ext_equal]
pub struct NodeKeyRotationDraftView {
    pub rotation: NodeKeyRotationView,
    pub grant_revocations: Seq<NodeGrantRevocationDraftView>,
    pub rotation_document_json: Seq<char>,
    pub parsed: Parsed<NodeKeyRotationView>,
}

impl View for NodeKeyRotationDraft {
    type V = NodeKeyRotationDraftView;

    open spec fn view(&self) -> NodeKeyRotationDraftView {
        NodeKeyRotationDraftView {
            rotation: self.rotation@,
            grant_revocations: rows_view(self.grant_revocations@),
            rotation_document_json: self.rotation_document_json@,
            parsed: self.parsed@,
        }
    }
}

impl Duplicate for NodeKeyRotationDraft {
    fn duplicate(&self) -> (copy: NodeKeyRotationDraft) {
        NodeKeyRotationDraft {
            rotation: self.rotation.duplicate(),
            grant_revocations: copy_rows(&self.grant_revocations),
            rotation_document_json: self.rotation_document_json.clone(),
            parsed: self.parsed.duplicate(),
        }
    }
}

impl Clone for NodeKeyRotationDraft {
    fn clone(&self) -> (copy: NodeKeyRotationDraft)
        ensures
            copy@ == self@,
    {
        self.duplicate()
    }
}

/// What a signed grant envelope was read as, beside the canonical body of the grant
/// that it is meant to carry.
#[derive(Debug, PartialEq, Eq)]
pub struct GrantEnvelope {
    pub kind: DocumentKind,
    pub epoch: u64,
    pub signed_body: Vec<u8>,
    pub expected_body: Vec<u8>,
}

/// What a `GrantEnvelope` stands for.
#[verifier::ext_equal]
pub struct GrantEnvelopeView {
    pub kind: DocumentKind,
    pub epoch: u64,
    pub signed_body: Seq<u8>,
    pub expected_body: Seq<u8>,
}

impl View for GrantEnvelope {
    type V = GrantEnvelopeView;

    open spec fn view(&self) -> GrantEnvelopeView {
        GrantEnvelopeView {
            kind: self.kind,
            epoch: self.epoch,
            signed_body: self.signed_body@,
            expected_body: self.expected_body@,
        }
    }
}

impl Duplicate for GrantEnvelope {
    fn duplicate(&self) -> (copy: GrantEnvelope) {
        GrantEnvelope {
            kind: self.kind,
            epoch: self.epoch,
            signed_body: copy_bytes(&self.signed_body),
            expected_body: copy_bytes(&self.expected_body),
        }
    }
}

impl Clone for GrantEnvelope {
    fn clone(&self) -> (copy: GrantEnvelope)
        ensures
            copy@ == self@,
    {
        self.duplicate()
    }
}

/// What the text of a signed grant was read as, beside the grant that it is meant to
/// carry.
#[derive(Debug, PartialEq, Eq)]
pub enum GrantReading {
    /// The grant cannot be written as a document.
    BadGrant,
    /// The text is not a signed envelope.
    Unreadable,
    /// A body cannot be brought into its canonical form.
    BadBody,
    /// The envelope, and both bodies in their canonical form.
    Envelope(GrantEnvelope),
}

/// What a `GrantReading` stands for.
#[verifier::ext_equal]
pub enum GrantReadingView {
    BadGrant,
    Unreadable,
    BadBody,
    Envelope(GrantEnvelopeView),
}

impl View for GrantReading {
    type V = GrantReadingView;

    open spec fn view(&self) -> GrantReadingView {
        match self {
            GrantReading::BadGrant => GrantReadingView::BadGrant,
            GrantReading::Unreadable => GrantReadingView::Unreadable,
            GrantReading::BadBody => GrantReadingView::BadBody,
            GrantReading::Envelope(envelope) => GrantReadingView::Envelope(envelope@),
        }
    }
}

impl Duplicate for GrantReading {
    fn duplicate(&self) -> (copy: GrantReading) {
        match self {
            GrantReading::BadGrant => GrantReading::BadGrant,
            GrantReading::Unreadable => GrantReading::Unreadable,
            GrantReading::BadBody => GrantReading::BadBody,
            GrantReading::Envelope(envelope) => GrantReading::Envelope(envelope.duplicate()),
        }
    }
}

/// A grant to be issued for an operation, with its signed envelope.
#[derive(Debug, PartialEq, Eq)]
pub struct GrantIssueDraft {
    pub grant: Grant,
    pub expected_operation_version: i64,
    pub envelope_json: String,
    pub reading: GrantReading,
}

/// What a `GrantIssueDraft` stands for.
#[verifier::ext_equal]
pub struct GrantIssueDraftView {
    pub grant: GrantView,
    pub expected_operation_version: i64,
    pub envelope_json: Seq<char>,
    pub reading: GrantReadingView,
}

impl View for GrantIssueDraft {
    type V = GrantIssueDraftView;

    open spec fn view(&self) -> GrantIssueDraftView {
        GrantIssueDraftView {
            grant: self.grant@,
            expected_operation_version: self.expected_operation_version,
            envelope_json: self.envelope_json@,
            reading: self.reading@,
        }
    }
}

impl Duplicate for GrantIssueDraft {
    fn duplicate(&self) -> (copy: GrantIssueDraft) {
        GrantIssueDraft {
            grant: self.grant.duplicate(),
            expected_operation_version: self.expected_operation_version,
            envelope_json: self.envelope_json.clone(),
            reading: self.reading.duplicate(),
        }
    }
}

impl Clone for GrantIssueDraft {
    fn clone(&self) -> (copy: GrantIssueDraft)
        ensures
            copy@ == self@,
    {
        self.duplicate()
    }
}

/// Whether a signed text is neither empty nor too large.
pub open spec fn sized(text: Seq<char>) -> bool {
    text.len() > 0 && byte_count(text) <= MAX_DOCUMENT_BYTES
}

/// Whether a time lies at most a minute before and five seconds after `now`.
pub open spec fn timely(at_ms: int, now_ms: i64) -> bool {
    clamped(now_ms - 60_000) <= at_ms <= clamped(now_ms + 5_000)
}

/// The earliest moment until which a tombstone must be kept.
pub open spec fn least_retention(now_ms: i64, expires_at_ms: i64) -> Option<i64> {
    exact_sum(if now_ms >= expires_at_ms { now_ms } else { expires_at_ms }, TOMBSTONE_RETENTION_MS)
}

/// The revocation that a signed text carries for a grant of a node that is
/// revoked, or whose key is rotated.
pub open spec fn node_grant_revocation(
    text: Seq<char>,
    parsed: Parsed<RevocationView>,
    grant_id: Seq<char>,
    node_id: Seq<char>,
    now_ms: i64,
    expires_at_ms: i64,
    issuer_epoch: i64,
    reason: Seq<char>,
) -> Result<RevocationView, StoreError> {
    if !sized(text) {
        Err(StoreError::InvalidInput("node revocation document size"))
    } else {
        match parsed {
            Parsed::Unreadable => Err(StoreError::InvalidInput("node revocation document")),
            Parsed::BadBody => Err(StoreError::InvalidInput("node revocation body")),
            Parsed::Document { kind, epoch, body } => if body.revoked_at_ms > i64::MAX {
                Err(StoreError::InvalidInput("node revocation time"))
            } else if body.retain_until_ms > i64::MAX {
                Err(StoreError::InvalidInput("node revocation retention"))
            } else {
                match least_retention(now_ms, expires_at_ms) {
                    None => Err(StoreError::InvalidInput("node revocation retention")),
                    Some(least) => if issuer_epoch < 0 {
                        Err(StoreError::InvalidInput("issuer epoch"))
                    } else if kind == DocumentKind::Revocation && epoch == issuer_epoch
                        && body.issuer_epoch == issuer_epoch && body.grant_id == grant_id
                        && body.node_id == node_id && body.reason == reason && timely(
                        body.revoked_at_ms as int,
                        now_ms,
                    ) && body.retain_until_ms >= least {
                        Ok(body)
                    } else {
                        Err(StoreError::InvalidInput("node revocation binding"))
                    },
                }
            },
        }
    }
}

/// Whether a signed text is the rotation document of a rotation.
pub open spec fn node_key_rotation_document(
    text: Seq<char>,
    parsed: Parsed<NodeKeyRotationView>,
    expected: NodeKeyRotationView,
    node_id: Seq<char>,
    now_ms: i64,
    issuer_epoch: i64,
) -> Result<(), StoreError> {
    if !sized(text) {
        Err(StoreError::InvalidInput("node key rotation document size"))
    } else {
        match parsed {
            Parsed::Unreadable => Err(StoreError::InvalidInput("node key rotation document")),
            Parsed::BadBody => Err(StoreError::InvalidInput("node key rotation body")),
            Parsed::Document { kind, epoch, body } => if issuer_epoch < 0 {
                Err(StoreError::InvalidInput("issuer epoch"))
            } else if kind == DocumentKind::NodeKeyRotation && epoch == issuer_epoch
                && body.issuer_epoch == issuer_epoch && body.node_id == node_id && body == expected
                && now_ms > 0 {
                Ok(())
            } else {
                Err(StoreError::InvalidInput("node key rotation binding"))
            },
        }
    }
}

/// Whether a signed text is the revocation document of a node.
pub open spec fn node_revocation_document(
    text: Seq<char>,
    parsed: Parsed<NodeRevocationView>,
    node_id: Seq<char>,
    now_ms: i64,
    issuer_epoch: i64,
) -> Result<(), StoreError> {
    if !sized(text) {
        Err(StoreError::InvalidInput("node revocation document size"))
    } else {
        match parsed {
            Parsed::Unreadable => Err(StoreError::InvalidInput("node revocation document")),
            Parsed::BadBody => Err(StoreError::InvalidInput("node revocation body")),
            Parsed::Document { kind, epoch, body } => if body.revoked_at_ms > i64::MAX {
                Err(StoreError::InvalidInput("node revocation time"))
            } else if issuer_epoch < 0 {
                Err(StoreError::InvalidInput("issuer epoch"))
            } else if kind == DocumentKind::NodeRevocation && epoch == issuer_epoch
                && body.issuer_epoch == issuer_epoch && body.node_id == node_id && timely(
                body.revoked_at_ms as int,
                now_ms,
            ) {
                Ok(())
            } else {
                Err(StoreError::InvalidInput("node revocation binding"))
            },
        }
    }
}

/// The revocation that a signed text carries for one grant.
pub open spec fn grant_revocation(
    text: Seq<char>,
    parsed: Parsed<RevocationView>,
    grant_id: Seq<char>,
    node_id: Seq<char>,
    reason: Seq<char>,
) -> Result<RevocationView, StoreError> {
    if !sized(text) {
        Err(StoreError::InvalidInput("revocation document size"))
    } else {
        match parsed {
            Parsed::Unreadable => Err(StoreError::InvalidInput("revocation document")),
            Parsed::BadBody => Err(StoreError::InvalidInput("revocation body")),
            Parsed::Document { kind, epoch, body } => if kind == DocumentKind::Revocation
                && epoch == body.issuer_epoch && body.grant_id == grant_id && body.node_id
                == node_id && body.reason == reason {
                Ok(body)
            } else {
                Err(StoreError::InvalidInput("revocation document binding"))
            },
        }
    }
}

/// Whether a revocation is timely and its tombstone is kept long enough.
pub open spec fn revocation_time(
    revocation: RevocationView,
    now_ms: i64,
    expires_at_ms: i64,
) -> Result<(), StoreError> {
    if revocation.revoked_at_ms > i64::MAX {
        Err(StoreError::InvalidInput("revocation time"))
    } else if revocation.retain_until_ms > i64::MAX {
        Err(StoreError::InvalidInput("tombstone retention"))
    } else {
        match least_retention(now_ms, expires_at_ms) {
            None => Err(StoreError::InvalidInput("tombstone retention")),
            Some(least) => if timely(revocation.revoked_at_ms as int, now_ms)
                && revocation.retain_until_ms >= least {
                Ok(())
            } else {
                Err(StoreError::InvalidInput("revocation time or retention"))
            },
        }
    }
}

/// Test the size of a signed text.
pub fn is_sized(text: &str) -> (fits: bool)
    ensures
        fits == sized(text@),
{
    !text.is_empty() && byte_len(text) <= MAX_DOCUMENT_BYTES
}

fn is_timely(at_ms: i64, now_ms: i64) -> (fits: bool)
    ensures
        fits == timely(at_ms as int, now_ms),
{
    saturated_difference(now_ms, 60_000) <= at_ms && at_ms <= saturated_sum(now_ms, 5_000)
}

fn least_retain_until(now_ms: i64, expires_at_ms: i64) -> (least: Option<i64>)
    ensures
        least == least_retention(now_ms, expires_at_ms),
{
    let later: i64 = if now_ms >= expires_at_ms {
        now_ms
    } else {
        expires_at_ms
    };
    later.checked_add(TOMBSTONE_RETENTION_MS)
}

/// Whether two rotations are the same.
pub fn same_rotation(a: &NodeKeyRotation, b: &NodeKeyRotation) -> (equal: bool)
    ensures
        equal == (a@ == b@),
{
    same(&a.rotation_id, &b.rotation_id) && same(&a.node_id, &b.node_id) && a.from_key_version
        == b.from_key_version && a.to_key_version == b.to_key_version && same(
        &a.signing_public,
        &b.signing_public,
    ) && same(&a.recipient_public, &b.recipient_public) && same(&a.fingerprint, &b.fingerprint)
        && a.issuer_epoch == b.issuer_epoch
}

/// Check the signed revocation of a grant whose node is revoked, or whose
/// node's key is rotated, and return until when its tombstone is kept.
pub fn validate_node_revocation(
    envelope_json: &str,
    parsed: &Parsed<Revocation>,
    grant_id: &str,
    node_id: &str,
    now_ms: i64,
    expires_at_ms: i64,
    issuer_epoch: i64,
    expected_reason: &str,
) -> (reply: Result<i64, StoreError>)
    ensures
        reply == match node_grant_revocation(
            envelope_json@,
            parsed@,
            grant_id@,
            node_id@,
            now_ms,
            expires_at_ms,
            issuer_epoch,
            expected_reason@,
        ) {
            Ok(revocation) => Ok::<i64, StoreError>(revocation.retain_until_ms as i64),
            Err(error) => Err(error),
        },
{
    if !is_sized(envelope_json) {
        return Err(StoreError::InvalidInput("node revocation document size"));
    }
    match parsed {
        Parsed::Unreadable => Err(StoreError::InvalidInput("node revocation document")),
        Parsed::BadBody => Err(StoreError::InvalidInput("node revocation body")),
        Parsed::Document { kind, epoch, body } => {
            if body.revoked_at_ms > i64::MAX as u64 {
                return Err(StoreError::InvalidInput("node revocation time"));
            }
            if body.retain_until_ms > i64::MAX as u64 {
                return Err(StoreError::InvalidInput("node revocation retention"));
            }
            let least: i64 = match least_retain_until(now_ms, expires_at_ms) {
                Some(least) => least,
                None => {
                    return Err(StoreError::InvalidInput("node revocation retention"));
                },
            };
            if issuer_epoch < 0 {
                return Err(StoreError::InvalidInput("issuer epoch"));
            }
            let expected_epoch: u64 = issuer_epoch as u64;
            if *kind == DocumentKind::Revocation && *epoch == expected_epoch && body.issuer_epoch
                == expected_epoch && same(&body.grant_id, grant_id) && same(
                &body.node_id,
                node_id,
            ) && same(&body.reason, expected_reason) && is_timely(
                body.revoked_at_ms as i64,
                now_ms,
            ) && body.retain_until_ms as i64 >= least {
                Ok(body.retain_until_ms as i64)
            } else {
                Err(StoreError::InvalidInput("node revocation binding"))
            }
        },
    }
}

/// Check the signed document of a key rotation.
pub fn validate_node_key_rotation_document(
    envelope_json: &str,
    parsed: &Parsed<NodeKeyRotation>,
    expected_rotation: &NodeKeyRotation,
    node_id: &str,
    now_ms: i64,
    issuer_epoch: i64,
) -> (reply: Result<(), StoreError>)
    ensures
        reply == node_key_rotation_document(
            envelope_json@,
            parsed@,
            expected_rotation@,
            node_id@,
            now_ms,
            issuer_epoch,
        ),
{
    if !is_sized(envelope_json) {
        return Err(StoreError::InvalidInput("node key rotation document size"));
    }
    match parsed {
        Parsed::Unreadable => Err(StoreError::InvalidInput("node key rotation document")),
        Parsed::BadBody => Err(StoreError::InvalidInput("node key rotation body")),
        Parsed::Document { kind, epoch, body } => {
            if issuer_epoch < 0 {
                return Err(StoreError::InvalidInput("issuer epoch"));
            }
            let expected_epoch: u64 = issuer_epoch as u64;
            if *kind == DocumentKind::NodeKeyRotation && *epoch == expected_epoch
                && body.issuer_epoch == expected_epoch && same(&body.node_id, node_id)
                && same_rotation(body, expected_rotation) && now_ms > 0 {
                Ok(())
            } else {
                Err(StoreError::InvalidInput("node key rotation binding"))
            }
        },
    }
}

/// Check the signed revocation document of a node.
pub fn validate_node_revocation_document(
    envelope_json: &str,
    parsed: &Parsed<NodeRevocation>,
    node_id: &str,
    now_ms: i64,
    issuer_epoch: i64,
) -> (reply: Result<(), StoreError>)
    ensures
        reply == node_revocation_document(
            envelope_json@,
            parsed@,
            node_id@,
            now_ms,
            issuer_epoch,
        ),
{
    if !is_sized(envelope_json) {
        return Err(StoreError::InvalidInput("node revocation document size"));
    }
    match parsed {
        Parsed::Unreadable => Err(StoreError::InvalidInput("node revocation document")),
        Parsed::BadBody => Err(StoreError::InvalidInput("node revocation body")),
        Parsed::Document { kind, epoch, body } => {
            if body.revoked_at_ms > i64::MAX as u64 {
                return Err(StoreError::InvalidInput("node revocation time"));
            }
            if issuer_epoch < 0 {
                return Err(StoreError::InvalidInput("issuer epoch"));
            }
            let expected_epoch: u64 = issuer_epoch as u64;
            if *kind == DocumentKind::NodeRevocation && *epoch == expected_epoch
                && body.issuer_epoch == expected_epoch && same(&body.node_id, node_id)
                && is_timely(body.revoked_at_ms as i64, now_ms) {
                Ok(())
            } else {
                Err(StoreError::InvalidInput("node revocation binding"))
            }
        },
    }
}

/// Check the signed revocation of one grant.
pub fn validate_revocation_envelope<'a>(
    envelope_json: &str,
    parsed: &'a Parsed<Revocation>,
    grant_id: &str,
    node_id: &str,
    reason: &str,
) -> (reply: Result<&'a Revocation, StoreError>)
    ensures
        match grant_revocation(envelope_json@, parsed@, grant_id@, node_id@, reason@) {
            Ok(revocation) => reply is Ok && reply->Ok_0@ == revocation,
            Err(error) => reply is Err && reply->Err_0 == error,
        },
{
    if !is_sized(envelope_json) {
        return Err(StoreError::InvalidInput("revocation document size"));
    }
    match parsed {
        Parsed::Unreadable => Err(StoreError::InvalidInput("revocation document")),
        Parsed::BadBody => Err(StoreError::InvalidInput("revocation body")),
        Parsed::Document { kind, epoch, body } => {
            if *kind == DocumentKind::Revocation && *epoch == body.issuer_epoch && same(
                &body.grant_id,
                grant_id,
            ) && same(&body.node_id, node_id) && same(&body.reason, reason) {
                Ok(body)
            } else {
                Err(StoreError::InvalidInput("revocation document binding"))
            }
        },
    }
}

/// Check when a revocation was signed and how long its tombstone is kept.
pub fn validate_revocation_time(
    revocation: &Revocation,
    now_ms: i64,
    expires_at_ms: i64,
) -> (reply: Result<(), StoreError>)
    ensures
        reply == revocation_time(revocation@, now_ms, expires_at_ms),
{
    if revocation.revoked_at_ms > i64::MAX as u64 {
        return Err(StoreError::InvalidInput("revocation time"));
    }
    if revocation.retain_until_ms > i64::MAX as u64 {
        return Err(StoreError::InvalidInput("tombstone retention"));
    }
    let least: i64 = match least_retain_until(now_ms, expires_at_ms) {
        Some(least) => least,
        None => {
            return Err(StoreError::InvalidInput("tombstone retention"));
        },
    };
    if is_timely(revocation.revoked_at_ms as i64, now_ms) && revocation.retain_until_ms as i64
        >= least {
        Ok(())
    } else {
        Err(StoreError::InvalidInput("revocation time or retention"))
    }
}

} // verus!
