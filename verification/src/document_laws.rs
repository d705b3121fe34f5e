//! Which signed documents are taken, by what they say.

use crate::documents::{
    grant_revocation, node_grant_revocation, node_key_rotation_document, node_revocation_document,
    revocation_time, DocumentKind, NodeKeyRotationView, NodeRevocationView, Parsed, RevocationView,
};
use crate::error::StoreError;
use crate::sending_laws::sendable;
use vstd::prelude::*;

verus! {

/// Whether a revocation was signed about now: no more than a minute ago and no more
/// than five seconds ahead.
pub open spec fn signed_about(at_ms: u64, now_ms: i64) -> bool {
    now_ms - 60_000 <= at_ms <= now_ms + 5_000
}

/// Whether a tombstone is kept long enough: for seven days from now, and from the
/// moment at which the grant would have ended.
pub open spec fn kept_long_enough(until_ms: u64, now_ms: i64, expires_at_ms: i64) -> bool {
    until_ms >= now_ms + 604_800_000 && until_ms >= expires_at_ms + 604_800_000
}

/// A document that revokes a node is taken exactly where it is of a size that is sent,
/// is a revocation of that node in the current epoch, and was signed about now.
pub proof fn a_node_is_revoked_by_its_own_document(
    text: Seq<char>,
    parsed: Parsed<NodeRevocationView>,
    node: Seq<char>,
    now_ms: i64,
    epoch: i64,
)
    ensures
        ({
            let reply = node_revocation_document(text, parsed, node, now_ms, epoch);
            &&& reply is Ok <==> sendable(text) && match parsed {
                Parsed::Document { kind, epoch: signed, body } => kind
                    == DocumentKind::NodeRevocation && signed == epoch && body.issuer_epoch
                    == epoch && body.node_id == node && body.revoked_at_ms <= i64::MAX
                    && signed_about(body.revoked_at_ms, now_ms),
                _ => false,
            }
            &&& !sendable(text) ==> reply == Err::<(), StoreError>(
                StoreError::InvalidInput("node revocation document size"),
            )
            &&& sendable(text) && parsed is Unreadable ==> reply == Err::<(), StoreError>(
                StoreError::InvalidInput("node revocation document"),
            )
            &&& sendable(text) && parsed is BadBody ==> reply == Err::<(), StoreError>(
                StoreError::InvalidInput("node revocation body"),
            )
        }),
{
}

/// A document that moves a node to another key is taken exactly where it is of a size
/// that is sent, is a rotation of that node in the current epoch, and says what was
/// asked for.
pub proof fn a_key_is_rotated_by_its_own_document(
    text: Seq<char>,
    parsed: Parsed<NodeKeyRotationView>,
    expected: NodeKeyRotationView,
    node: Seq<char>,
    now_ms: i64,
    epoch: i64,
)
    ensures
        ({
            let reply = node_key_rotation_document(text, parsed, expected, node, now_ms, epoch);
            &&& reply is Ok <==> sendable(text) && now_ms > 0 && match parsed {
                Parsed::Document { kind, epoch: signed, body } => kind
                    == DocumentKind::NodeKeyRotation && signed == epoch && body.issuer_epoch
                    == epoch && body.node_id == node && body.rotation_id == expected.rotation_id
                    && body.node_id == expected.node_id && body.from_key_version
                    == expected.from_key_version && body.to_key_version == expected.to_key_version
                    && body.signing_public == expected.signing_public && body.recipient_public
                    == expected.recipient_public && body.fingerprint == expected.fingerprint
                    && body.issuer_epoch == expected.issuer_epoch,
                _ => false,
            }
            &&& !sendable(text) ==> reply == Err::<(), StoreError>(
                StoreError::InvalidInput("node key rotation document size"),
            )
            &&& sendable(text) && parsed is Unreadable ==> reply == Err::<(), StoreError>(
                StoreError::InvalidInput("node key rotation document"),
            )
            &&& sendable(text) && parsed is BadBody ==> reply == Err::<(), StoreError>(
                StoreError::InvalidInput("node key rotation body"),
            )
        }),
{
}

/// A document that revokes a grant together with its node is taken exactly where it is
/// of a size that is sent, is a revocation of that grant on that node for that reason
/// in the current epoch, was signed about now, and is kept long enough. The answer is
/// what the document says.
pub proof fn a_grant_goes_with_its_node_by_its_own_document(
    text: Seq<char>,
    parsed: Parsed<RevocationView>,
    grant: Seq<char>,
    node: Seq<char>,
    now_ms: i64,
    expires_at_ms: i64,
    epoch: i64,
    reason: Seq<char>,
)
    ensures
        ({
            let reply = node_grant_revocation(
                text,
                parsed,
                grant,
                node,
                now_ms,
                expires_at_ms,
                epoch,
                reason,
            );
            &&& reply is Ok <==> sendable(text) && match parsed {
                Parsed::Document { kind, epoch: signed, body } => kind == DocumentKind::Revocation
                    && signed == epoch && body.issuer_epoch == epoch && body.grant_id == grant
                    && body.node_id == node && body.reason == reason && body.revoked_at_ms
                    <= i64::MAX && body.retain_until_ms <= i64::MAX && signed_about(
                    body.revoked_at_ms,
                    now_ms,
                ) && kept_long_enough(body.retain_until_ms, now_ms, expires_at_ms),
                _ => false,
            }
            &&& reply is Ok ==> parsed is Document && reply->Ok_0 == parsed->body
            &&& !sendable(text) ==> reply == Err::<RevocationView, StoreError>(
                StoreError::InvalidInput("node revocation document size"),
            )
            &&& sendable(text)
                && parsed is Unreadable ==> reply == Err::<RevocationView, StoreError>(
                StoreError::InvalidInput("node revocation document"),
            )
            &&& sendable(text) && parsed is BadBody ==> reply == Err::<RevocationView, StoreError>(
                StoreError::InvalidInput("node revocation body"),
            )
        }),
{
}

/// A document that revokes a grant is taken exactly where it is of a size that is sent,
/// and is a revocation of that grant on that node for that reason, in the epoch under
/// which it was signed. The answer is what the document says.
pub proof fn a_grant_is_revoked_by_its_own_document(
    text: Seq<char>,
    parsed: Parsed<RevocationView>,
    grant: Seq<char>,
    node: Seq<char>,
    reason: Seq<char>,
)
    ensures
        ({
            let reply = grant_revocation(text, parsed, grant, node, reason);
            &&& reply is Ok <==> sendable(text) && match parsed {
                Parsed::Document { kind, epoch: signed, body } => kind == DocumentKind::Revocation
                    && signed == body.issuer_epoch && body.grant_id == grant && body.node_id
                    == node && body.reason == reason,
                _ => false,
            }
            &&& reply is Ok ==> parsed is Document && reply->Ok_0 == parsed->body
            &&& !sendable(text) ==> reply == Err::<RevocationView, StoreError>(
                StoreError::InvalidInput("revocation document size"),
            )
            &&& sendable(text)
                && parsed is Unreadable ==> reply == Err::<RevocationView, StoreError>(
                StoreError::InvalidInput("revocation document"),
            )
            &&& sendable(text) && parsed is BadBody ==> reply == Err::<RevocationView, StoreError>(
                StoreError::InvalidInput("revocation body"),
            )
        }),
{
}

/// The times of a revocation are taken exactly where it was signed about now and is
/// kept long enough.
pub proof fn a_revocation_is_signed_now_and_kept(
    revocation: RevocationView,
    now_ms: i64,
    expires_at_ms: i64,
)
    ensures
        revocation_time(revocation, now_ms, expires_at_ms) is Ok <==> revocation.revoked_at_ms
            <= i64::MAX && revocation.retain_until_ms <= i64::MAX && signed_about(
            revocation.revoked_at_ms,
            now_ms,
        ) && kept_long_enough(revocation.retain_until_ms, now_ms, expires_at_ms),
{
}

} // verus!
