//! What identifiers, numbers and answers look like as text.

use crate::approvals::stored_strings;
use crate::audit::read_metadata;
use crate::clock::summary_json;
use crate::error::StoreError;
use crate::ids::{base64_url, hex, sextet, uuid, uuid_bytes};
use crate::json::{json_strings, json_valid};
use crate::limits::{clamped, milliseconds, moment_after, request_status};
use crate::node_channel::challenge_id;
use crate::records::{ClockReconciliation, SecretRequestStatus};
use crate::text::{decimal, digits, is_space, trimmed, trimmed_back, trimmed_front};
use vstd::prelude::*;

verus! {

/// The value of a hexadecimal digit in lower case, or nothing.
pub open spec fn hex_value(c: char) -> Option<int> {
    if '0' <= c <= '9' {
        Some(c as int - '0' as int)
    } else if 'a' <= c <= 'f' {
        Some(c as int - 'a' as int + 10)
    } else {
        None
    }
}

/// Bytes are written as two hexadecimal digits each, from which they can be read back.
pub proof fn hexadecimal_is_read_back(bytes: Seq<u8>, i: int)
    requires
        0 <= i < bytes.len(),
    ensures
        hex(bytes).len() == 2 * bytes.len(),
        hex_value(hex(bytes)[2 * i]) is Some,
        hex_value(hex(bytes)[2 * i + 1]) is Some,
        hex_value(hex(bytes)[2 * i])->0 * 16 + hex_value(hex(bytes)[2 * i + 1])->0 == bytes[i],
{
    let high = bytes[i] as int / 16;
    let low = bytes[i] as int % 16;
    assert((2 * i) / 2 == i && (2 * i) % 2 == 0);
    assert((2 * i + 1) / 2 == i && (2 * i + 1) % 2 == 1);
    assert(0 <= high < 16 && 0 <= low < 16);
}

/// A fresh identifier has the five groups of a version four identifier, parted by
/// hyphens: its version digit is a four, and its variant digit is one from eight to
/// eleven. Every other byte that was drawn stands in it.
pub proof fn a_fresh_identifier_has_version_and_variant(drawn: Seq<u8>)
    requires
        drawn.len() == 16,
    ensures
        ({
            let id = uuid(drawn);
            &&& id.len() == 36
            &&& id[8] == '-' && id[13] == '-' && id[18] == '-' && id[23] == '-'
            &&& id[14] == '4'
            &&& hex_value(id[19]) is Some
            &&& 8 <= hex_value(id[19])->0 <= 11
        }),
        forall|k: int|
            0 <= k < 16 && k != 6 && k != 8 ==> #[trigger] uuid_bytes(drawn)[k] == drawn[k],
        uuid_bytes(drawn)[6] % 16 == drawn[6] % 16,
        uuid_bytes(drawn)[8] % 64 == drawn[8] % 64,
        uuid(drawn) == hex(uuid_bytes(drawn).subrange(0, 4)) + seq!['-'] + hex(
            uuid_bytes(drawn).subrange(4, 6),
        ) + seq!['-'] + hex(uuid_bytes(drawn).subrange(6, 8)) + seq!['-'] + hex(
            uuid_bytes(drawn).subrange(8, 10),
        ) + seq!['-'] + hex(uuid_bytes(drawn).subrange(10, 16)),
{
    let bytes = uuid_bytes(drawn);
    let one = hex(bytes.subrange(0, 4));
    let two = hex(bytes.subrange(4, 6));
    let three = hex(bytes.subrange(6, 8));
    let four = hex(bytes.subrange(8, 10));
    let five = hex(bytes.subrange(10, 16));
    assert(one.len() == 8 && two.len() == 4 && three.len() == 4 && four.len() == 4 && five.len()
        == 12);
    hexadecimal_is_read_back(bytes.subrange(6, 8), 0);
    hexadecimal_is_read_back(bytes.subrange(8, 10), 0);
    let id = uuid(drawn);
    assert(id[14] == three[0]);
    assert(id[19] == four[0]);
    assert(bytes.subrange(6, 8)[0] == bytes[6] && bytes.subrange(8, 10)[0] == bytes[8]);
    assert(64 <= bytes[6] < 80);
    assert(128 <= bytes[8] < 192);
}

/// The value of a digit of the alphabet that is safe in addresses, or nothing.
pub open spec fn base64_value(c: char) -> Option<int> {
    if 'A' <= c <= 'Z' {
        Some(c as int - 'A' as int)
    } else if 'a' <= c <= 'z' {
        Some(c as int - 'a' as int + 26)
    } else if '0' <= c <= '9' {
        Some(c as int - '0' as int + 52)
    } else if c == '-' {
        Some(62)
    } else if c == '_' {
        Some(63)
    } else {
        None
    }
}

proof fn lemma_base64_digit(bytes: Seq<u8>, i: int)
    requires
        0 <= i < base64_url(bytes).len(),
    ensures
        base64_value(base64_url(bytes)[i]) == Some(sextet(bytes, i)),
{
    assert(0 <= sextet(bytes, i) < 64);
}

/// A token has four digits for every three bytes, from which they can be read back.
pub proof fn a_token_is_read_back(bytes: Seq<u8>, k: int)
    requires
        0 <= k,
        3 * k + 2 < bytes.len(),
    ensures
        ({
            let text = base64_url(bytes);
            &&& 4 * k + 3 < text.len()
            &&& base64_value(text[4 * k]) is Some
            &&& base64_value(text[4 * k + 1]) is Some
            &&& base64_value(text[4 * k + 2]) is Some
            &&& base64_value(text[4 * k + 3]) is Some
            &&& base64_value(text[4 * k])->0 * 262_144 + base64_value(text[4 * k + 1])->0 * 4_096
                + base64_value(text[4 * k + 2])->0 * 64 + base64_value(text[4 * k + 3])->0
                    == bytes[3
                * k] * 65_536 + bytes[3 * k + 1] * 256 + bytes[3 * k + 2]
        }),
{
    lemma_base64_digit(bytes, 4 * k);
    lemma_base64_digit(bytes, 4 * k + 1);
    lemma_base64_digit(bytes, 4 * k + 2);
    lemma_base64_digit(bytes, 4 * k + 3);
    let a = bytes[3 * k] as int;
    let b = bytes[3 * k + 1] as int;
    let c = bytes[3 * k + 2] as int;
    let d = if 3 * k + 3 < bytes.len() {
        bytes[3 * k + 3] as int
    } else {
        0
    };
    assert(6 * (4 * k) / 8 == 3 * k && 6 * (4 * k) % 8 == 0);
    assert(6 * (4 * k + 1) / 8 == 3 * k && 6 * (4 * k + 1) % 8 == 6);
    assert(6 * (4 * k + 2) / 8 == 3 * k + 1 && 6 * (4 * k + 2) % 8 == 4);
    assert(6 * (4 * k + 3) / 8 == 3 * k + 2 && 6 * (4 * k + 3) % 8 == 2);
    assert(sextet(bytes, 4 * k) == (a * 256 + b) / 1024 % 64);
    assert(sextet(bytes, 4 * k + 1) == (a * 256 + b) / 16 % 64);
    assert(sextet(bytes, 4 * k + 2) == (b * 256 + c) / 64 % 64);
    assert(sextet(bytes, 4 * k + 3) == (c * 256 + d) / 256 % 64);
    lemma_sextets(a, b, c, d);
}

/// How three bytes lie in four digits.
proof fn lemma_sextets(a: int, b: int, c: int, d: int)
    requires
        0 <= a < 256,
        0 <= b < 256,
        0 <= c < 256,
        0 <= d < 256,
    ensures
        (a * 256 + b) / 1024 % 64 == a / 4,
        (a * 256 + b) / 16 % 64 == (a % 4) * 16 + b / 16,
        (b * 256 + c) / 64 % 64 == (b % 16) * 4 + c / 64,
        (c * 256 + d) / 256 % 64 == c % 64,
{
    lemma_quotient(a * 256 + b, 1024, a / 4, (a % 4) * 256 + b);
    lemma_quotient(a * 256 + b, 16, a * 16 + b / 16, b % 16);
    lemma_remainder(a * 16 + b / 16, 64, a / 4, (a % 4) * 16 + b / 16);
    lemma_quotient(b * 256 + c, 64, b * 4 + c / 64, c % 64);
    lemma_remainder(b * 4 + c / 64, 64, b / 16, (b % 16) * 4 + c / 64);
    lemma_quotient(c * 256 + d, 256, c, d);
}

proof fn lemma_quotient(x: int, divisor: int, q: int, r: int)
    requires
        0 <= r < divisor,
        x == q * divisor + r,
    ensures
        x / divisor == q,
{
    vstd::arithmetic::div_mod::lemma_fundamental_div_mod_converse(x, divisor, q, r);
}

proof fn lemma_remainder(x: int, divisor: int, q: int, r: int)
    requires
        0 <= r < divisor,
        x == q * divisor + r,
    ensures
        x % divisor == r,
{
    vstd::arithmetic::div_mod::lemma_fundamental_div_mod_converse(x, divisor, q, r);
}

/// A token of thirty-two bytes has forty-three digits.
pub proof fn a_token_has_forty_three_digits(bytes: Seq<u8>)
    requires
        bytes.len() == 32,
    ensures
        base64_url(bytes).len() == 43,
        hex(bytes).len() == 64,
{
}

/// The identifier of a challenge is marked as one.
pub proof fn a_challenge_is_marked(id: Seq<char>)
    ensures
        challenge_id(id).len() == id.len() + 3,
        challenge_id(id).skip(3) == id,
        challenge_id(id)[0] == 'c' && challenge_id(id)[1] == 'h' && challenge_id(id)[2] == '_',
{
    reveal_strlit("ch_");
    assert("ch_"@.len() == 3);
    assert(challenge_id(id).skip(3) =~= id);
}

/// The number that decimal digits stand for.
pub open spec fn number(text: Seq<char>) -> int
    decreases text.len(),
{
    if text.len() == 0 {
        0
    } else {
        number(text.drop_last()) * 10 + (text.last() as int - '0' as int)
    }
}

/// A number is written in decimal digits, without a zero in front, and reads back.
pub proof fn a_number_is_read_back(n: nat)
    ensures
        number(digits(n)) == n,
        digits(n).len() > 0,
        forall|k: int| 0 <= k < digits(n).len() ==> '0' <= #[trigger] digits(n)[k] <= '9',
        n > 0 ==> digits(n)[0] != '0',
    decreases n,
{
    if n >= 10 {
        a_number_is_read_back(n / 10);
        assert(digits(n).drop_last() =~= digits(n / 10));
    } else {
        assert(digits(n).drop_last() =~= Seq::empty());
        assert(number(Seq::<char>::empty()) == 0);
    }
}

/// A negative number is written with a sign in front, every other one without.
pub proof fn a_signed_number_is_read_back(n: i64)
    ensures
        n >= 0 ==> number(decimal(n)) == n && decimal(n)[0] != '-',
        n < 0 ==> decimal(n)[0] == '-' && number(decimal(n).skip(1)) == -n,
{
    if n < 0 {
        a_number_is_read_back((-n) as nat);
        assert(decimal(n).skip(1) =~= digits((-n) as nat));
    } else {
        a_number_is_read_back(n as nat);
    }
}

/// What is told of a reconciliation names each of its counts.
pub proof fn a_reconciliation_is_told_count_by_count(s: ClockReconciliation)
    ensures
        summary_json(s) == "{\"regression_detected\":"@ + (if s.regression_detected {
            "true"@
        } else {
            "false"@
        }) + ",\"persisted_ms\":"@ + decimal(s.persisted_ms) + ",\"database_now_ms\":"@ + decimal(
            s.database_now_ms,
        ) + ",\"removed_secret_requests\":"@ + digits(s.removed_secret_requests as nat)
            + ",\"removed_exchanges\":"@ + digits(s.removed_exchanges as nat)
            + ",\"removed_approvals\":"@ + digits(s.removed_approvals as nat)
            + ",\"removed_bootstrap_tokens\":"@ + digits(s.removed_bootstrap_tokens as nat)
            + ",\"removed_rate_windows\":"@ + digits(s.removed_rate_windows as nat)
            + ",\"removed_idempotency_keys\":"@ + digits(s.removed_idempotency_keys as nat)
            + ",\"revoked_sessions\":"@ + digits(s.revoked_sessions as nat) + "}"@,
{
}

/// Each error is told by its own text, with the field that it names.
pub proof fn an_error_is_told_by_its_text(field: &'static str)
    ensures
        StoreError::InvalidInput(field).text() == "invalid store input: "@ + field@,
        StoreError::MissingState(field).text() == "controller state is missing: "@ + field@,
        StoreError::UnsupportedSchemaVersion.text() == "controller schema version is unsupported"@,
        StoreError::ClockRegression.text() == "controller database clock regressed"@,
        StoreError::ClockFenced.text() == "controller clock is fenced"@,
        StoreError::ClockSourceUnavailable.text() == "controller clock source is unavailable"@,
        forall|fault: crate::error::DatabaseFault| #[trigger]
            StoreError::Database(fault).text() == "controller database operation failed"@,
{
}

/// Only what is pending or submitted is the status of a secret request.
pub proof fn a_request_is_pending_or_submitted(status: Seq<char>)
    ensures
        request_status(status) == if status == "pending"@ {
            Ok::<SecretRequestStatus, StoreError>(SecretRequestStatus::Pending)
        } else if status == "submitted"@ {
            Ok(SecretRequestStatus::Submitted)
        } else {
            Err(StoreError::MissingState("secret request status"))
        },
{
}

/// What was stored as a list is read as it was, and as nothing where it is no list;
/// metadata is read as it was, and as null where it is no JSON.
pub proof fn what_is_no_json_is_read_as_nothing(text: Seq<char>)
    ensures
        json_strings(text) is Some ==> stored_strings(text) == json_strings(text)->0,
        json_strings(text) is None ==> stored_strings(text).len() == 0,
        json_valid(text) ==> read_metadata(text) == text,
        !json_valid(text) ==> read_metadata(text) == "null"@,
{
}

/// A time to live is a positive number of seconds whose milliseconds fit; a deadline is
/// that long after now, where it fits; and what does not fit is held at the bound.
pub proof fn durations_are_counted_in_milliseconds(
    seconds: u64,
    now_ms: i64,
    duration_ms: i64,
    value: int,
)
    ensures
        milliseconds(seconds) == if seconds == 0 || seconds * 1_000 > i64::MAX {
            None::<i64>
        } else {
            Some((seconds * 1_000) as i64)
        },
        moment_after(Some(now_ms), duration_ms) is Some <==> i64::MIN <= now_ms + duration_ms
            <= i64::MAX,
        moment_after(Some(now_ms), duration_ms) is Some ==> moment_after(
            Some(now_ms),
            duration_ms,
        )->0 == now_ms + duration_ms,
        moment_after(None, duration_ms) is None,
        i64::MIN <= value <= i64::MAX ==> clamped(value) == value,
        value > i64::MAX ==> clamped(value) == i64::MAX,
        value < i64::MIN ==> clamped(value) == i64::MIN,
{
}

/// Trimming a text keeps a part of it, without spaces at its ends, and cuts off nothing
/// but spaces.
pub proof fn trimming_cuts_off_spaces(text: Seq<char>)
    ensures
        trimmed(text).len() > 0 ==> !is_space(trimmed(text)[0]) && !is_space(trimmed(text).last()),
        exists|i: int, j: int| #[trigger] is_cut(text, i, j),
{
    lemma_front(text);
    let front = trimmed_front(text);
    lemma_back(front);
    let i = text.len() - front.len();
    let j = i + trimmed(text).len();
    assert(front =~= text.subrange(i, text.len() as int));
    assert(trimmed(text) =~= text.subrange(i, j));
    assert forall|k: int| j <= k < text.len() implies is_space(#[trigger] text[k]) by {
        assert(front[k - i] == text[k]);
    }
    assert(is_cut(text, i, j));
    if trimmed(text).len() > 0 {
        assert(trimmed(text)[0] == front[0]);
    }
}

/// Whether the part between two places is what a text is trimmed to, with nothing but
/// spaces before and behind.
pub open spec fn is_cut(text: Seq<char>, i: int, j: int) -> bool {
    &&& 0 <= i <= j <= text.len()
    &&& trimmed(text) == text.subrange(i, j)
    &&& forall|k: int| 0 <= k < i ==> is_space(#[trigger] text[k])
    &&& forall|k: int| j <= k < text.len() ==> is_space(#[trigger] text[k])
}

proof fn lemma_front(text: Seq<char>)
    ensures
        ({
            let front = trimmed_front(text);
            let i = text.len() - front.len();
            &&& 0 <= i
            &&& front == text.subrange(i, text.len() as int)
            &&& forall|k: int| 0 <= k < i ==> is_space(#[trigger] text[k])
            &&& front.len() > 0 ==> !is_space(front[0])
        }),
    decreases text.len(),
{
    if text.len() > 0 && is_space(text[0]) {
        let rest = text.skip(1);
        lemma_front(rest);
        let front = trimmed_front(text);
        let i = text.len() - front.len();
        assert(front =~= text.subrange(i, text.len() as int));
        assert forall|k: int| 0 <= k < i implies is_space(#[trigger] text[k]) by {
            if k > 0 {
                assert(rest[k - 1] == text[k]);
            }
        }
    } else {
        assert(text =~= text.subrange(0, text.len() as int));
    }
}

proof fn lemma_back(text: Seq<char>)
    ensures
        ({
            let back = trimmed_back(text);
            &&& back.len() <= text.len()
            &&& back == text.subrange(0, back.len() as int)
            &&& forall|k: int| back.len() <= k < text.len() ==> is_space(#[trigger] text[k])
            &&& back.len() > 0 ==> !is_space(back.last())
        }),
    decreases text.len(),
{
    if text.len() > 0 && is_space(text.last()) {
        let rest = text.drop_last();
        lemma_back(rest);
        let back = trimmed_back(text);
        assert(back =~= text.subrange(0, back.len() as int));
        assert forall|k: int| back.len() <= k < text.len() implies is_space(#[trigger] text[k]) by {
            if k < rest.len() {
                assert(rest[k] == text[k]);
            }
        }
    } else {
        assert(text =~= text.subrange(0, text.len() as int));
    }
}

} // verus!
