//! What calls on identifiers, exit statuses, jobs and workers come to.

use vstd::arithmetic::div_mod::lemma_div_denominator;
use vstd::arithmetic::power::{lemma_pow0, lemma_pow_positive, pow};
use vstd::prelude::*;

use crate::big_endian::{
    be_bytes, be_value, lemma_be_bytes_len, lemma_u128_fits, lemma_value_of_bytes,
};
use crate::ident::{hex, hyphenated, Uuid};
use crate::job::{AvailableJob, JobId};
use crate::message::ExitStatus;
use crate::text::{decimal, digit, signed_decimal};
use crate::worker::{WorkerConfig, WorkerId};

verus! {

/// The nil identifier, and no other one, is nil.
pub proof fn law_only_nil_is_nil(id: Uuid, nil: Uuid, answer: bool)
    requires
        call_ensures(Uuid::nil, (), nil),
        call_ensures(Uuid::is_nil, (&id,), answer),
    ensures
        nil.value == 0,
        answer == (id == nil),
{
}

/// The digits of a number, counted from the most significant one.
proof fn lemma_digit_of_bytes(value: nat, width: nat, i: int)
    requires
        0 <= i < width,
    ensures
        be_bytes(value, width).len() == width,
        be_bytes(value, width)[i] as int == (value as int / pow(256, (width - 1 - i) as nat)) % 256,
    decreases width,
{
    lemma_be_bytes_len(value, width);
    lemma_be_bytes_len(value / 256, (width - 1) as nat);
    if i == width - 1 {
        lemma_pow0(256);
    } else {
        let rest = (width - 2 - i) as nat;
        lemma_digit_of_bytes(value / 256, (width - 1) as nat, i);
        lemma_pow_positive(256, rest);
        lemma_div_denominator(value as int, 256, pow(256, rest));
        reveal(pow);
        assert(pow(256, rest + 1) == 256 * pow(256, rest));
    }
}

/// The bytes of an identifier are its base-256 digits, most significant first.
pub proof fn law_bytes_of_an_identifier(id: Uuid, bytes: [u8; 16], i: int)
    requires
        call_ensures(Uuid::as_bytes, (&id,), bytes),
        0 <= i < 16,
    ensures
        bytes@[i] as int == (id.value as int / pow(256, (15 - i) as nat)) % 256,
{
    lemma_digit_of_bytes(id.value as nat, 16, i);
}

/// An identifier is read back from its bytes, and from nothing that is not sixteen bytes.
pub proof fn law_identifier_is_read_back(
    id: Uuid,
    bytes: [u8; 16],
    slice: &[u8],
    result: Result<Uuid, uuid::Error>,
)
    requires
        call_ensures(Uuid::as_bytes, (&id,), bytes),
        call_ensures(Uuid::from_slice, (slice,), result),
    ensures
        slice@ == bytes@ ==> result == Ok::<Uuid, uuid::Error>(id),
        result is Ok <==> slice@.len() == 16,
{
    lemma_u128_fits(id.value);
    lemma_value_of_bytes(id.value as nat, 16);
}

/// A fresh identifier is not nil and carries version 7 of the RFC variant.
pub proof fn law_fresh_identifier(id: Uuid)
    requires
        call_ensures(Uuid::now_v7, (), id),
    ensures
        id.value != 0,
        id.value as nat / 0x1000_0000_0000_0000_0000nat % 16 == 7,
        id.value as nat / 0x4000_0000_0000_0000nat % 4 == 2,
{
}

/// The text of an identifier is the lower case hexadecimal digits of its bytes, with hyphens behind
/// the fourth, sixth, eighth and tenth byte.
pub proof fn law_text_of_an_identifier(id: Uuid, bytes: [u8; 16], text: String, k: int)
    requires
        call_ensures(Uuid::as_bytes, (&id,), bytes),
        call_ensures(Uuid::to_string, (&id,), text),
        0 <= k < 16,
    ensures
        text@.len() == 36,
        text@[8] == '-',
        text@[13] == '-',
        text@[18] == '-',
        text@[23] == '-',
        ({
            let at = if k < 4 {
                2 * k
            } else if k < 6 {
                2 * k + 1
            } else if k < 8 {
                2 * k + 2
            } else if k < 10 {
                2 * k + 3
            } else {
                2 * k + 4
            };
            let high = bytes@[k] as int / 16;
            let low = bytes@[k] as int % 16;
            &&& text@[at] as int == if high < 10 {
                high + 48
            } else {
                high + 87
            }
            &&& text@[at + 1] as int == if low < 10 {
                low + 48
            } else {
                low + 87
            }
        }),
{
    let digits = hex(bytes@);
    assert(digits.len() == 32);
    assert((2 * k) % 2 == 0 && (2 * k) / 2 == k);
    assert((2 * k + 1) % 2 == 1 && (2 * k + 1) / 2 == k);
    assert(text@ == hyphenated(id.value));
    let nibble = bytes@[k] / 16;
    let other = bytes@[k] % 16;
    assert(digits[2 * k] as int == if nibble < 10 {
        nibble + 48
    } else {
        nibble + 87
    });
    assert(digits[2 * k + 1] as int == if other < 10 {
        other + 48
    } else {
        other + 87
    });
}

/// Reading the decimal digits of a number gives the number; they are digits, and the first one is
/// not zero unless it is the only one.
proof fn lemma_decimal(value: nat)
    ensures
        decimal(value).len() >= 1,
        decimal(value).fold_left(0int, |n: int, c: char| 10 * n + (c as int - 48)) == value,
        forall|i: int|
            0 <= i < decimal(value).len() ==> '0' <= #[trigger] decimal(value)[i] <= '9',
        decimal(value)[0] == '0' ==> value == 0 && decimal(value).len() == 1,
    decreases value,
{
    let f = |n: int, c: char| 10 * n + (c as int - 48);
    let text = decimal(value);
    if value < 10 {
        assert(text.drop_last() =~= Seq::<char>::empty());
        assert(digit(value) as int == value + 48);
        reveal_with_fuel(Seq::fold_left, 2);
    } else {
        lemma_decimal(value / 10);
        assert(text.drop_last() =~= decimal(value / 10));
        assert(digit(value % 10) as int == value % 10 + 48);
        assert(text.fold_left(0int, f) == f(text.drop_last().fold_left(0int, f), text.last()));
        if text[0] == '0' {
            assert(decimal(value / 10)[0] == '0');
        }
    }
}

/// The text of an exit code is the code in decimal: a minus sign where it is negative, and digits
/// that spell it, without leading zeros.
pub proof fn law_text_of_an_exit_code(code: i32, text: String)
    requires
        call_ensures(ExitStatus::to_string, (&ExitStatus::Code(code),), text),
    ensures
        ({
            let digits = if code < 0 {
                text@.skip(1)
            } else {
                text@
            };
            &&& code < 0 ==> text@.len() > 0 && text@[0] == '-'
            &&& digits.len() >= 1
            &&& digits.fold_left(0int, |n: int, c: char| 10 * n + (c as int - 48)) == if code < 0 {
                -(code as int)
            } else {
                code as int
            }
            &&& forall|i: int| 0 <= i < digits.len() ==> '0' <= #[trigger] digits[i] <= '9'
            &&& digits[0] == '0' ==> digits.len() == 1
        }),
{
    assert(text@ == signed_decimal(code as int));
    if code < 0 {
        lemma_decimal((-(code as int)) as nat);
        assert(text@.skip(1) =~= decimal((-(code as int)) as nat));
    } else {
        lemma_decimal(code as nat);
    }
}

/// A process that was ended by a signal has the exit status `signal`.
pub proof fn law_text_of_a_signal(text: String)
    requires
        call_ensures(ExitStatus::to_string, (&ExitStatus::Signal,), text),
    ensures
        text@ == "signal"@,
{
}

/// An available job gives back what it was made of.
pub proof fn law_job_gives_back_its_parts(
    job_id: JobId,
    capacity: u64,
    job: AvailableJob,
    job_id_again: JobId,
    capacity_again: u64,
)
    requires
        call_ensures(AvailableJob::new, (job_id, capacity), job),
        call_ensures(AvailableJob::job_id, (&job,), job_id_again),
        call_ensures(AvailableJob::runner_capacity_required, (&job,), capacity_again),
    ensures
        job_id_again == job_id,
        capacity_again == capacity,
{
}

/// The configuration of a worker gives back what it was made of.
pub proof fn law_worker_config_gives_back_its_parts(
    worker_id: WorkerId,
    capacity: u64,
    access_token: String,
    repo_owner: String,
    repo_name: String,
    commit_sha: String,
    exec_command: String,
    config: WorkerConfig,
    worker_id_again: WorkerId,
    capacity_again: u64,
    token_again: &str,
    owner_again: &str,
    name_again: &str,
    sha_again: &str,
    command_again: &str,
)
    requires
        call_ensures(
            WorkerConfig::new,
            (
                worker_id,
                capacity,
                access_token,
                repo_owner,
                repo_name,
                commit_sha,
                exec_command,
            ),
            config,
        ),
        call_ensures(WorkerConfig::worker_id, (&config,), worker_id_again),
        call_ensures(WorkerConfig::worker_capacity, (&config,), capacity_again),
        call_ensures(WorkerConfig::access_token, (&config,), token_again),
        call_ensures(WorkerConfig::repo_owner, (&config,), owner_again),
        call_ensures(WorkerConfig::repo_name, (&config,), name_again),
        call_ensures(WorkerConfig::commit_sha, (&config,), sha_again),
        call_ensures(WorkerConfig::exec, (&config,), command_again),
    ensures
        worker_id_again == worker_id,
        capacity_again == capacity,
        token_again@ == access_token@,
        owner_again@ == repo_owner@,
        name_again@ == repo_name@,
        sha_again@ == commit_sha@,
        command_again@ == exec_command@,
{
}

} // verus!
