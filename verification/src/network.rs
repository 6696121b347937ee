//! The rules that a client of the proving network follows.
//!
//! The client itself talks to the network and is no part of this library.
//! Here is what it decides between two exchanges: how a key hash is read,
//! when a proof is due, what is asked for, and what an answer means.

use alloy_primitives::hex::FromHexError;
use alloy_primitives::B256;
use std::str::FromStr;
use vstd::prelude::*;
use vstd::string::StringExecFns;

verus! {

/// Why `alloy_primitives` refused a text. Nothing is read of it.
#[verifier::external_type_specification]
#[verifier::external_body]
pub struct ExFromHexError(alloy_primitives::hex::FromHexError);

/// The status code with which the network says that it has no such entity.
pub const NOT_FOUND: i32 = 5;

/// The status code with which the network says that it cannot serve now.
pub const UNAVAILABLE: i32 = 14;

/// The pause before the second attempt, in milliseconds.
pub const FIRST_PAUSE_MS: u64 = 1000;

/// The longest pause between two attempts, in milliseconds.
pub const LONGEST_PAUSE_MS: u64 = 120000;

/// How an exchange with the network failed.
#[derive(Clone, Debug, PartialEq, Eq)]
pub struct RpcStatus {
    pub code: i32,
    pub message: String,
}

/// How far the network has come with a proof request.
#[derive(Clone, Copy, Debug, PartialEq, Eq, Structural)]
pub enum FulfillmentStatus {
    Unspecified,
    Requested,
    Assigned,
    Fulfilled,
    Unfulfillable,
}

/// Why the status of a proof request could not be used.
#[derive(Clone, Copy, Debug, PartialEq, Eq, Structural)]
pub enum StatusError {
    /// The network sent a status that does not exist.
    UnknownStatus(i32),
    /// The request is fulfilled, but the answer names no proof.
    NoProofUri,
}

/// The text is no hash of a verifying key.
#[derive(Clone, Copy, Debug, PartialEq, Eq, Structural)]
pub struct InvalidVkHash;

/// What is left to do to have a program registered.
#[derive(Clone, Copy, Debug, PartialEq, Eq, Structural)]
pub enum Registration {
    /// The network knows the program.
    Registered,
    /// The program has to be created.
    Create,
}

/// The value of a hexadecimal digit, in either case.
pub open spec fn hex_value(c: char) -> Option<int> {
    let n = c as u32 as int;
    if 48 <= n <= 57 {
        Some(n - 48)
    } else if 65 <= n <= 70 {
        Some(n - 55)
    } else if 97 <= n <= 102 {
        Some(n - 87)
    } else {
        None
    }
}

/// `text` without a leading `0x` or `0X`.
pub open spec fn strip_hex_prefix(text: Seq<char>) -> Seq<char> {
    if text.len() >= 2 && text[0] == '0' && (text[1] == 'x' || text[1] == 'X') {
        text.skip(2)
    } else {
        text
    }
}

/// The 32 bytes that `text` spells: after an optional prefix, 64
/// hexadecimal digits, two to a byte, the high digit first.
pub open spec fn parse_bytes32(text: Seq<char>) -> Option<Seq<u8>> {
    let digits = strip_hex_prefix(text);
    if digits.len() == 64 && forall|i: int| 0 <= i < 64 ==> hex_value(#[trigger] digits[i]) is Some {
        Some(
            Seq::new(
                32,
                |i: int|
                    (16 * hex_value(digits[2 * i]).unwrap() + hex_value(
                        digits[2 * i + 1],
                    ).unwrap()) as u8,
            ),
        )
    } else {
        None
    }
}

/// The status that the number `value` stands for on the wire.
pub open spec fn status_of(value: i32) -> Option<FulfillmentStatus> {
    if value == 0 {
        Some(FulfillmentStatus::Unspecified)
    } else if value == 1 {
        Some(FulfillmentStatus::Requested)
    } else if value == 2 {
        Some(FulfillmentStatus::Assigned)
    } else if value == 3 {
        Some(FulfillmentStatus::Fulfilled)
    } else if value == 4 {
        Some(FulfillmentStatus::Unfulfillable)
    } else {
        None
    }
}

/// The pause after `failures` failed attempts in a row, in milliseconds:
/// the first pause, doubled with every further failure, and never longer
/// than the longest pause.
pub open spec fn pause_after(failures: nat) -> nat
    decreases failures,
{
    if failures <= 1 {
        FIRST_PAUSE_MS as nat
    } else if 2 * pause_after((failures - 1) as nat) >= LONGEST_PAUSE_MS {
        LONGEST_PAUSE_MS as nat
    } else {
        2 * pause_after((failures - 1) as nat)
    }
}

/// `B256::from_str` of `alloy_primitives`: the hash that `text` spells. It
/// takes an optional `0x` or `0X`, then exactly 64 hexadecimal digits of
/// either case, and refuses every other text.
#[verifier::external_body]
fn b256_from_str(text: &str) -> (hash: Result<[u8; 32], FromHexError>)
    ensures
        hash is Ok <==> parse_bytes32(text@) is Some,
        hash matches Ok(bytes) ==> Some(bytes@) == parse_bytes32(text@),
{
    B256::from_str(text).map(|hash| hash.0)
}

impl FulfillmentStatus {
    /// The status that `value` stands for, if there is one.
    pub fn from_i32(value: i32) -> (status: Option<FulfillmentStatus>)
        ensures
            status == status_of(value),
    {
        if value == 0 {
            Some(FulfillmentStatus::Unspecified)
        } else if value == 1 {
            Some(FulfillmentStatus::Requested)
        } else if value == 2 {
            Some(FulfillmentStatus::Assigned)
        } else if value == 3 {
            Some(FulfillmentStatus::Fulfilled)
        } else if value == 4 {
            Some(FulfillmentStatus::Unfulfillable)
        } else {
            None
        }
    }
}

/// The hash that identifies a program, read from the text in which a
/// verifying key gives it.
pub fn get_vk_hash(vk_bytes32: &str) -> (hash: Result<[u8; 32], InvalidVkHash>)
    ensures
        match parse_bytes32(vk_bytes32@) {
            Some(bytes) => hash matches Ok(found) && found@ == bytes,
            None => hash == Err::<[u8; 32], InvalidVkHash>(InvalidVkHash),
        },
{
    match b256_from_str(vk_bytes32) {
        Ok(bytes) => Ok(bytes),
        Err(_) => Err(InvalidVkHash),
    }
}

/// What an attempt to look a program up means: the program where the
/// network has it, nothing where the network says that it has none, and the
/// failure where the attempt failed otherwise.
pub fn found_program<T>(outcome: Result<T, RpcStatus>) -> (program: Result<Option<T>, RpcStatus>)
    ensures
        program == match outcome {
            Ok(response) => Ok::<Option<T>, RpcStatus>(Some(response)),
            Err(status) => if status.code == NOT_FOUND {
                Ok(None)
            } else {
                Err(status)
            },
        },
{
    match outcome {
        Ok(response) => Ok(Some(response)),
        Err(status) => if status.code == NOT_FOUND {
            Ok(None)
        } else {
            Err(status)
        },
    }
}

/// A program is created only where the network does not know it yet.
pub fn registration_step<T>(program: &Option<T>) -> (step: Registration)
    ensures
        step == if program is Some {
            Registration::Registered
        } else {
            Registration::Create
        },
{
    match program {
        Some(_) => Registration::Registered,
        None => Registration::Create,
    }
}

/// The second, counted from the epoch, by which a proof asked for at
/// `now_secs` with `timeout_secs` to spare is due.
pub fn deadline(now_secs: u64, timeout_secs: u64) -> (due: u64)
    requires
        now_secs + timeout_secs <= u64::MAX,
    ensures
        due == now_secs + timeout_secs,
{
    now_secs + timeout_secs
}

/// The name under which the network knows the circuits of `version`.
pub fn circuit_version(version: &str) -> (name: String)
    ensures
        name@ == "sp1-"@ + version@,
{
    "sp1-".to_owned().concat(version)
}

/// Whether a failed exchange may succeed when it is tried again: only
/// where the network could not serve at the time.
pub fn is_transient(status: &RpcStatus) -> (yes: bool)
    ensures
        yes == (status.code == UNAVAILABLE),
{
    status.code == UNAVAILABLE
}

/// How long to wait before the next attempt, in milliseconds, after
/// `failures` failed attempts that took `elapsed_ms` together: nothing more
/// is tried once `timeout_ms` have passed.
pub fn retry_pause(failures: u32, elapsed_ms: u64, timeout_ms: u64) -> (pause: Option<u64>)
    ensures
        pause == if elapsed_ms < timeout_ms {
            Some(pause_after(failures as nat) as u64)
        } else {
            None
        },
        pause matches Some(ms) ==> FIRST_PAUSE_MS <= ms <= LONGEST_PAUSE_MS,
{
    if elapsed_ms >= timeout_ms {
        return None;
    }
    let mut pause: u64 = FIRST_PAUSE_MS;
    let mut counted: u32 = 1;
    while counted < failures && pause < LONGEST_PAUSE_MS
        invariant
            1 <= counted,
            counted <= failures || failures == 0,
            failures == 0 ==> counted == 1,
            pause == pause_after(counted as nat),
            FIRST_PAUSE_MS <= pause <= LONGEST_PAUSE_MS,
        decreases failures - counted,
    {
        counted = counted + 1;
        pause = if 2 * pause >= LONGEST_PAUSE_MS {
            LONGEST_PAUSE_MS
        } else {
            2 * pause
        };
    }
    proof {
        if counted < failures {
            lemma_pause_stays(counted as nat, failures as nat);
        }
    }
    Some(pause)
}

/// Once the longest pause is reached, every later pause is the longest.
pub proof fn lemma_pause_stays(reached: nat, later: nat)
    requires
        pause_after(reached) == LONGEST_PAUSE_MS,
        reached <= later,
    ensures
        pause_after(later) == LONGEST_PAUSE_MS,
    decreases later,
{
    if reached < later {
        lemma_pause_stays(reached, (later - 1) as nat);
    }
}

/// Whether an HTTP status says that a transfer went well: 200 to 299.
pub fn is_success(http_status: u16) -> (yes: bool)
    ensures
        yes == (200 <= http_status < 300),
{
    200 <= http_status && http_status < 300
}

/// Where the proof of a request is to be had, going by the answer to a
/// status query: at the address that the answer names where the request is
/// fulfilled, nowhere yet where it is not.
pub fn proof_to_fetch(fulfillment_status: i32, proof_uri: Option<String>) -> (uri: Result<
    Option<String>,
    StatusError,
>)
    ensures
        uri == match status_of(fulfillment_status) {
            None => Err::<Option<String>, StatusError>(
                StatusError::UnknownStatus(fulfillment_status),
            ),
            Some(FulfillmentStatus::Fulfilled) => match proof_uri {
                Some(at) => Ok(Some(at)),
                None => Err(StatusError::NoProofUri),
            },
            Some(_) => Ok(None),
        },
{
    match FulfillmentStatus::from_i32(fulfillment_status) {
        None => Err(StatusError::UnknownStatus(fulfillment_status)),
        Some(FulfillmentStatus::Fulfilled) => match proof_uri {
            Some(at) => Ok(Some(at)),
            None => Err(StatusError::NoProofUri),
        },
        Some(_) => Ok(None),
    }
}

} // verus!
