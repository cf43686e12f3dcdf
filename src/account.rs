//! The packed aggregator account: its types, its byte layout, and the rule that picks
//! the authoritative price out of it.
use vstd::prelude::*;
use crate::bytes::{
    is_flag, le_u128_at, le_u32_at, le_u64_at, read_array, read_flag, read_i128, read_i64,
    read_u32, read_u64, signed128, signed64,
};
use crate::decimal::SwitchboardDecimal;
use crate::error::SwitchboardError;

verus! {

/// A 32-byte account address.
pub type Pubkey = [u8; 32];

/// Bytes of the account-type tag in front of the account's fields.
pub const DISCRIMINATOR_LEN: usize = 8;

/// Bytes of one packed round.
pub const ROUND_LEN: usize = 1097;

/// Bytes of the packed account, tag excluded.
pub const ACCOUNT_LEN: usize = 3843;

/// How the authoritative price is chosen.
#[derive(Debug, Clone, Copy, PartialEq, Eq, Structural)]
pub enum AggregatorResolutionMode {
    /// The latest confirmed round's result, if that round met the quorum.
    ModeRoundResolution,
    /// The latest confirmed result, kept by the oracle network over a sliding window.
    ModeSlidingResolution,
}

/// A 32-byte digest of a job definition.
#[derive(Debug, Clone, Copy, PartialEq, Eq, Default)]
pub struct Hash {
    pub data: [u8; 32],
}

/// One round of oracle responses and its aggregate statistics. Slot `i` of the five
/// per-oracle arrays belongs to one oracle.
#[derive(Debug, Clone, Copy, PartialEq, Eq, Default)]
pub struct AggregatorRound {
    pub num_success: u32,
    pub num_error: u32,
    pub is_closed: bool,
    pub round_open_slot: u64,
    pub round_open_timestamp: i64,
    /// The median of the successful responses.
    pub result: SwitchboardDecimal,
    pub std_deviation: SwitchboardDecimal,
    pub min_response: SwitchboardDecimal,
    pub max_response: SwitchboardDecimal,
    pub oracle_pubkeys_data: [Pubkey; 16],
    pub medians_data: [SwitchboardDecimal; 16],
    pub current_payout: [i64; 16],
    pub medians_fulfilled: [bool; 16],
    pub errors_fulfilled: [bool; 16],
}

/// An oracle aggregator: configuration, the latest confirmed and the current round, and
/// its job references.
#[derive(Debug, Clone, Copy, PartialEq, Eq)]
pub struct AggregatorAccountData {
    pub name: [u8; 32],
    pub metadata: [u8; 128],
    pub _reserved1: [u8; 32],
    pub queue_pubkey: Pubkey,
    /// Oracles assigned to one update request.
    pub oracle_request_batch_size: u32,
    /// Successful responses a round needs to be trusted (the quorum).
    pub min_oracle_results: u32,
    pub min_job_results: u32,
    pub min_update_delay_seconds: u32,
    pub start_after: i64,
    pub variance_threshold: SwitchboardDecimal,
    pub force_report_period: i64,
    pub expiration: i64,
    pub consecutive_failure_count: u64,
    pub next_allowed_update_time: i64,
    pub is_locked: bool,
    pub crank_pubkey: Pubkey,
    pub latest_confirmed_round: AggregatorRound,
    pub current_round: AggregatorRound,
    pub job_pubkeys_data: [Pubkey; 16],
    pub job_hashes: [Hash; 16],
    pub job_pubkeys_size: u32,
    pub jobs_checksum: [u8; 32],
    pub authority: Pubkey,
    pub history_buffer: Pubkey,
    pub previous_confirmed_round_result: SwitchboardDecimal,
    pub previous_confirmed_round_slot: u64,
    pub disable_crank: bool,
    pub job_weights: [u8; 16],
    pub creation_timestamp: i64,
    pub resolution_mode: AggregatorResolutionMode,
    pub _ebuf: [u8; 138],
}

/// The tag that opens every aggregator account.
pub open spec fn aggregator_discriminator() -> Seq<u8> {
    seq![217u8, 230u8, 65u8, 101u8, 201u8, 162u8, 27u8, 125u8]
}

/// `d` is the 20-byte decimal at `off`: 16 bytes of mantissa, then 4 of scale.
pub open spec fn decimal_at(d: SwitchboardDecimal, b: Seq<u8>, off: int) -> bool {
    &&& d.mantissa == signed128(le_u128_at(b, off))
    &&& d.scale == le_u32_at(b, off + 16)
}

/// The resolution mode that a tag byte stands for.
pub open spec fn mode_of(v: u8) -> AggregatorResolutionMode {
    if v == 1 {
        AggregatorResolutionMode::ModeSlidingResolution
    } else {
        AggregatorResolutionMode::ModeRoundResolution
    }
}

/// Every boolean byte of the round at `off` is 0 or 1.
pub open spec fn round_flags_ok(b: Seq<u8>, off: int) -> bool {
    &&& is_flag(b[off + 8])
    &&& forall|i: int| 0 <= i < 16 ==> #[trigger] is_flag(b[off + 1065 + i])
    &&& forall|i: int| 0 <= i < 16 ==> #[trigger] is_flag(b[off + 1081 + i])
}

/// `r` is the packed round at `off`.
pub open spec fn round_at(r: AggregatorRound, b: Seq<u8>, off: int) -> bool {
    &&& r.num_success == le_u32_at(b, off)
    &&& r.num_error == le_u32_at(b, off + 4)
    &&& r.is_closed == (b[off + 8] == 1)
    &&& r.round_open_slot == le_u64_at(b, off + 9)
    &&& r.round_open_timestamp == signed64(le_u64_at(b, off + 17))
    &&& decimal_at(r.result, b, off + 25)
    &&& decimal_at(r.std_deviation, b, off + 45)
    &&& decimal_at(r.min_response, b, off + 65)
    &&& decimal_at(r.max_response, b, off + 85)
    &&& forall|i: int|
        0 <= i < 16 ==> (#[trigger] r.oracle_pubkeys_data[i])@ == b.subrange(
            off + 105 + 32 * i,
            off + 137 + 32 * i,
        )
    &&& forall|i: int| 0 <= i < 16 ==> decimal_at(#[trigger] r.medians_data[i], b, off + 617 + 20 * i)
    &&& forall|i: int|
        0 <= i < 16 ==> #[trigger] r.current_payout[i] == signed64(le_u64_at(b, off + 937 + 8 * i))
    &&& forall|i: int| 0 <= i < 16 ==> #[trigger] r.medians_fulfilled[i] == (b[off + 1065 + i] == 1)
    &&& forall|i: int| 0 <= i < 16 ==> #[trigger] r.errors_fulfilled[i] == (b[off + 1081 + i] == 1)
}

/// Every boolean and tag byte of the account at `off` is valid.
pub open spec fn account_flags_ok(b: Seq<u8>, off: int) -> bool {
    &&& is_flag(b[off + 300])
    &&& round_flags_ok(b, off + 333)
    &&& round_flags_ok(b, off + 1430)
    &&& is_flag(b[off + 3679])
    &&& is_flag(b[off + 3704])
}

/// `a` is the packed account at `off`.
pub open spec fn account_at(a: AggregatorAccountData, b: Seq<u8>, off: int) -> bool {
    &&& a.name@ == b.subrange(off, off + 32)
    &&& a.metadata@ == b.subrange(off + 32, off + 160)
    &&& a._reserved1@ == b.subrange(off + 160, off + 192)
    &&& a.queue_pubkey@ == b.subrange(off + 192, off + 224)
    &&& a.oracle_request_batch_size == le_u32_at(b, off + 224)
    &&& a.min_oracle_results == le_u32_at(b, off + 228)
    &&& a.min_job_results == le_u32_at(b, off + 232)
    &&& a.min_update_delay_seconds == le_u32_at(b, off + 236)
    &&& a.start_after == signed64(le_u64_at(b, off + 240))
    &&& decimal_at(a.variance_threshold, b, off + 248)
    &&& a.force_report_period == signed64(le_u64_at(b, off + 268))
    &&& a.expiration == signed64(le_u64_at(b, off + 276))
    &&& a.consecutive_failure_count == le_u64_at(b, off + 284)
    &&& a.next_allowed_update_time == signed64(le_u64_at(b, off + 292))
    &&& a.is_locked == (b[off + 300] == 1)
    &&& a.crank_pubkey@ == b.subrange(off + 301, off + 333)
    &&& round_at(a.latest_confirmed_round, b, off + 333)
    &&& round_at(a.current_round, b, off + 1430)
    &&& forall|i: int|
        0 <= i < 16 ==> (#[trigger] a.job_pubkeys_data[i])@ == b.subrange(
            off + 2527 + 32 * i,
            off + 2559 + 32 * i,
        )
    &&& forall|i: int|
        0 <= i < 16 ==> (#[trigger] a.job_hashes[i]).data@ == b.subrange(
            off + 3039 + 32 * i,
            off + 3071 + 32 * i,
        )
    &&& a.job_pubkeys_size == le_u32_at(b, off + 3551)
    &&& a.jobs_checksum@ == b.subrange(off + 3555, off + 3587)
    &&& a.authority@ == b.subrange(off + 3587, off + 3619)
    &&& a.history_buffer@ == b.subrange(off + 3619, off + 3651)
    &&& decimal_at(a.previous_confirmed_round_result, b, off + 3651)
    &&& a.previous_confirmed_round_slot == le_u64_at(b, off + 3671)
    &&& a.disable_crank == (b[off + 3679] == 1)
    &&& a.job_weights@ == b.subrange(off + 3680, off + 3696)
    &&& a.creation_timestamp == signed64(le_u64_at(b, off + 3696))
    &&& a.resolution_mode == mode_of(b[off + 3704])
    &&& a._ebuf@ == b.subrange(off + 3705, off + 3843)
}

/// The image of an account whose every byte is zero.
pub open spec fn zero_image() -> Seq<u8> {
    Seq::new(ACCOUNT_LEN as nat, |i: int| 0u8)
}

fn read_decimal(b: &[u8], off: usize) -> (r: SwitchboardDecimal)
    requires
        off + 20 <= b@.len(),
    ensures
        decimal_at(r, b@, off as int),
{
    let _len: usize = b.len();
    SwitchboardDecimal { mantissa: read_i128(b, off), scale: read_u32(b, off + 16) }
}

fn read_round(b: &[u8], off: usize) -> (r: Option<AggregatorRound>)
    requires
        off + ROUND_LEN <= b@.len(),
    ensures
        r is Some <==> round_flags_ok(b@, off as int),
        r matches Some(x) ==> round_at(x, b@, off as int),
{
    let _len: usize = b.len();
    let is_closed = match read_flag(b, off + 8) {
        Some(v) => v,
        None => return None,
    };
    let mut oracle_pubkeys_data = [[0u8; 32]; 16];
    let mut medians_data = [SwitchboardDecimal { mantissa: 0, scale: 0 }; 16];
    let mut current_payout = [0i64; 16];
    let mut medians_fulfilled = [false; 16];
    let mut errors_fulfilled = [false; 16];
    let mut i: usize = 0;
    while i < 16
        invariant
            i <= 16,
            off + ROUND_LEN <= b@.len(),
            b@.len() <= usize::MAX,
            is_flag(b@[off + 8]),
            forall|j: int| 0 <= j < i ==> #[trigger] is_flag(b@[off + 1065 + j]),
            forall|j: int| 0 <= j < i ==> #[trigger] is_flag(b@[off + 1081 + j]),
            forall|j: int|
                0 <= j < i ==> (#[trigger] oracle_pubkeys_data[j])@ == b@.subrange(
                    off + 105 + 32 * j,
                    off + 137 + 32 * j,
                ),
            forall|j: int| 0 <= j < i ==> decimal_at(#[trigger] medians_data[j], b@, off + 617 + 20 * j),
            forall|j: int|
                0 <= j < i ==> #[trigger] current_payout[j] == signed64(le_u64_at(b@, off + 937 + 8 * j)),
            forall|j: int| 0 <= j < i ==> #[trigger] medians_fulfilled[j] == (b@[off + 1065 + j] == 1),
            forall|j: int| 0 <= j < i ==> #[trigger] errors_fulfilled[j] == (b@[off + 1081 + j] == 1),
        decreases 16 - i,
    {
        oracle_pubkeys_data[i] = read_array::<32>(b, off + 105 + 32 * i);
        medians_data[i] = read_decimal(b, off + 617 + 20 * i);
        current_payout[i] = read_i64(b, off + 937 + 8 * i);
        match read_flag(b, off + 1065 + i) {
            Some(v) => {
                medians_fulfilled[i] = v;
            },
            None => {
                return None;
            },
        }
        match read_flag(b, off + 1081 + i) {
            Some(v) => {
                errors_fulfilled[i] = v;
            },
            None => {
                return None;
            },
        }
        i = i + 1;
    }
    Some(
        AggregatorRound {
            num_success: read_u32(b, off),
            num_error: read_u32(b, off + 4),
            is_closed,
            round_open_slot: read_u64(b, off + 9),
            round_open_timestamp: read_i64(b, off + 17),
            result: read_decimal(b, off + 25),
            std_deviation: read_decimal(b, off + 45),
            min_response: read_decimal(b, off + 65),
            max_response: read_decimal(b, off + 85),
            oracle_pubkeys_data,
            medians_data,
            current_payout,
            medians_fulfilled,
            errors_fulfilled,
        },
    )
}

fn read_account(b: &[u8], off: usize) -> (r: Option<AggregatorAccountData>)
    requires
        off + ACCOUNT_LEN <= b@.len(),
    ensures
        r is Some <==> account_flags_ok(b@, off as int),
        r matches Some(a) ==> account_at(a, b@, off as int),
{
    let _len: usize = b.len();
    let is_locked = match read_flag(b, off + 300) {
        Some(v) => v,
        None => return None,
    };
    let latest_confirmed_round = match read_round(b, off + 333) {
        Some(r) => r,
        None => return None,
    };
    let current_round = match read_round(b, off + 1430) {
        Some(r) => r,
        None => return None,
    };
    let disable_crank = match read_flag(b, off + 3679) {
        Some(v) => v,
        None => return None,
    };
    let resolution_mode = match read_flag(b, off + 3704) {
        Some(true) => AggregatorResolutionMode::ModeSlidingResolution,
        Some(false) => AggregatorResolutionMode::ModeRoundResolution,
        None => return None,
    };
    let mut job_pubkeys_data = [[0u8; 32]; 16];
    let mut job_hashes = [Hash { data: [0u8; 32] }; 16];
    let mut i: usize = 0;
    while i < 16
        invariant
            i <= 16,
            off + ACCOUNT_LEN <= b@.len(),
            b@.len() <= usize::MAX,
            forall|j: int|
                0 <= j < i ==> (#[trigger] job_pubkeys_data[j])@ == b@.subrange(
                    off + 2527 + 32 * j,
                    off + 2559 + 32 * j,
                ),
            forall|j: int|
                0 <= j < i ==> (#[trigger] job_hashes[j]).data@ == b@.subrange(
                    off + 3039 + 32 * j,
                    off + 3071 + 32 * j,
                ),
        decreases 16 - i,
    {
        job_pubkeys_data[i] = read_array::<32>(b, off + 2527 + 32 * i);
        job_hashes[i] = Hash { data: read_array::<32>(b, off + 3039 + 32 * i) };
        i = i + 1;
    }
    Some(
        AggregatorAccountData {
            name: read_array::<32>(b, off),
            metadata: read_array::<128>(b, off + 32),
            _reserved1: read_array::<32>(b, off + 160),
            queue_pubkey: read_array::<32>(b, off + 192),
            oracle_request_batch_size: read_u32(b, off + 224),
            min_oracle_results: read_u32(b, off + 228),
            min_job_results: read_u32(b, off + 232),
            min_update_delay_seconds: read_u32(b, off + 236),
            start_after: read_i64(b, off + 240),
            variance_threshold: read_decimal(b, off + 248),
            force_report_period: read_i64(b, off + 268),
            expiration: read_i64(b, off + 276),
            consecutive_failure_count: read_u64(b, off + 284),
            next_allowed_update_time: read_i64(b, off + 292),
            is_locked,
            crank_pubkey: read_array::<32>(b, off + 301),
            latest_confirmed_round,
            current_round,
            job_pubkeys_data,
            job_hashes,
            job_pubkeys_size: read_u32(b, off + 3551),
            jobs_checksum: read_array::<32>(b, off + 3555),
            authority: read_array::<32>(b, off + 3587),
            history_buffer: read_array::<32>(b, off + 3619),
            previous_confirmed_round_result: read_decimal(b, off + 3651),
            previous_confirmed_round_slot: read_u64(b, off + 3671),
            disable_crank,
            job_weights: read_array::<16>(b, off + 3680),
            creation_timestamp: read_i64(b, off + 3696),
            resolution_mode,
            _ebuf: read_array::<138>(b, off + 3705),
        },
    )
}

/// Whether `b` opens with the aggregator tag.
fn has_discriminator(b: &[u8]) -> (r: bool)
    requires
        b@.len() >= DISCRIMINATOR_LEN,
    ensures
        r == (b@.subrange(0, 8) == aggregator_discriminator()),
{
    let r = b[0] == 217 && b[1] == 230 && b[2] == 65 && b[3] == 101 && b[4] == 201 && b[5] == 162
        && b[6] == 27 && b[7] == 125;
    proof {
        if r {
            assert(b@.subrange(0, 8) =~= aggregator_discriminator());
        } else {
            assert(!(b@.subrange(0, 8) =~= aggregator_discriminator()));
        }
    }
    r
}

impl AggregatorAccountData {
    /// The tag that opens every aggregator account.
    pub fn discriminator() -> (r: [u8; 8])
        ensures
            r@ == aggregator_discriminator(),
    {
        let r = [217u8, 230u8, 65u8, 101u8, 201u8, 162u8, 27u8, 125u8];
        assert(r@ =~= aggregator_discriminator());
        r
    }

    /// Reads an account from its raw data: the 8-byte tag, then the packed fields.
    /// Fails with `AccountDiscriminatorMismatch` where the data does not open with the tag,
    /// else with `AccountDeserializationError` where it is too short for the fields or a
    /// boolean or mode byte holds something else than 0 or 1. Bytes past the fields are
    /// ignored.
    pub fn from_account_data(data: &[u8]) -> (r: Result<AggregatorAccountData, SwitchboardError>)
        ensures
            data@.len() < DISCRIMINATOR_LEN || data@.subrange(0, 8) != aggregator_discriminator()
                ==> r == Err::<AggregatorAccountData, SwitchboardError>(
                SwitchboardError::AccountDiscriminatorMismatch,
            ),
            data@.len() >= DISCRIMINATOR_LEN && data@.subrange(0, 8) == aggregator_discriminator()
                && (data@.len() < DISCRIMINATOR_LEN + ACCOUNT_LEN || !account_flags_ok(data@, 8))
                ==> r == Err::<AggregatorAccountData, SwitchboardError>(
                SwitchboardError::AccountDeserializationError,
            ),
            data@.len() >= DISCRIMINATOR_LEN + ACCOUNT_LEN && data@.subrange(0, 8)
                == aggregator_discriminator() && account_flags_ok(data@, 8) ==> r is Ok,
            r matches Ok(a) ==> data@.len() >= DISCRIMINATOR_LEN + ACCOUNT_LEN && account_at(
                a,
                data@,
                8,
            ),
    {
        if data.len() < DISCRIMINATOR_LEN || !has_discriminator(data) {
            return Err(SwitchboardError::AccountDiscriminatorMismatch);
        }
        if data.len() < DISCRIMINATOR_LEN + ACCOUNT_LEN {
            return Err(SwitchboardError::AccountDeserializationError);
        }
        match read_account(data, DISCRIMINATOR_LEN) {
            Some(a) => Ok(a),
            None => Err(SwitchboardError::AccountDeserializationError),
        }
    }

    /// The account whose every byte is zero: round resolution, a quorum of 0, every
    /// count, timestamp and decimal 0, every flag false.
    pub fn zeroed() -> (r: AggregatorAccountData)
        ensures
            account_at(r, zero_image(), 0),
    {
        let zeros = [0u8; 3843];
        assert(zeros@ =~= zero_image());
        let b: &[u8] = zeros.as_slice();
        read_account(b, 0).unwrap()
    }

    /// What `get_result` gives: in sliding mode the latest confirmed result; in round mode
    /// that result if the latest confirmed round met the quorum, else
    /// `InvalidAggregatorRound`.
    pub open spec fn result_spec(&self) -> Result<SwitchboardDecimal, SwitchboardError> {
        if self.resolution_mode == AggregatorResolutionMode::ModeSlidingResolution {
            Ok(self.latest_confirmed_round.result)
        } else if self.min_oracle_results > self.latest_confirmed_round.num_success {
            Err(SwitchboardError::InvalidAggregatorRound)
        } else {
            Ok(self.latest_confirmed_round.result)
        }
    }

    /// The authoritative price under the account's resolution mode. It checks only the
    /// quorum: freshness and variance are the caller's to check.
    pub fn get_result(&self) -> (r: Result<SwitchboardDecimal, SwitchboardError>)
        ensures
            r == self.result_spec(),
    {
        if self.resolution_mode == AggregatorResolutionMode::ModeSlidingResolution {
            return Ok(self.latest_confirmed_round.result);
        }
        if self.min_oracle_results > self.latest_confirmed_round.num_success {
            return Err(SwitchboardError::InvalidAggregatorRound);
        }
        Ok(self.latest_confirmed_round.result)
    }
}

impl Default for AggregatorAccountData {
    fn default() -> (r: AggregatorAccountData)
        ensures
            account_at(r, zero_image(), 0),
    {
        AggregatorAccountData::zeroed()
    }
}

/// In sliding mode the price is the latest confirmed result, whatever the counts.
pub proof fn lemma_sliding_mode_skips_quorum(a: AggregatorAccountData)
    requires
        a.resolution_mode == AggregatorResolutionMode::ModeSlidingResolution,
    ensures
        a.result_spec() == Ok::<SwitchboardDecimal, SwitchboardError>(
            a.latest_confirmed_round.result,
        ),
{
}

/// An all-zero account resolves, successfully, to a zero price: a zero quorum is met by
/// zero responses. Callers that must tell an uninitialized account apart need another
/// signal.
pub proof fn lemma_zeroed_account_resolves(a: AggregatorAccountData)
    requires
        account_at(a, zero_image(), 0),
    ensures
        a.result_spec() == Ok::<SwitchboardDecimal, SwitchboardError>(
            SwitchboardDecimal { mantissa: 0, scale: 0 },
        ),
{
    let z = zero_image();
    assert(z[3704] == 0u8);
    assert(le_u32_at(z, 228) == 0);
    assert(le_u32_at(z, 333) == 0);
    assert(le_u128_at(z, 358) == 0);
    assert(le_u32_at(z, 374) == 0);
}

} // verus!
