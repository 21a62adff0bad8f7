//! Answering parameter requests. A request is answered in two steps: the
//! first says what outside work it needs (checking a value, applying a
//! profile to the controller, reading or writing flash), the second takes
//! the outcome of that work and gives the answer and the new parameter
//! state.

use vstd::prelude::*;
use crate::interfaces::{ParameterAction, ParameterRequest, ParameterResponse, ParameterResultCode, ParameterRoute, ParameterStorageStatus};
use crate::parameter_service::ParameterState;
use crate::parameter_store::{SaveOutcome, StoreError, StoredProfile};
use crate::parameters::{ParameterError, ParameterId, ParameterValue};
use crate::profile::{default_profile, ParameterProfileV1};

verus! {

/// The result code that reports a store error.
pub open spec fn store_error_code<E>(error: StoreError<E>) -> ParameterResultCode {
    match error {
        StoreError::Read(_) => ParameterResultCode::FlashRead,
        StoreError::Erase(_) => ParameterResultCode::FlashErase,
        StoreError::Program(_) => ParameterResultCode::FlashProgram,
        StoreError::Verify => ParameterResultCode::Verify,
        StoreError::Invalid => ParameterResultCode::Invalid,
    }
}

/// The result code that reports a store error.
pub fn store_result_code<E>(error: StoreError<E>) -> (code: ParameterResultCode)
    ensures
        code == store_error_code(error),
{
    match error {
        StoreError::Read(_) => ParameterResultCode::FlashRead,
        StoreError::Erase(_) => ParameterResultCode::FlashErase,
        StoreError::Program(_) => ParameterResultCode::FlashProgram,
        StoreError::Verify => ParameterResultCode::Verify,
        StoreError::Invalid => ParameterResultCode::Invalid,
    }
}

/// The log name of a store error.
pub open spec fn store_error_text<E>(error: StoreError<E>) -> Seq<char> {
    match error {
        StoreError::Read(_) => "flash-read"@,
        StoreError::Erase(_) => "flash-erase"@,
        StoreError::Program(_) => "flash-program"@,
        StoreError::Verify => "verify"@,
        StoreError::Invalid => "invalid"@,
    }
}

/// The log name of a store error.
pub fn store_error_name<E>(error: &StoreError<E>) -> (name: &'static str)
    ensures
        name@ == store_error_text(*error),
{
    match error {
        StoreError::Read(_) => "flash-read",
        StoreError::Erase(_) => "flash-erase",
        StoreError::Program(_) => "flash-program",
        StoreError::Verify => "verify",
        StoreError::Invalid => "invalid",
    }
}

/// The transaction byte of a request that came over CAN.
pub fn can_transaction(route: ParameterRoute) -> (transaction: Option<u8>)
    ensures
        transaction == (match route {
            ParameterRoute::Can { transaction, .. } => Some(transaction),
            ParameterRoute::Uart => None,
        }),
{
    match route {
        ParameterRoute::Can { transaction, .. } => Some(transaction),
        ParameterRoute::Uart => None,
    }
}

/// Whether a parameter only takes effect at the next start.
pub open spec fn restart_only(parameter: ParameterId) -> bool {
    parameter == ParameterId::PolePairs || parameter == ParameterId::EncoderCpr
}

/// The answer to `request`.
pub open spec fn answer(
    request: ParameterRequest,
    result: ParameterResultCode,
    value: Option<ParameterValue>,
    storage: ParameterStorageStatus,
) -> ParameterResponse {
    ParameterResponse { route: request.route, action: request.action, result, value, storage }
}

fn respond(
    request: ParameterRequest,
    result: ParameterResultCode,
    value: Option<ParameterValue>,
    storage: ParameterStorageStatus,
) -> (response: ParameterResponse)
    ensures
        response == answer(request, result, value, storage),
{
    ParameterResponse { route: request.route, action: request.action, result, value, storage }
}

/// The outside work a parameter request needs before it can be answered.
#[derive(Clone, Copy, Debug)]
pub enum ParameterWork {
    /// None: this is the answer.
    Answer(ParameterResponse),
    /// Check `value` and put it in a copy of the working profile; when
    /// `live`, apply the result to the controller; then `finish_set`.
    Stage { parameter: ParameterId, value: ParameterValue, live: bool },
    /// Apply the factory profile to the controller, then `finish_defaults`.
    ApplyDefaults,
    /// Read the newest record from flash; when there is one, apply it to
    /// the controller; then `finish_load`.
    Load,
    /// Save this profile, then `finish_save`.
    Save(ParameterProfileV1),
    /// Save this factory profile as a new record; when that succeeds,
    /// apply it to the controller; then `finish_factory_reset`.
    FactoryReset(ParameterProfileV1),
}

/// The first step of a request. `safe` says whether storage and profile
/// changes are allowed now (controller idle and calibrated, bridge off);
/// every change is refused as busy when they are not.
pub open spec fn work_for(state: ParameterState, request: ParameterRequest, safe: bool) -> ParameterWork {
    let status = state.spec_status();
    match request.action {
        ParameterAction::Get(parameter) => ParameterWork::Answer(
            answer(request, ParameterResultCode::Success, Some(state.spec_working().spec_get(parameter)), status),
        ),
        ParameterAction::Status => ParameterWork::Answer(
            answer(request, ParameterResultCode::Success, None, status),
        ),
        ParameterAction::SetValue(parameter, value) => if !safe {
            ParameterWork::Answer(
                answer(request, ParameterResultCode::Busy, Some(state.spec_working().spec_get(parameter)), status),
            )
        } else {
            ParameterWork::Stage { parameter, value, live: !restart_only(parameter) }
        },
        ParameterAction::Defaults => if !safe {
            ParameterWork::Answer(answer(request, ParameterResultCode::Busy, None, status))
        } else {
            ParameterWork::ApplyDefaults
        },
        ParameterAction::Load => if !safe {
            ParameterWork::Answer(answer(request, ParameterResultCode::Busy, None, status))
        } else {
            ParameterWork::Load
        },
        ParameterAction::Save => if !safe {
            ParameterWork::Answer(answer(request, ParameterResultCode::Busy, None, status))
        } else {
            ParameterWork::Save(state.spec_working())
        },
        ParameterAction::FactoryReset => if !safe {
            ParameterWork::Answer(answer(request, ParameterResultCode::Busy, None, status))
        } else {
            ParameterWork::FactoryReset(default_profile())
        },
    }
}

/// The first step of a request.
pub fn begin_parameter_request(state: &ParameterState, request: ParameterRequest, safe: bool) -> (work: ParameterWork)
    ensures
        work == work_for(*state, request, safe),
{
    let status = state.status();
    match request.action {
        ParameterAction::Get(parameter) => ParameterWork::Answer(
            respond(request, ParameterResultCode::Success, Some(state.get(parameter)), status),
        ),
        ParameterAction::Status => ParameterWork::Answer(
            respond(request, ParameterResultCode::Success, None, status),
        ),
        ParameterAction::SetValue(parameter, value) => if !safe {
            ParameterWork::Answer(
                respond(request, ParameterResultCode::Busy, Some(state.get(parameter)), status),
            )
        } else {
            ParameterWork::Stage { parameter, value, live: !parameter.startup_only() }
        },
        ParameterAction::Defaults => if !safe {
            ParameterWork::Answer(respond(request, ParameterResultCode::Busy, None, status))
        } else {
            ParameterWork::ApplyDefaults
        },
        ParameterAction::Load => if !safe {
            ParameterWork::Answer(respond(request, ParameterResultCode::Busy, None, status))
        } else {
            ParameterWork::Load
        },
        ParameterAction::Save => if !safe {
            ParameterWork::Answer(respond(request, ParameterResultCode::Busy, None, status))
        } else {
            ParameterWork::Save(state.working())
        },
        ParameterAction::FactoryReset => if !safe {
            ParameterWork::Answer(respond(request, ParameterResultCode::Busy, None, status))
        } else {
            ParameterWork::FactoryReset(ParameterProfileV1::default())
        },
    }
}

/// Finishes a write of `parameter`. `staged` is the working profile with
/// the value checked and put in, or why it was refused; `applied` is
/// whether the controller took the staged profile live, and is not
/// consulted for parameters that only take effect at restart. The write
/// is committed only when it was staged and took effect; otherwise the
/// state is unchanged and the answer reports the old value.
pub fn finish_set(
    state: &mut ParameterState,
    request: ParameterRequest,
    parameter: ParameterId,
    staged: Result<ParameterProfileV1, ParameterError>,
    applied: bool,
) -> (response: ParameterResponse)
    ensures
        match staged {
            Ok(profile) if restart_only(parameter) || applied => {
                &&& *final(state) == old(state).replaced(profile)
                &&& response == answer(
                    request,
                    ParameterResultCode::Success,
                    Some(profile.spec_get(parameter)),
                    final(state).spec_status(),
                )
            },
            Ok(_) => {
                &&& *final(state) == *old(state)
                &&& response == answer(
                    request,
                    ParameterResultCode::Busy,
                    Some(old(state).spec_working().spec_get(parameter)),
                    old(state).spec_status(),
                )
            },
            Err(_) => {
                &&& *final(state) == *old(state)
                &&& response == answer(
                    request,
                    ParameterResultCode::Invalid,
                    Some(old(state).spec_working().spec_get(parameter)),
                    old(state).spec_status(),
                )
            },
        },
{
    let previous = state.get(parameter);
    match staged {
        Err(_) => respond(request, ParameterResultCode::Invalid, Some(previous), state.status()),
        Ok(profile) => {
            if parameter.startup_only() || applied {
                state.replace_working(profile);
                respond(request, ParameterResultCode::Success, Some(state.get(parameter)), state.status())
            } else {
                respond(request, ParameterResultCode::Busy, Some(previous), state.status())
            }
        },
    }
}

/// Finishes a return to the factory profile; `applied` is whether the
/// controller took it live.
pub fn finish_defaults(state: &mut ParameterState, request: ParameterRequest, applied: bool) -> (response: ParameterResponse)
    ensures
        applied ==> *final(state) == old(state).defaults_used() && response == answer(
            request,
            ParameterResultCode::Success,
            None,
            final(state).spec_status(),
        ),
        !applied ==> *final(state) == *old(state) && response == answer(
            request,
            ParameterResultCode::Busy,
            None,
            old(state).spec_status(),
        ),
{
    if applied {
        state.use_defaults();
        respond(request, ParameterResultCode::Success, None, state.status())
    } else {
        respond(request, ParameterResultCode::Busy, None, state.status())
    }
}

/// Finishes a load. `loaded` is what reading flash gave (a store error
/// already turned into its result code); `applied` is whether the
/// controller took the loaded profile live, and is only consulted when a
/// record was found.
pub fn finish_load(
    state: &mut ParameterState,
    request: ParameterRequest,
    loaded: Result<Option<StoredProfile<ParameterProfileV1>>, ParameterResultCode>,
    applied: bool,
) -> (response: ParameterResponse)
    ensures
        match loaded {
            Ok(Some(stored)) => if applied {
                &&& *final(state) == old(state).loaded(stored)
                &&& response == answer(request, ParameterResultCode::Success, None, final(state).spec_status())
            } else {
                &&& *final(state) == *old(state)
                &&& response == answer(request, ParameterResultCode::Busy, None, old(state).spec_status())
            },
            Ok(None) => {
                &&& *final(state) == *old(state)
                &&& response == answer(request, ParameterResultCode::NoValidRecord, None, old(state).spec_status())
            },
            Err(code) => {
                &&& *final(state) == *old(state)
                &&& response == answer(request, code, None, old(state).spec_status())
            },
        },
{
    match loaded {
        Ok(Some(stored)) => if applied {
            state.load(stored);
            respond(request, ParameterResultCode::Success, None, state.status())
        } else {
            respond(request, ParameterResultCode::Busy, None, state.status())
        },
        Ok(None) => respond(request, ParameterResultCode::NoValidRecord, None, state.status()),
        Err(code) => respond(request, code, None, state.status()),
    }
}

/// The result code of a save outcome.
pub open spec fn save_code(outcome: SaveOutcome) -> ParameterResultCode {
    match outcome {
        SaveOutcome::Unchanged { .. } => ParameterResultCode::Unchanged,
        SaveOutcome::Saved { .. } => ParameterResultCode::Success,
    }
}

/// Finishes a save of the working profile with what writing flash gave.
pub fn finish_save(
    state: &mut ParameterState,
    request: ParameterRequest,
    outcome: Result<SaveOutcome, ParameterResultCode>,
) -> (response: ParameterResponse)
    ensures
        match outcome {
            Ok(outcome) => {
                &&& *final(state) == old(state).after_save(outcome)
                &&& response == answer(request, save_code(outcome), None, final(state).spec_status())
            },
            Err(code) => {
                &&& *final(state) == *old(state)
                &&& response == answer(request, code, None, old(state).spec_status())
            },
        },
{
    match outcome {
        Ok(outcome) => {
            let result = match outcome {
                SaveOutcome::Unchanged { .. } => ParameterResultCode::Unchanged,
                SaveOutcome::Saved { .. } => ParameterResultCode::Success,
            };
            state.saved(outcome);
            respond(request, result, None, state.status())
        },
        Err(code) => respond(request, code, None, state.status()),
    }
}

/// Finishes a factory reset with what writing the factory profile gave;
/// `applied` is whether the controller took it live, and is only
/// consulted when the write succeeded.
pub fn finish_factory_reset(
    state: &mut ParameterState,
    request: ParameterRequest,
    outcome: Result<SaveOutcome, ParameterResultCode>,
    applied: bool,
) -> (response: ParameterResponse)
    ensures
        match outcome {
            Ok(outcome) => if applied {
                &&& *final(state) == old(state).defaults_used().after_save(outcome)
                &&& response == answer(request, ParameterResultCode::Success, None, final(state).spec_status())
            } else {
                &&& *final(state) == *old(state)
                &&& response == answer(request, ParameterResultCode::Busy, None, old(state).spec_status())
            },
            Err(code) => {
                &&& *final(state) == *old(state)
                &&& response == answer(request, code, None, old(state).spec_status())
            },
        },
{
    match outcome {
        Ok(outcome) => if applied {
            state.use_defaults();
            state.saved(outcome);
            respond(request, ParameterResultCode::Success, None, state.status())
        } else {
            respond(request, ParameterResultCode::Busy, None, state.status())
        },
        Err(code) => respond(request, code, None, state.status()),
    }
}

/// The transaction byte of a route, for CAN requests.
pub open spec fn transaction_of(route: ParameterRoute) -> Option<u8> {
    match route {
        ParameterRoute::Can { transaction, .. } => Some(transaction),
        ParameterRoute::Uart => None,
    }
}

/// The answer a CAN request gets without being processed again: a request
/// that repeats the last answered one under the same transaction gets the
/// same answer; a different request under that transaction is refused as
/// a conflict. `None` means the request is to be processed.
pub open spec fn replayed(
    request: ParameterRequest,
    last: Option<(ParameterRequest, ParameterResponse)>,
    storage: ParameterStorageStatus,
) -> Option<ParameterResponse> {
    match (transaction_of(request.route), last) {
        (Some(transaction), Some((cached_request, cached_response))) => if transaction_of(
            cached_request.route,
        ) == Some(transaction) {
            if request == cached_request {
                Some(cached_response)
            } else {
                Some(answer(request, ParameterResultCode::Conflict, None, storage))
            }
        } else {
            None
        },
        _ => None,
    }
}

/// Whether two requests are the same request.
pub fn same_request(a: &ParameterRequest, b: &ParameterRequest) -> (same: bool)
    ensures
        same == (*a == *b),
{
    let same_route = match (a.route, b.route) {
        (ParameterRoute::Uart, ParameterRoute::Uart) => true,
        (
            ParameterRoute::Can { transaction: t1, request_id: i1, request_data: d1 },
            ParameterRoute::Can { transaction: t2, request_id: i2, request_data: d2 },
        ) => {
            let mut equal = t1 == t2 && i1 == i2;
            let mut index: usize = 0;
            while index < 8
                invariant
                    index <= 8,
                    equal ==> t1 == t2 && i1 == i2 && forall|k: int| 0 <= k < index ==> d1@[k] == d2@[k],
                    !equal ==> !(t1 == t2 && i1 == i2 && d1@ == d2@),
                decreases 8 - index,
            {
                if d1[index] != d2[index] {
                    equal = false;
                }
                index += 1;
            }
            if equal {
                assert(d1@ =~= d2@);
                assert(d1 == d2);
            }
            equal
        },
        _ => false,
    };
    same_route && a.action == b.action
}

/// The answer a CAN request gets without being processed again, if any.
pub fn replayed_response(
    request: &ParameterRequest,
    last: &Option<(ParameterRequest, ParameterResponse)>,
    storage: ParameterStorageStatus,
) -> (response: Option<ParameterResponse>)
    ensures
        response == replayed(*request, *last, storage),
{
    let transaction = match can_transaction(request.route) {
        Some(transaction) => transaction,
        None => {
            return None;
        },
    };
    match last {
        Some((cached_request, cached_response)) => {
            if can_transaction(cached_request.route) == Some(transaction) {
                if same_request(request, cached_request) {
                    Some(*cached_response)
                } else {
                    Some(respond(*request, ParameterResultCode::Conflict, None, storage))
                }
            } else {
                None
            }
        },
        None => None,
    }
}

/// The exchange to remember after answering `request`: CAN requests that
/// were not refused as conflicts replace the remembered one.
pub open spec fn remembered(
    request: ParameterRequest,
    response: ParameterResponse,
    last: Option<(ParameterRequest, ParameterResponse)>,
) -> Option<(ParameterRequest, ParameterResponse)> {
    if transaction_of(request.route) is Some && response.result != ParameterResultCode::Conflict {
        Some((request, response))
    } else {
        last
    }
}

/// Remembers the answer to a CAN request for replay.
pub fn remember_exchange(
    last: &mut Option<(ParameterRequest, ParameterResponse)>,
    request: ParameterRequest,
    response: ParameterResponse,
)
    ensures
        *final(last) == remembered(request, response, *old(last)),
{
    if can_transaction(request.route).is_some() && response.result != ParameterResultCode::Conflict {
        *last = Some((request, response));
    }
}

/// A repeated CAN request is answered exactly as it was the first time; a
/// different request under the same transaction is refused as a conflict
/// and leaves the remembered exchange in place.
pub proof fn lemma_repeated_request_gets_same_answer(
    request: ParameterRequest,
    other: ParameterRequest,
    response: ParameterResponse,
    last: Option<(ParameterRequest, ParameterResponse)>,
    storage: ParameterStorageStatus,
)
    requires
        transaction_of(request.route) is Some,
        response.result != ParameterResultCode::Conflict,
    ensures
        replayed(request, remembered(request, response, last), storage) == Some(response),
        transaction_of(other.route) == transaction_of(request.route) && other != request ==> {
            let conflict = answer(other, ParameterResultCode::Conflict, None, storage);
            &&& replayed(other, remembered(request, response, last), storage) == Some(conflict)
            &&& remembered(other, conflict, remembered(request, response, last)) == remembered(
                request,
                response,
                last,
            )
        },
{
}

} // verus!
