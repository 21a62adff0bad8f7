//! The live parameter set: the working profile, what flash holds, and the
//! storage status reported to the console and the CAN bus.

use vstd::prelude::*;
use crate::interfaces::ParameterStorageStatus;
use crate::parameter_store::{SaveOutcome, StoreError, StoredProfile};
use crate::parameters::{ParameterId, ParameterValue};
use crate::profile::{default_profile, lemma_profile_payload_round_trip, profile_payload, ParameterProfileV1};

verus! {

/// Whether the working profile differs from what flash holds, or from the
/// factory profile when flash holds nothing. Profiles are compared by
/// payload against flash and by value against the factory profile.
pub open spec fn differs_from_persisted(
    working: ParameterProfileV1,
    persisted: Option<ParameterProfileV1>,
) -> bool {
    match persisted {
        Some(persisted) => profile_payload(persisted) != profile_payload(working),
        None => !working.same_values(default_profile()),
    }
}

/// The generation an outcome reports.
pub open spec fn outcome_generation(outcome: SaveOutcome) -> u32 {
    match outcome {
        SaveOutcome::Saved { generation, .. } => generation,
        SaveOutcome::Unchanged { generation, .. } => generation,
    }
}

#[derive(Clone, Copy, Debug)]
pub struct ParameterState {
    working: ParameterProfileV1,
    persisted: Option<ParameterProfileV1>,
    boot_pole_pairs: u8,
    boot_encoder_cpr: u16,
    generation: u32,
    dirty: bool,
    source_defaults: bool,
}

impl ParameterState {
    /// The profile in use.
    pub closed spec fn spec_working(&self) -> ParameterProfileV1 {
        self.working
    }

    /// The profile flash holds, as far as this state knows.
    pub closed spec fn spec_persisted(&self) -> Option<ParameterProfileV1> {
        self.persisted
    }

    /// Pole pairs and encoder counts the controller started with.
    pub closed spec fn boot_values(&self) -> (u8, u16) {
        (self.boot_pole_pairs, self.boot_encoder_cpr)
    }

    pub closed spec fn spec_generation(&self) -> u32 {
        self.generation
    }

    pub closed spec fn spec_dirty(&self) -> bool {
        self.dirty
    }

    pub closed spec fn spec_source_defaults(&self) -> bool {
        self.source_defaults
    }

    /// A change of pole pairs or encoder counts only takes effect after a
    /// restart.
    pub open spec fn spec_restart_required(&self) -> bool {
        self.spec_working().pole_pairs != self.boot_values().0
            || self.spec_working().encoder_cpr != self.boot_values().1
    }

    /// The status reported for this state.
    pub open spec fn spec_status(&self) -> ParameterStorageStatus {
        ParameterStorageStatus {
            persisted_valid: self.spec_persisted() is Some,
            source_defaults: self.spec_source_defaults(),
            generation: self.spec_generation(),
            dirty: self.spec_dirty(),
            restart_required: self.spec_restart_required(),
        }
    }

    /// The state after `profile` is put in use as a user change.
    pub closed spec fn replaced(self, profile: ParameterProfileV1) -> Self {
        ParameterState {
            working: profile,
            source_defaults: false,
            dirty: differs_from_persisted(profile, self.persisted),
            ..self
        }
    }

    /// The state after the factory profile is put in use.
    pub closed spec fn defaults_used(self) -> Self {
        ParameterState {
            working: default_profile(),
            source_defaults: true,
            dirty: differs_from_persisted(default_profile(), self.persisted),
            ..self
        }
    }

    /// The state after a record loaded from flash is put in use.
    pub closed spec fn loaded(self, stored: StoredProfile<ParameterProfileV1>) -> Self {
        ParameterState {
            working: stored.profile,
            persisted: Some(stored.profile),
            generation: stored.generation,
            dirty: false,
            source_defaults: false,
            ..self
        }
    }

    /// The state after the working profile was saved.
    pub closed spec fn after_save(self, outcome: SaveOutcome) -> Self {
        ParameterState {
            persisted: Some(self.working),
            generation: outcome_generation(outcome),
            dirty: false,
            source_defaults: false,
            ..self
        }
    }

    /// The state at boot: `working` is the profile the controller started
    /// with and `stored` the record flash held, if any.
    pub fn from_boot(working: ParameterProfileV1, stored: Option<StoredProfile<ParameterProfileV1>>) -> (state: Self)
        ensures
            state.spec_working() == working,
            state.spec_persisted() == (match stored {
                Some(stored) => Some(stored.profile),
                None => None,
            }),
            state.boot_values() == (working.pole_pairs, working.encoder_cpr),
            state.spec_generation() == (match stored {
                Some(stored) => stored.generation,
                None => 0,
            }),
            !state.spec_dirty(),
            state.spec_source_defaults() == stored is None,
    {
        let (persisted, generation, source_defaults) = match stored {
            Some(stored) => (Some(stored.profile), stored.generation, false),
            None => (None, 0, true),
        };
        ParameterState {
            working,
            persisted,
            boot_pole_pairs: working.pole_pairs,
            boot_encoder_cpr: working.encoder_cpr,
            generation,
            dirty: false,
            source_defaults,
        }
    }

    pub fn working(&self) -> (profile: ParameterProfileV1)
        ensures
            profile == self.spec_working(),
    {
        self.working
    }

    pub fn get(&self, id: ParameterId) -> (value: ParameterValue)
        ensures
            value == self.spec_working().spec_get(id),
    {
        self.working.get(id)
    }

    /// Puts `profile` in use as a user change.
    pub fn replace_working(&mut self, profile: ParameterProfileV1)
        ensures
            final(self).spec_working() == profile,
            final(self).spec_persisted() == old(self).spec_persisted(),
            final(self).boot_values() == old(self).boot_values(),
            final(self).spec_generation() == old(self).spec_generation(),
            final(self).spec_dirty() == differs_from_persisted(profile, old(self).spec_persisted()),
            !final(self).spec_source_defaults(),
            *final(self) == old(self).replaced(profile),
    {
        self.working = profile;
        self.source_defaults = false;
        self.refresh_dirty();
    }

    /// Puts the factory profile in use.
    pub fn use_defaults(&mut self)
        ensures
            final(self).spec_working() == default_profile(),
            final(self).spec_persisted() == old(self).spec_persisted(),
            final(self).boot_values() == old(self).boot_values(),
            final(self).spec_generation() == old(self).spec_generation(),
            final(self).spec_dirty() == differs_from_persisted(
                default_profile(),
                old(self).spec_persisted(),
            ),
            final(self).spec_source_defaults(),
            *final(self) == old(self).defaults_used(),
    {
        self.working = ParameterProfileV1::default();
        self.source_defaults = true;
        self.refresh_dirty();
    }

    /// Puts a record loaded from flash in use.
    pub fn load(&mut self, stored: StoredProfile<ParameterProfileV1>)
        ensures
            final(self).spec_working() == stored.profile,
            final(self).spec_persisted() == Some(stored.profile),
            final(self).boot_values() == old(self).boot_values(),
            final(self).spec_generation() == stored.generation,
            !final(self).spec_dirty(),
            !final(self).spec_source_defaults(),
            *final(self) == old(self).loaded(stored),
    {
        self.working = stored.profile;
        self.persisted = Some(stored.profile);
        self.generation = stored.generation;
        self.dirty = false;
        self.source_defaults = false;
    }

    /// Records that the working profile was saved.
    pub fn saved(&mut self, outcome: SaveOutcome)
        ensures
            final(self).spec_working() == old(self).spec_working(),
            final(self).spec_persisted() == Some(old(self).spec_working()),
            final(self).boot_values() == old(self).boot_values(),
            final(self).spec_generation() == outcome_generation(outcome),
            !final(self).spec_dirty(),
            !final(self).spec_source_defaults(),
            *final(self) == old(self).after_save(outcome),
    {
        self.persisted = Some(self.working);
        self.generation = match outcome {
            SaveOutcome::Saved { generation, .. } => generation,
            SaveOutcome::Unchanged { generation, .. } => generation,
        };
        self.dirty = false;
        self.source_defaults = false;
    }

    /// What each change of the parameter set does, field by field: a user
    /// change puts the profile in use, keeps what flash holds, and is dirty
    /// exactly when it differs from it; the factory profile does the same
    /// and marks the set as coming from the defaults; a load puts the
    /// record in use as persisted and clean; a save marks the working
    /// profile as persisted and clean at the reported generation. None of
    /// them changes the boot values.
    pub proof fn lemma_transition_fields(
        self,
        profile: ParameterProfileV1,
        stored: StoredProfile<ParameterProfileV1>,
        outcome: SaveOutcome,
    )
        ensures
            self.replaced(profile).spec_working() == profile,
            self.replaced(profile).spec_persisted() == self.spec_persisted(),
            self.replaced(profile).boot_values() == self.boot_values(),
            self.replaced(profile).spec_generation() == self.spec_generation(),
            self.replaced(profile).spec_dirty() == differs_from_persisted(
                profile,
                self.spec_persisted(),
            ),
            !self.replaced(profile).spec_source_defaults(),
            self.defaults_used().spec_working() == default_profile(),
            self.defaults_used().spec_persisted() == self.spec_persisted(),
            self.defaults_used().boot_values() == self.boot_values(),
            self.defaults_used().spec_generation() == self.spec_generation(),
            self.defaults_used().spec_dirty() == differs_from_persisted(
                default_profile(),
                self.spec_persisted(),
            ),
            self.defaults_used().spec_source_defaults(),
            self.loaded(stored).spec_working() == stored.profile,
            self.loaded(stored).spec_persisted() == Some(stored.profile),
            self.loaded(stored).boot_values() == self.boot_values(),
            self.loaded(stored).spec_generation() == stored.generation,
            !self.loaded(stored).spec_dirty(),
            !self.loaded(stored).spec_source_defaults(),
            self.after_save(outcome).spec_working() == self.spec_working(),
            self.after_save(outcome).spec_persisted() == Some(self.spec_working()),
            self.after_save(outcome).boot_values() == self.boot_values(),
            self.after_save(outcome).spec_generation() == outcome_generation(outcome),
            !self.after_save(outcome).spec_dirty(),
            !self.after_save(outcome).spec_source_defaults(),
    {
    }

    /// Records the saves that end a motor identification: the motor record
    /// and the control profile `profile` rebuilt from the identified
    /// configuration. Only when both saves succeeded is `profile` put in use
    /// and marked as saved with the profile save's outcome; otherwise the
    /// state is left as it was and the first error is returned, the motor
    /// record's before the profile's.
    pub fn commissioning_saved<E>(
        &mut self,
        profile: ParameterProfileV1,
        motor_outcome: Result<SaveOutcome, StoreError<E>>,
        profile_outcome: Result<SaveOutcome, StoreError<E>>,
    ) -> (recorded: Result<(), StoreError<E>>)
        ensures
            match (motor_outcome, profile_outcome) {
                (Ok(_), Ok(outcome)) => recorded is Ok && *final(self) == old(self).replaced(
                    profile,
                ).after_save(outcome),
                (Err(error), _) => recorded == Err::<(), StoreError<E>>(error) && *final(self)
                    == *old(self),
                (Ok(_), Err(error)) => recorded == Err::<(), StoreError<E>>(error) && *final(self)
                    == *old(self),
            },
    {
        match motor_outcome {
            Err(error) => Err(error),
            Ok(_) => match profile_outcome {
                Err(error) => Err(error),
                Ok(outcome) => {
                    self.replace_working(profile);
                    self.saved(outcome);
                    Ok(())
                },
            },
        }
    }

    pub fn status(&self) -> (status: ParameterStorageStatus)
        ensures
            status == self.spec_status(),
    {
        ParameterStorageStatus {
            persisted_valid: self.persisted.is_some(),
            source_defaults: self.source_defaults,
            generation: self.generation,
            dirty: self.dirty,
            restart_required: self.restart_required(),
        }
    }

    fn restart_required(&self) -> (required: bool)
        ensures
            required == self.spec_restart_required(),
    {
        self.working.pole_pairs != self.boot_pole_pairs || self.working.encoder_cpr
            != self.boot_encoder_cpr
    }

    fn refresh_dirty(&mut self)
        ensures
            final(self).spec_working() == old(self).spec_working(),
            final(self).spec_persisted() == old(self).spec_persisted(),
            final(self).boot_values() == old(self).boot_values(),
            final(self).spec_generation() == old(self).spec_generation(),
            final(self).spec_source_defaults() == old(self).spec_source_defaults(),
            final(self).spec_dirty() == differs_from_persisted(
                old(self).spec_working(),
                old(self).spec_persisted(),
            ),
    {
        self.dirty = match self.persisted {
            Some(persisted) => {
                let stored = persisted.encode_payload();
                let live = self.working.encode_payload();
                !crate::parameters::bytes_equal(stored.as_slice(), live.as_slice())
            },
            None => !self.working.equals(&ParameterProfileV1::default()),
        };
    }
}

/// The record the controller boots from: what flash holds, or none when
/// flash holds no record or could not be read.
pub fn boot_record<E>(loaded: Result<Option<StoredProfile<ParameterProfileV1>>, StoreError<E>>) -> (stored: Option<StoredProfile<ParameterProfileV1>>)
    ensures
        stored == match loaded {
            Ok(found) => found,
            Err(_) => None,
        },
{
    match loaded {
        Ok(found) => found,
        Err(_) => None,
    }
}

/// The profile the controller boots with: the stored record's profile, or
/// the factory profile when there is none.
pub fn boot_profile(stored: Option<StoredProfile<ParameterProfileV1>>) -> (profile: ParameterProfileV1)
    ensures
        profile == match stored {
            Some(stored) => stored.profile,
            None => default_profile(),
        },
{
    match stored {
        Some(stored) => stored.profile,
        None => ParameterProfileV1::default(),
    }
}

/// Against a record in flash, the parameter set is clean exactly when the
/// working profile is the persisted one: payloads tell profiles apart.
pub proof fn lemma_clean_means_persisted(working: ParameterProfileV1, persisted: ParameterProfileV1)
    ensures
        !differs_from_persisted(working, Some(persisted)) <==> working == persisted,
{
    lemma_profile_payload_round_trip(working, profile_payload(persisted));
    lemma_profile_payload_round_trip(persisted, profile_payload(working));
}

/// Saving or loading leaves the parameter set clean and in step with
/// flash; a user change is clean exactly when it restores the persisted
/// profile.
pub proof fn lemma_saved_and_loaded_states_are_clean(
    state: ParameterState,
    outcome: SaveOutcome,
    stored: StoredProfile<ParameterProfileV1>,
    profile: ParameterProfileV1,
)
    ensures
        !state.after_save(outcome).spec_dirty(),
        state.after_save(outcome).spec_persisted() == Some(state.spec_working()),
        !state.loaded(stored).spec_dirty(),
        state.loaded(stored).spec_persisted() == Some(state.loaded(stored).spec_working()),
        state.spec_persisted() matches Some(persisted) ==> (!state.replaced(profile).spec_dirty()
            <==> profile == persisted),
{
    if let Some(persisted) = state.spec_persisted() {
        lemma_clean_means_persisted(profile, persisted);
    }
}

} // verus!
