use vstd::prelude::*;

use crate::args::ResetCommand;
use crate::config::{
    apply_reset, apply_update, default_model, model_wf, outcome_model, reset_outcome,
    update_outcome, ConfigModel, FieldValue, ServerConfig, StoreError,
};

verus! {

/// The singleton configuration record, absent until `initialize` runs.
/// Every change goes through a compare-and-swap on the record's version.
pub struct ConfigStore {
    record: Option<ServerConfig>,
}

/// What a compare-and-swap of `v` expecting `expected` returns on a store holding `s`.
pub open spec fn cas_outcome(s: Option<ConfigModel>, expected: u64, v: FieldValue) -> Result<
    ConfigModel,
    StoreError,
> {
    match s {
        None => Err(StoreError::NotInitialized),
        Some(m) => if m.version != expected {
            Err(StoreError::Conflict)
        } else {
            update_outcome(m, v)
        },
    }
}

/// What `reset_field` returns on a store holding `s`.
pub open spec fn reset_field_outcome(s: Option<ConfigModel>, f: ResetCommand) -> Result<
    ConfigModel,
    StoreError,
> {
    match s {
        None => Err(StoreError::NotInitialized),
        Some(m) => reset_outcome(m, f),
    }
}

/// The stored record after an operation with outcome `r`: the new record on success,
/// the old one untouched on any failure.
pub open spec fn state_after(s: Option<ConfigModel>, r: Result<ConfigModel, StoreError>) -> Option<
    ConfigModel,
> {
    match r {
        Ok(n) => Some(n),
        Err(_) => s,
    }
}

impl View for ConfigStore {
    type V = Option<ConfigModel>;

    closed spec fn view(&self) -> Option<ConfigModel> {
        match self.record {
            Some(c) => Some(c@),
            None => None,
        }
    }
}

impl ConfigStore {
    /// A stored record, when there is one, meets the record invariants.
    pub open spec fn wf(&self) -> bool {
        self@ matches Some(m) ==> model_wf(m)
    }

    /// A store on which `initialize` has not run yet.
    pub fn new() -> (r: ConfigStore)
        ensures
            r@ == None::<ConfigModel>,
            r.wf(),
    {
        ConfigStore { record: None }
    }

    /// A store holding a record that was read back from storage.
    pub fn open(record: ServerConfig) -> (r: ConfigStore)
        requires
            record.wf(),
        ensures
            r@ == Some(record@),
            r.wf(),
    {
        ConfigStore { record: Some(record) }
    }

    /// Writes the default record if there is none; leaves an existing record alone.
    pub fn initialize(&mut self)
        requires
            old(self).wf(),
        ensures
            final(self).wf(),
            final(self)@ == (match old(self)@ {
                None => Some(default_model()),
                Some(m) => Some(m),
            }),
    {
        if self.record.is_none() {
            self.record = Some(ServerConfig::initial());
        }
    }

    /// The current record.
    pub fn read(&self) -> (r: Result<ServerConfig, StoreError>)
        requires
            self.wf(),
        ensures
            outcome_model(r) == (match self@ {
                None => Err(StoreError::NotInitialized),
                Some(m) => Ok(m),
            }),
            r matches Ok(c) ==> c.wf(),
    {
        match &self.record {
            None => Err(StoreError::NotInitialized),
            Some(c) => Ok(c.duplicate()),
        }
    }

    /// Applies `v` only if the stored version is `expected_version`; on success the
    /// record is replaced by the new one, whose version is one higher. Any failure
    /// leaves the record as it was.
    pub fn compare_and_update(&mut self, expected_version: u64, v: FieldValue) -> (r: Result<
        ServerConfig,
        StoreError,
    >)
        requires
            old(self).wf(),
        ensures
            final(self).wf(),
            outcome_model(r) == cas_outcome(old(self)@, expected_version, v),
            final(self)@ == state_after(old(self)@, outcome_model(r)),
    {
        let r = match &self.record {
            None => Err(StoreError::NotInitialized),
            Some(c) => if c.version != expected_version {
                Err(StoreError::Conflict)
            } else {
                apply_update(c, v)
            },
        };
        match r {
            Ok(n) => {
                let out = n.duplicate();
                self.record = Some(n);
                Ok(out)
            },
            Err(e) => Err(e),
        }
    }

    /// Puts one field back to its default through the same versioned write.
    pub fn reset_field(&mut self, f: ResetCommand) -> (r: Result<ServerConfig, StoreError>)
        requires
            old(self).wf(),
        ensures
            final(self).wf(),
            outcome_model(r) == reset_field_outcome(old(self)@, f),
            final(self)@ == state_after(old(self)@, outcome_model(r)),
    {
        let r = match &self.record {
            None => Err(StoreError::NotInitialized),
            Some(c) => apply_reset(c, f),
        };
        match r {
            Ok(n) => {
                let out = n.duplicate();
                self.record = Some(n);
                Ok(out)
            },
            Err(e) => Err(e),
        }
    }
}

} // verus!
