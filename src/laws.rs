use vstd::prelude::*;

use crate::args::ResetCommand;
use crate::config::{
    default_model, model_wf, reset_outcome, row_model, row_ok, update_outcome, ConfigModel,
    ConfigRow, FieldValue, ServerConfig, MAX_VERSION,
};
use crate::store::{cas_outcome, state_after};

verus! {

/// The record after applying `vs` one after another, each update that fails
/// validation leaving the record as it was.
pub open spec fn apply_all(m: ConfigModel, vs: Seq<FieldValue>) -> ConfigModel
    decreases vs.len(),
{
    if vs.len() == 0 {
        m
    } else {
        let next = match update_outcome(m, vs[0]) {
            Ok(n) => n,
            Err(_) => m,
        };
        apply_all(next, vs.drop_first())
    }
}

/// How many of the updates `vs`, applied one after another from `m`, succeed.
pub open spec fn successes(m: ConfigModel, vs: Seq<FieldValue>) -> nat
    decreases vs.len(),
{
    if vs.len() == 0 {
        0
    } else {
        match update_outcome(m, vs[0]) {
            Ok(n) => 1 + successes(n, vs.drop_first()),
            Err(_) => successes(m, vs.drop_first()),
        }
    }
}

/// A successful update keeps the record invariants and raises the version by exactly one;
/// a failed one changes nothing.
pub proof fn lemma_update_step(m: ConfigModel, v: FieldValue)
    requires
        model_wf(m),
    ensures
        update_outcome(m, v) matches Ok(n) ==> model_wf(n) && n.version == m.version + 1,
{
}

/// Over any sequence of updates the version counts the successful ones and nothing
/// else: it rises by one for each success, never on a failure.
pub proof fn lemma_versions_count_successes(m: ConfigModel, vs: Seq<FieldValue>)
    requires
        model_wf(m),
    ensures
        model_wf(apply_all(m, vs)),
        apply_all(m, vs).version == m.version + successes(m, vs),
    decreases vs.len(),
{
    if vs.len() > 0 {
        lemma_update_step(m, vs[0]);
        match update_outcome(m, vs[0]) {
            Ok(n) => lemma_versions_count_successes(n, vs.drop_first()),
            Err(_) => lemma_versions_count_successes(m, vs.drop_first()),
        }
    }
}

/// The store after compare-and-swap calls `vs`, all expecting `expected`, in some order.
pub open spec fn cas_all(s: Option<ConfigModel>, expected: u64, vs: Seq<FieldValue>) -> Option<
    ConfigModel,
>
    decreases vs.len(),
{
    if vs.len() == 0 {
        s
    } else {
        cas_all(state_after(s, cas_outcome(s, expected, vs[0])), expected, vs.drop_first())
    }
}

/// How many of the compare-and-swap calls `vs`, all expecting `expected`, succeed.
pub open spec fn cas_successes(s: Option<ConfigModel>, expected: u64, vs: Seq<FieldValue>) -> nat
    decreases vs.len(),
{
    if vs.len() == 0 {
        0
    } else {
        let r = cas_outcome(s, expected, vs[0]);
        (if r is Ok { 1nat } else { 0nat }) + cas_successes(state_after(s, r), expected, vs.drop_first())
    }
}

proof fn lemma_stale_expectation_fails(s: Option<ConfigModel>, expected: u64, vs: Seq<FieldValue>)
    requires
        s matches Some(m) && m.version != expected,
    ensures
        cas_successes(s, expected, vs) == 0,
        cas_all(s, expected, vs) == s,
    decreases vs.len(),
{
    if vs.len() > 0 {
        lemma_stale_expectation_fails(s, expected, vs.drop_first());
    }
}

/// When several writers race with the same expected version, whatever order they
/// land in, exactly one of them succeeds and every other one sees a conflict,
/// provided each value would have been accepted on its own.
pub proof fn lemma_single_winner(m: ConfigModel, vs: Seq<FieldValue>)
    requires
        model_wf(m),
        vs.len() >= 1,
        forall|i: int| 0 <= i < vs.len() ==> (#[trigger] update_outcome(m, vs[i])) is Ok,
    ensures
        cas_successes(Some(m), m.version, vs) == 1,
        forall|i: int|
            1 <= i < vs.len() ==> cas_outcome(
                cas_all(Some(m), m.version, vs.take(i)),
                m.version,
                #[trigger] vs[i],
            ) == Err::<ConfigModel, crate::config::StoreError>(crate::config::StoreError::Conflict),
{
    assert(update_outcome(m, vs[0]) is Ok);
    let s1 = state_after(Some(m), cas_outcome(Some(m), m.version, vs[0]));
    lemma_update_step(m, vs[0]);
    lemma_stale_expectation_fails(s1, m.version, vs.drop_first());
    assert forall|i: int| 1 <= i < vs.len() implies cas_outcome(
        cas_all(Some(m), m.version, vs.take(i)),
        m.version,
        #[trigger] vs[i],
    ) == Err::<ConfigModel, crate::config::StoreError>(crate::config::StoreError::Conflict) by {
        assert(vs.take(i).drop_first() =~= vs.drop_first().take(i - 1));
        lemma_stale_expectation_fails(s1, m.version, vs.drop_first().take(i - 1));
    }
}

/// After `reset` of a field, reading the record gives that field's default value,
/// whatever it held before; nothing else but the version changes.
pub proof fn lemma_reset_restores_default(m: ConfigModel, f: ResetCommand)
    requires
        model_wf(m),
        m.version < MAX_VERSION,
    ensures
        reset_outcome(m, f) matches Ok(n) && model_wf(n) && n.version == m.version + 1 && match f {
            ResetCommand::Domain => n.domain == default_model().domain,
            ResetCommand::Entry => n.ip_allowlist == default_model().ip_allowlist,
            ResetCommand::IP => n.host == default_model().host && n.port == default_model().port,
            ResetCommand::Htps => n.tls_cert_ref == default_model().tls_cert_ref,
        },
{
}

/// Writing a record to storage and reading it back, as a restarted process does,
/// gives the same record.
pub proof fn lemma_row_round_trip(c: ServerConfig, row: ConfigRow)
    requires
        c.wf(),
        row.username@ == c.username@,
        row.password_hash@ == c.password_hash@,
        row.host@ == c.host@,
        row.port == c.port as i64,
        row.domain.deep_view() == c.domain.deep_view(),
        row.tls_cert_ref.deep_view() == c.tls_cert_ref.deep_view(),
        row.ip_allowlist.deep_view() == c.ip_allowlist.deep_view(),
        row.version == c.version as i64,
    ensures
        row_ok(row),
        row_model(row) == c@,
{
}

} // verus!
