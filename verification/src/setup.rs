use vstd::prelude::*;
use crate::foreign_server::{create_ddl, update_ddl, ForeignServer, ForeignServerV};
use crate::shard::Shard;

verus! {

// What the migration leader does while it holds the locks, in order:
// configure the foreign-data wrappers, run the pending migrations, remap
// the primary's key tables. Non-leaders do none of it — having waited on
// lock 2 is enough, since the leader releases it only after committing.

/// The work items of one `setup` pass.
#[derive(Clone, Copy, PartialEq, Eq, Structural, Debug)]
pub enum SetupStep {
    /// Create or update the foreign-server entry for every other shard.
    ConfigureFdw,
    /// Run all pending schema migrations.
    MigrateSchema,
    /// Remap the primary's key tables into the local schema.
    MapPrimary,
}

/// The leader performs the three steps in order; everyone else performs
/// none and relies on the barrier.
pub fn setup_plan(leader: bool) -> (r: Vec<SetupStep>)
    ensures
        leader ==> r@ == seq![
            SetupStep::ConfigureFdw,
            SetupStep::MigrateSchema,
            SetupStep::MapPrimary,
        ],
        !leader ==> r@.len() == 0,
{
    let mut steps: Vec<SetupStep> = Vec::new();
    if leader {
        steps.push(SetupStep::ConfigureFdw);
        steps.push(SetupStep::MigrateSchema);
        steps.push(SetupStep::MapPrimary);
        proof {
            assert(steps@ =~= seq![
                SetupStep::ConfigureFdw,
                SetupStep::MigrateSchema,
                SetupStep::MapPrimary,
            ]);
        }
    }
    steps
}

/// The statement batches that bring the foreign-server entries of one
/// shard's database up to date: one batch per configured server that
/// describes another shard — an update where the entry already exists,
/// a creation where it does not. A shard never links to itself.
pub open spec fn fdw_plan(
    servers: Seq<ForeignServerV>,
    current: Seq<Seq<char>>,
    self_shard: Seq<char>,
) -> Seq<Seq<char>>
    decreases servers.len(),
{
    if servers.len() == 0 {
        Seq::empty()
    } else {
        let plan = fdw_plan(servers.drop_last(), current, self_shard);
        let v = servers.last();
        if v.shard == self_shard {
            plan
        } else if current.contains(v.name) {
            plan.push(update_ddl(v))
        } else {
            plan.push(create_ddl(v))
        }
    }
}

/// Whether `name` is among the already-registered server names.
fn contains_name(current: &Vec<String>, name: &String) -> (r: bool)
    ensures
        r == current@.map_values(|s: String| s@).contains(name@),
{
    let ghost names = current@.map_values(|s: String| s@);
    let mut i: usize = 0;
    while i < current.len()
        invariant
            0 <= i <= current.len(),
            names == current@.map_values(|s: String| s@),
            forall|j: int| 0 <= j < i ==> names[j] != name@,
        decreases current.len() - i,
    {
        if current[i].eq(name) {
            assert(names[i as int] == name@);
            return true;
        }
        i += 1;
    }
    false
}

/// Compute the batches `fdw_plan` describes for this shard, given the
/// configured servers and the server names currently registered on this
/// shard's database.
pub fn configure_fdw_plan(servers: &Vec<ForeignServer>, current: &Vec<String>, self_shard: &Shard)
    -> (r: Vec<String>)
    ensures
        r@.map_values(|s: String| s@) == fdw_plan(
            servers@.map_values(|f: ForeignServer| f@),
            current@.map_values(|s: String| s@),
            self_shard@,
        ),
{
    let ghost views = servers@.map_values(|f: ForeignServer| f@);
    let ghost names = current@.map_values(|s: String| s@);
    let mut plan: Vec<String> = Vec::new();
    let mut i: usize = 0;
    while i < servers.len()
        invariant
            0 <= i <= servers.len(),
            views == servers@.map_values(|f: ForeignServer| f@),
            names == current@.map_values(|s: String| s@),
            plan@.map_values(|s: String| s@) == fdw_plan(
                views.subrange(0, i as int),
                names,
                self_shard@,
            ),
        decreases servers.len() - i,
    {
        proof {
            assert(views.subrange(0, i + 1).drop_last() =~= views.subrange(0, i as int));
            assert(views.subrange(0, i + 1).last() == views[i as int]);
        }
        let server = &servers[i];
        if !(server.shard == *self_shard) {
            let batch = if contains_name(current, &server.name) {
                server.update()
            } else {
                server.create()
            };
            plan.push(batch);
            proof {
                assert(plan@.map_values(|s: String| s@) =~= fdw_plan(
                    views.subrange(0, i + 1),
                    names,
                    self_shard@,
                ));
            }
        } else {
            proof {
                assert(plan@.map_values(|s: String| s@) =~= fdw_plan(
                    views.subrange(0, i + 1),
                    names,
                    self_shard@,
                ));
            }
        }
        i += 1;
    }
    proof {
        assert(views.subrange(0, servers.len() as int) =~= views);
    }
    plan
}

/// What follows a migration run.
#[derive(Clone, Copy, PartialEq, Eq, Structural, Debug)]
pub enum MigrationFollowup {
    /// The run failed: surface the failure; the process aborts rather
    /// than serve a partially migrated shard.
    Fail,
    /// The run succeeded and produced output — the signal that real
    /// migration work happened — so the planner's statistics cache is
    /// reset (a failure to reset is not serious).
    ResetStats,
    /// The run succeeded without output: nothing ran, nothing to do.
    Nothing,
}

/// Decide what follows a migration run from its result and its captured
/// output. Every failure is fatal, whether or not the run produced
/// output; output after a successful run means real work occurred.
pub fn migration_followup(output: &Vec<u8>, run_ok: bool) -> (r: MigrationFollowup)
    ensures
        r == (if !run_ok {
            MigrationFollowup::Fail
        } else if output@.len() > 0 {
            MigrationFollowup::ResetStats
        } else {
            MigrationFollowup::Nothing
        }),
{
    if !run_ok {
        MigrationFollowup::Fail
    } else if output.len() > 0 {
        MigrationFollowup::ResetStats
    } else {
        MigrationFollowup::Nothing
    }
}

} // verus!
