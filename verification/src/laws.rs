//! The guarantees that span more than one operation, stated and proved
//! once.

use vstd::prelude::*;
use crate::cbytes::{terminated, nul_free, is_c_string, lemma_terminated_is_c_string};
use crate::spawn::{
    SpawnCfg, SpawnError, Spawned, LaunchPlan, EnvPair, WaitOutcome, spawn_contract,
    launch_plan_for, envp_model, env_entry_model, synthetic_exit, prog_name_bytes, argv_model,
};
use crate::trampoline::parse_model;

verus! {

/// For the no-op target a spawn always succeeds, creates no process, and
/// hands back a handle whose wait is the immediate synthetic outcome:
/// exited with code 0.
pub proof fn lemma_noop_spawn_waits_zero(
    prev: SpawnCfg,
    now: SpawnCfg,
    env: Seq<EnvPair>,
    image: Seq<u8>,
    r: Result<Spawned, SpawnError>,
)
    requires
        prev.target is Noop,
        spawn_contract(prev, now, env, image, r),
    ensures
        r matches Ok(Spawned::NoProcess(c)) && c.pid == None::<i32>,
        synthetic_exit() == (WaitOutcome::Exited { pid: 0, code: 0 }),
{
}

/// What the launcher packs into the argument vector, the trampoline
/// reads back exactly: the argv of a plan for an explicit (path, symbol)
/// target, as the fresh process receives it — each argument stripped of
/// its C terminator — parses to that very pair.
pub proof fn lemma_argv_round_trip(
    plan: LaunchPlan,
    path: Seq<u8>,
    symbol: Seq<u8>,
    env: Seq<EnvPair>,
    cfg: SpawnCfg,
)
    requires
        launch_plan_for(plan, path, symbol, env, cfg),
    ensures
        parse_model(
            plan.argv@.map_values(|a: Vec<u8>| a@).map_values(|s: Seq<u8>| s.drop_last()),
        ) == Some((path, symbol)),
{
    let inner = plan.argv@.map_values(|a: Vec<u8>| a@);
    let stripped = inner.map_values(|s: Seq<u8>| s.drop_last());
    assert(stripped.len() == 3);
    assert(inner[1] == terminated(path));
    assert(inner[2] == terminated(symbol));
    assert(terminated(path).drop_last() =~= path);
    assert(terminated(symbol).drop_last() =~= symbol);
    assert(stripped[1] == path);
    assert(stripped[2] == symbol);
}

/// Environment inheritance: with inheritance on, the child's environment
/// block holds exactly one `name=value` entry for every variable of the
/// snapshot, in their order; with it off, the block is empty.
pub proof fn lemma_env_inheritance(env: Seq<EnvPair>)
    ensures
        envp_model(env, true).len() == env.len(),
        forall|i: int| 0 <= i < env.len()
            ==> envp_model(env, true)[i] == env_entry_model(env[i].name@, env[i].value@),
        envp_model(env, false).len() == 0,
{
}

/// One environment entry of a well-formed pair is a C string.
pub proof fn lemma_env_entry_is_c_string(name: Seq<u8>, value: Seq<u8>)
    requires
        nul_free(name),
        nul_free(value),
    ensures
        is_c_string(env_entry_model(name, value)),
{
    let e = env_entry_model(name, value);
    assert(e.last() == 0u8);
    assert(e.drop_last() =~= name + seq![61u8] + value);
    assert forall|i: int| 0 <= i < e.drop_last().len() implies e.drop_last()[i] != 0u8 by {
        let d = name + seq![61u8] + value;
        if i < name.len() {
            assert(d[i] == name[i]);
        } else if i == name.len() {
            assert(d[i] == 61u8);
        } else {
            assert(d[i] == value[i - name.len() - 1]);
        }
    }
}

/// Every buffer of a launch plan is one complete C string — NUL-free
/// content with the terminator standing exactly at the end, the shape
/// the exec's argument and environment tables require, so the child
/// path can hand the buffers over without inspecting them.
pub proof fn lemma_plan_buffers_are_c_strings(
    plan: LaunchPlan,
    path: Seq<u8>,
    symbol: Seq<u8>,
    env: Seq<EnvPair>,
    cfg: SpawnCfg,
)
    requires
        launch_plan_for(plan, path, symbol, env, cfg),
        nul_free(path),
        nul_free(symbol),
        forall|i: int| 0 <= i < env.len() ==> env[i].wf(),
    ensures
        forall|i: int| 0 <= i < plan.argv@.len() ==> is_c_string(#[trigger] plan.argv@[i]@),
        forall|i: int| 0 <= i < plan.envp@.len() ==> is_c_string(#[trigger] plan.envp@[i]@),
{
    assert(nul_free(prog_name_bytes()));
    lemma_terminated_is_c_string(prog_name_bytes());
    lemma_terminated_is_c_string(path);
    lemma_terminated_is_c_string(symbol);
    assert(plan.argv@[0]@ == argv_model(path, symbol)[0]);
    assert(plan.argv@[1]@ == argv_model(path, symbol)[1]);
    assert(plan.argv@[2]@ == argv_model(path, symbol)[2]);
    assert forall|i: int| 0 <= i < plan.envp@.len() implies is_c_string(
        #[trigger] plan.envp@[i]@,
    ) by {
        assert(plan.envp@[i]@ == envp_model(env, cfg.inherit_env)[i]);
        assert(cfg.inherit_env && 0 <= i < env.len());
        assert(env[i].wf());
        lemma_env_entry_is_c_string(env[i].name@, env[i].value@);
    }
}

/// Spawns are isolated: a launch plan is a function of its own
/// configuration and environment snapshot alone, so two spawns with
/// distinct output descriptors yield plans that write through distinct
/// descriptors — whichever child is waited on first.
pub proof fn lemma_spawns_isolated(
    plan1: LaunchPlan,
    plan2: LaunchPlan,
    path1: Seq<u8>,
    symbol1: Seq<u8>,
    path2: Seq<u8>,
    symbol2: Seq<u8>,
    env: Seq<EnvPair>,
    cfg1: SpawnCfg,
    cfg2: SpawnCfg,
)
    requires
        launch_plan_for(plan1, path1, symbol1, env, cfg1),
        launch_plan_for(plan2, path2, symbol2, env, cfg2),
        cfg1.stdout != cfg2.stdout,
    ensures
        plan1.stdout == cfg1.stdout,
        plan2.stdout == cfg2.stdout,
        plan1.stdout != plan2.stdout,
{
}

} // verus!
