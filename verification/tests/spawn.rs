use spawn_worker::cbytes::CBytes;
use spawn_worker::spawn::{
    resolved_target, Child, EnvPair, SpawnCfg, SpawnError, Spawned, Target, WaitOutcome,
};

fn cbytes(b: &[u8]) -> CBytes {
    CBytes::new(b.to_vec()).unwrap()
}

fn devnull_rd() -> i32 {
    nix::fcntl::open(
        "/dev/null",
        nix::fcntl::OFlag::O_RDONLY,
        nix::sys::stat::Mode::empty(),
    )
    .unwrap()
}

fn devnull_wr() -> i32 {
    nix::fcntl::open(
        "/dev/null",
        nix::fcntl::OFlag::O_WRONLY,
        nix::sys::stat::Mode::empty(),
    )
    .unwrap()
}

#[test]
fn noop_spawn_waits_immediate_zero() {
    let mut cfg = SpawnCfg::new();
    let image: Vec<u8> = vec![1, 2, 3];
    let env: Vec<EnvPair> = Vec::new();
    match cfg.spawn(&image, &env).unwrap() {
        Spawned::NoProcess(child) => match child.wait().unwrap() {
            WaitOutcome::Exited { pid, code } => {
                assert_eq!(pid, 0);
                assert_eq!(code, 0);
            }
            _ => panic!("the synthetic outcome must be a normal exit"),
        },
        _ => panic!("the no-op target must not plan a process"),
    }
}

#[test]
fn explicit_target_builds_the_trampoline_argv() {
    let stdin_fd = devnull_rd();
    let stdout_fd = devnull_wr();
    let stderr_fd = devnull_wr();
    let mut cfg = SpawnCfg::new();
    cfg.target(Target::ManualTrampoline(
        cbytes(b"__dummy_mirror_test"),
        cbytes(b"symbol_name"),
    ))
    .stdin(stdin_fd)
    .stdout(stdout_fd)
    .stderr(stderr_fd);
    let image: Vec<u8> = b"not a real executable image".to_vec();
    let env: Vec<EnvPair> = Vec::new();
    let plan = match cfg.spawn(&image, &env).unwrap() {
        Spawned::Launch(plan) => plan,
        _ => panic!("an explicit target must yield a launch plan"),
    };
    assert_eq!(plan.argv.len(), 3);
    assert_eq!(plan.argv[0], b"trampoline\0".to_vec());
    assert_eq!(plan.argv[1], b"__dummy_mirror_test\0".to_vec());
    assert_eq!(plan.argv[2], b"symbol_name\0".to_vec());
    assert_eq!(plan.stdin, Some(stdin_fd));
    assert_eq!(plan.stdout, Some(stdout_fd));
    assert_eq!(plan.stderr, Some(stderr_fd));
    // The configuration's descriptors moved into the plan.
    assert_eq!(cfg.stdin, None);
    assert_eq!(cfg.stdout, None);
    assert_eq!(cfg.stderr, None);
    // The handle re-takes exactly the plan's descriptors.
    let child = plan.into_child(1);
    assert_eq!(child.pid, Some(1));
    assert_eq!(child.stdin, Some(stdin_fd));
    assert_eq!(child.stdout, Some(stdout_fd));
    assert_eq!(child.stderr, Some(stderr_fd));
}

#[test]
fn wait_reports_failure_for_a_foreign_process() {
    // Process 1 exists but is no child of this process, so the kernel
    // reports no status for it.
    let child = Child {
        pid: Some(1),
        stdin: None,
        stderr: None,
        stdout: None,
    };
    assert_eq!(child.wait(), Err(SpawnError::WaitFailed));
}

#[test]
fn env_inheritance_copies_the_snapshot() {
    let env = vec![
        EnvPair::new(b"WORKER_FLAG".to_vec(), b"on".to_vec()).unwrap(),
        EnvPair::new(b"OTHER".to_vec(), b"x y z".to_vec()).unwrap(),
    ];
    let mut cfg = SpawnCfg::new();
    cfg.target(Target::ManualTrampoline(cbytes(b"libw.so"), cbytes(b"run")));
    let image: Vec<u8> = vec![9];
    let plan = match cfg.spawn(&image, &env).unwrap() {
        Spawned::Launch(plan) => plan,
        _ => panic!("an explicit target must yield a launch plan"),
    };
    assert_eq!(
        plan.envp,
        vec![b"WORKER_FLAG=on\0".to_vec(), b"OTHER=x y z\0".to_vec()]
    );
}

#[test]
fn env_inheritance_off_gives_an_empty_block() {
    let env = vec![EnvPair::new(b"WORKER_FLAG".to_vec(), b"on".to_vec()).unwrap()];
    let mut cfg = SpawnCfg::new();
    cfg.target(Target::ManualTrampoline(cbytes(b"libw.so"), cbytes(b"run")))
        .inherit_env(false);
    let image: Vec<u8> = vec![9];
    let plan = match cfg.spawn(&image, &env).unwrap() {
        Spawned::Launch(plan) => plan,
        _ => panic!("an explicit target must yield a launch plan"),
    };
    assert_eq!(plan.envp, Vec::<Vec<u8>>::new());
}

#[test]
fn two_spawns_are_isolated() {
    let out1 = devnull_wr();
    let out2 = devnull_wr();
    assert_ne!(out1, out2);
    let image: Vec<u8> = vec![5];
    let env: Vec<EnvPair> = Vec::new();

    let mut cfg1 = SpawnCfg::new();
    cfg1.target(Target::ManualTrampoline(cbytes(b"lib1.so"), cbytes(b"one")))
        .stdout(out1);
    let plan1 = match cfg1.spawn(&image, &env).unwrap() {
        Spawned::Launch(plan) => plan,
        _ => panic!("an explicit target must yield a launch plan"),
    };

    // The second spawn succeeds before the first child was waited on.
    let mut cfg2 = SpawnCfg::new();
    cfg2.target(Target::ManualTrampoline(cbytes(b"lib2.so"), cbytes(b"two")))
        .stdout(out2);
    let plan2 = match cfg2.spawn(&image, &env).unwrap() {
        Spawned::Launch(plan) => plan,
        _ => panic!("an explicit target must yield a launch plan"),
    };

    // Each plan writes through its own descriptor and names its own
    // symbol: no cross-talk.
    assert_eq!(plan1.stdout, Some(out1));
    assert_eq!(plan2.stdout, Some(out2));
    assert_ne!(plan1.stdout, plan2.stdout);
    assert_eq!(plan1.argv[1], b"lib1.so\0".to_vec());
    assert_eq!(plan2.argv[1], b"lib2.so\0".to_vec());
}

#[test]
fn a_spent_configuration_redirects_nothing() {
    let out = devnull_wr();
    let image: Vec<u8> = vec![5];
    let env: Vec<EnvPair> = Vec::new();
    let mut cfg = SpawnCfg::new();
    cfg.target(Target::ManualTrampoline(cbytes(b"lib.so"), cbytes(b"go")))
        .stdout(out);
    let first = match cfg.spawn(&image, &env).unwrap() {
        Spawned::Launch(plan) => plan,
        _ => panic!("an explicit target must yield a launch plan"),
    };
    assert_eq!(first.stdout, Some(out));
    // The descriptors were moved out: a second spawn of the same
    // configuration inherits every standard slot instead of reusing them.
    let second = match cfg.spawn(&image, &env).unwrap() {
        Spawned::Launch(plan) => plan,
        _ => panic!("an explicit target must yield a launch plan"),
    };
    assert_eq!(second.stdin, None);
    assert_eq!(second.stdout, None);
    assert_eq!(second.stderr, None);
}

#[test]
fn function_pointer_target_asks_for_resolution() {
    let mut cfg = SpawnCfg::new();
    cfg.target(Target::Trampoline(0x1234));
    let image: Vec<u8> = vec![1];
    let env: Vec<EnvPair> = Vec::new();
    match cfg.spawn(&image, &env).unwrap() {
        Spawned::NeedsResolution(addr) => assert_eq!(addr, 0x1234),
        _ => panic!("a function-pointer target must first be resolved"),
    }
}

#[test]
fn resolution_outcome_decides_the_spawn() {
    match resolved_target(Some(cbytes(b"libw.so")), Some(cbytes(b"run"))).unwrap() {
        Target::ManualTrampoline(p, s) => {
            assert_eq!(p.bytes, b"libw.so".to_vec());
            assert_eq!(s.bytes, b"run".to_vec());
        }
        _ => panic!("a full resolution must yield an explicit target"),
    }
    assert_eq!(
        resolved_target(None, Some(cbytes(b"run"))).err(),
        Some(SpawnError::SymbolResolution)
    );
    assert_eq!(
        resolved_target(Some(cbytes(b"libw.so")), None).err(),
        Some(SpawnError::SymbolResolution)
    );
    assert_eq!(
        resolved_target(None, None).err(),
        Some(SpawnError::SymbolResolution)
    );
}

#[test]
fn configuration_defaults_are_empty() {
    let cfg = SpawnCfg::default();
    assert!(matches!(cfg.target, Target::Noop));
    assert_eq!(cfg.stdin, None);
    assert_eq!(cfg.stdout, None);
    assert_eq!(cfg.stderr, None);
    assert!(cfg.inherit_env);
}

#[test]
fn env_pair_accepts_exactly_well_formed_variables() {
    assert!(EnvPair::new(b"".to_vec(), b"v".to_vec()).is_none());
    assert!(EnvPair::new(b"A=B".to_vec(), b"v".to_vec()).is_none());
    assert!(EnvPair::new(b"A\0B".to_vec(), b"v".to_vec()).is_none());
    assert!(EnvPair::new(b"AB".to_vec(), b"v\0w".to_vec()).is_none());
    let p = EnvPair::new(b"AB".to_vec(), b"v w".to_vec()).unwrap();
    assert_eq!(p.name, b"AB".to_vec());
    assert_eq!(p.value, b"v w".to_vec());
}

#[test]
fn cbytes_rejects_interior_nul() {
    assert!(CBytes::new(b"a\0b".to_vec()).is_none());
    let c = CBytes::new(b"ab".to_vec()).unwrap();
    assert_eq!(c.bytes, b"ab".to_vec());
    assert_eq!(c.to_bytes(), b"ab".to_vec());
}
