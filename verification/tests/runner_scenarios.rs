use kernel_builder::error::Error;
use kernel_builder::pipeline::{Action, Stage};
use kernel_builder::runner::{Runner, Status, StepOutcome};

/// Drives a runner, replying success to every handed-out action except the
/// one at `fail_at`, which gets `failure`; returns the actions handed out.
fn drive(mut runner: Runner, fail_at: Option<usize>, failure: Error) -> (Vec<Action>, Status) {
    let mut performed: Vec<Action> = Vec::new();
    loop {
        let action = match runner.next_action() {
            Some(a) => a.clone(),
            None => break,
        };
        performed.push(action);
        let outcome = match fail_at {
            Some(k) if performed.len() == k + 1 => StepOutcome::Failure(failure),
            _ => StepOutcome::Success,
        };
        runner.step(outcome);
    }
    (performed, runner.status())
}

fn is_cleanup(action: &Action) -> bool {
    matches!(action, Action::RemoveFile { .. } | Action::RemoveDirAll { .. })
}

#[test]
fn unknown_token_is_rejected_before_any_action() {
    let err = Runner::new("powerpc", 4).unwrap_err();
    assert_eq!(err, Error::InputError);
}

#[test]
fn successful_run_performs_the_whole_plan() {
    let runner = Runner::new("x86_64", 4).unwrap();
    let (performed, status) = drive(runner, None, Error::ProcessError);
    assert_eq!(status, Status::Done);
    assert_eq!(performed.len(), 12);
    assert!(performed.iter().rev().take(2).all(is_cleanup));
}

#[test]
fn failure_at_each_position_aborts_the_rest() {
    let full = {
        let runner = Runner::new("x86_64", 4).unwrap();
        drive(runner, None, Error::ProcessError).0
    };
    let expected_stage = |k: usize| match k {
        0 => Stage::Fetch,
        1 => Stage::Unpack,
        2..=6 => Stage::Configure,
        7 | 8 => Stage::Build,
        9 => Stage::Collect,
        _ => Stage::Clean,
    };
    for k in 0..full.len() {
        let runner = Runner::new("x86_64", 4).unwrap();
        let (performed, status) = drive(runner, Some(k), Error::ProcessError);
        assert_eq!(performed.len(), k + 1);
        assert_eq!(status, Status::Failed(expected_stage(k), Error::ProcessError));
        if k < 10 {
            assert!(performed.iter().all(|a| !is_cleanup(a)));
        }
    }
}

#[test]
fn cleanup_never_runs_when_the_build_fails() {
    let runner = Runner::new("rpi", 8).unwrap();
    let (performed, status) = drive(runner, Some(7), Error::ProcessError);
    assert_eq!(status, Status::Failed(Stage::Build, Error::ProcessError));
    assert!(performed.iter().all(|a| !is_cleanup(a)));
}

#[test]
fn x86_64_run_end_to_end() {
    let runner = Runner::new("x86_64", 4).unwrap();
    let (performed, status) = drive(runner, None, Error::ProcessError);
    assert_eq!(status, Status::Done);

    match &performed[0] {
        Action::Fetch { url, dest } => {
            assert_eq!(url, "https://cdn.kernel.org/pub/linux/kernel/v6.x/linux-6.15.4.tar.xz");
            assert_eq!(dest, "linux-6.15.4.tar.xz");
        }
        _ => panic!("a run must start by downloading the archive"),
    }

    let mut make_runs: Vec<Vec<String>> = Vec::new();
    for a in performed.iter() {
        if let Action::Run { invocation } = a {
            if invocation.program == "make" {
                make_runs.push(invocation.args.clone());
            }
        }
    }
    assert_eq!(make_runs.len(), 4);
    for args in make_runs.iter() {
        assert_eq!(args[0], "ARCH=x86_64");
        assert!(args.iter().all(|a| !a.starts_with("CROSS_COMPILE=")));
    }
    assert!(make_runs[3].iter().any(|a| a == "bzImage"));
    assert!(make_runs[3].iter().all(|a| a != "dtbs"));

    let copies: Vec<(String, String)> = performed
        .iter()
        .filter_map(|a| match a {
            Action::CopyFile { source, dest } => Some((source.clone(), dest.clone())),
            _ => None,
        })
        .collect();
    assert_eq!(
        copies,
        vec![(
            "linux-6.15.4/arch/x86_64/boot/bzImage".to_string(),
            "vmlinuz-x86_64".to_string()
        )]
    );
}

#[test]
fn rpi_run_end_to_end() {
    let runner = Runner::new("rpi", 4).unwrap();
    let (performed, status) = drive(runner, None, Error::ProcessError);
    assert_eq!(status, Status::Done);

    let build_args: Vec<String> = performed
        .iter()
        .filter_map(|a| match a {
            Action::Run { invocation }
                if invocation.program == "make"
                    && invocation.args.iter().any(|x| x == "modules") =>
            {
                Some(invocation.args.clone())
            }
            _ => None,
        })
        .next()
        .unwrap();
    assert!(build_args.iter().any(|a| a == "CROSS_COMPILE=aarch64-linux-gnu-"));
    assert!(build_args.iter().any(|a| a == "dtbs"));
    assert!(build_args.iter().any(|a| a == "Image.gz"));

    let dests: Vec<String> = performed
        .iter()
        .filter_map(|a| match a {
            Action::CopyFile { dest, .. } => Some(dest.clone()),
            _ => None,
        })
        .collect();
    assert_eq!(
        dests,
        vec![
            "vmlinuz-rpi",
            "bcm2710-rpi-3-b.dtb",
            "bcm2710-rpi-3-b-plus.dtb",
            "bcm2710-rpi-cm3.dtb",
            "bcm2711-rpi-4-b.dtb",
            "bcm2710-rpi-zero-2-w.dtb",
        ]
    );
}

#[test]
fn missing_blob_stops_collection_without_a_partial_set() {
    let runner = Runner::new("rpi", 4).unwrap();
    // The image copy at position 9 succeeds; the first blob copy, at
    // position 10, fails because its source is missing.
    let (performed, status) = drive(runner, Some(10), Error::IOError);
    assert_eq!(status, Status::Failed(Stage::Collect, Error::IOError));
    let dests: Vec<String> = performed
        .iter()
        .filter_map(|a| match a {
            Action::CopyFile { dest, .. } => Some(dest.clone()),
            _ => None,
        })
        .collect();
    // Only the image and the one failed blob were ever attempted.
    assert_eq!(dests, vec!["vmlinuz-rpi", "bcm2710-rpi-3-b.dtb"]);
    assert!(performed.iter().all(|a| !is_cleanup(a)));
}

#[test]
fn host_parallelism_hint_is_at_least_one_worker() {
    let runner = Runner::for_host("x86_64").unwrap();
    let (performed, status) = drive(runner, None, Error::ProcessError);
    assert_eq!(status, Status::Done);
    let build_args: Vec<String> = performed
        .iter()
        .filter_map(|a| match a {
            Action::Run { invocation }
                if invocation.args.iter().any(|x| x == "modules") =>
            {
                Some(invocation.args.clone())
            }
            _ => None,
        })
        .next()
        .unwrap();
    let jobs_arg = build_args.last().unwrap();
    let count: usize = jobs_arg.strip_prefix("-j").unwrap().parse().unwrap();
    assert!(count >= 1);
}
