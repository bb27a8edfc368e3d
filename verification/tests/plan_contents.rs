use kernel_builder::overrides::OVERRIDE_BLOCK;
use kernel_builder::pipeline::{
    archive_name, build_plan, build_step, collect_steps, config_steps, work_dir_name, Action,
    Stage, KERNEL_URL,
};
use kernel_builder::target::resolve;

fn arg_strings(action: &Action) -> Vec<String> {
    match action {
        Action::Run { invocation } => invocation.args.clone(),
        _ => panic!("expected a subprocess run"),
    }
}

#[test]
fn archive_and_work_dir_names_follow_the_url() {
    assert_eq!(KERNEL_URL, "https://cdn.kernel.org/pub/linux/kernel/v6.x/linux-6.15.4.tar.xz");
    assert_eq!(archive_name(), "linux-6.15.4.tar.xz");
    assert_eq!(work_dir_name(), "linux-6.15.4");
}

#[test]
fn config_steps_run_in_fixed_order() {
    let t = resolve("x86_64").unwrap();
    let steps = config_steps(&t);
    assert_eq!(steps.len(), 4);
    for s in steps.iter() {
        assert_eq!(s.stage, Stage::Configure);
    }
    assert_eq!(arg_strings(&steps[0].action), vec!["ARCH=x86_64", "defconfig"]);
    assert_eq!(arg_strings(&steps[1].action), vec!["ARCH=x86_64", "mod2noconfig"]);
    match &steps[2].action {
        Action::AppendFile { path, text } => {
            assert_eq!(path, ".config");
            assert_eq!(text, OVERRIDE_BLOCK);
        }
        _ => panic!("third configuration step must append the overrides"),
    }
    assert_eq!(arg_strings(&steps[3].action), vec!["ARCH=x86_64", "olddefconfig"]);
}

#[test]
fn override_append_lands_between_noise_reduction_and_normalization() {
    for token in ["x86_64", "rpi"] {
        let t = resolve(token).unwrap();
        let plan = build_plan(&t, 4);
        let append_at = plan
            .iter()
            .position(|s| matches!(s.action, Action::AppendFile { .. }))
            .unwrap();
        let position_of_word = |word: &str| {
            plan.iter()
                .position(|s| match &s.action {
                    Action::Run { invocation } => {
                        invocation.program == "make"
                            && invocation.args.iter().any(|a| a == word)
                    }
                    _ => false,
                })
                .unwrap()
        };
        assert!(position_of_word("defconfig") < append_at);
        assert!(position_of_word("mod2noconfig") < append_at);
        assert!(append_at < position_of_word("olddefconfig"));
        let appends = plan
            .iter()
            .filter(|s| matches!(s.action, Action::AppendFile { .. }))
            .count();
        assert_eq!(appends, 1);
    }
}

#[test]
fn build_step_for_x86_64() {
    let t = resolve("x86_64").unwrap();
    let step = build_step(&t, 4);
    assert_eq!(step.stage, Stage::Build);
    assert_eq!(
        arg_strings(&step.action),
        vec!["ARCH=x86_64", "bzImage", "modules", "-j4"]
    );
}

#[test]
fn build_step_for_rpi() {
    let t = resolve("rpi").unwrap();
    let step = build_step(&t, 16);
    assert_eq!(
        arg_strings(&step.action),
        vec![
            "ARCH=arm64",
            "CROSS_COMPILE=aarch64-linux-gnu-",
            "Image.gz",
            "dtbs",
            "modules",
            "-j16"
        ]
    );
}

#[test]
fn collect_steps_for_x86_64() {
    let t = resolve("x86_64").unwrap();
    let steps = collect_steps(&t);
    assert_eq!(steps.len(), 1);
    match &steps[0].action {
        Action::CopyFile { source, dest } => {
            assert_eq!(source, "linux-6.15.4/arch/x86_64/boot/bzImage");
            assert_eq!(dest, "vmlinuz-x86_64");
        }
        _ => panic!("collection must copy the image"),
    }
}

#[test]
fn collect_steps_for_rpi() {
    let t = resolve("rpi").unwrap();
    let steps = collect_steps(&t);
    assert_eq!(steps.len(), 6);
    let copies: Vec<(String, String)> = steps
        .iter()
        .map(|s| match &s.action {
            Action::CopyFile { source, dest } => (source.clone(), dest.clone()),
            _ => panic!("collection steps must all be copies"),
        })
        .collect();
    assert_eq!(
        copies[0],
        (
            "linux-6.15.4/arch/arm64/boot/Image.gz".to_string(),
            "vmlinuz-rpi".to_string()
        )
    );
    assert_eq!(
        copies[1],
        (
            "linux-6.15.4/arch/arm64/boot/dts/broadcom/bcm2837-rpi-3-b.dtb".to_string(),
            "bcm2710-rpi-3-b.dtb".to_string()
        )
    );
    assert_eq!(
        copies[5],
        (
            "linux-6.15.4/arch/arm64/boot/dts/broadcom/bcm2837-rpi-zero-2-w.dtb".to_string(),
            "bcm2710-rpi-zero-2-w.dtb".to_string()
        )
    );
}

#[test]
fn plan_layout_for_x86_64() {
    let t = resolve("x86_64").unwrap();
    let plan = build_plan(&t, 4);
    assert_eq!(plan.len(), 12);
    let stages: Vec<Stage> = plan.iter().map(|s| s.stage).collect();
    assert_eq!(
        stages,
        vec![
            Stage::Fetch,
            Stage::Unpack,
            Stage::Configure,
            Stage::Configure,
            Stage::Configure,
            Stage::Configure,
            Stage::Configure,
            Stage::Build,
            Stage::Build,
            Stage::Collect,
            Stage::Clean,
            Stage::Clean,
        ]
    );
    match &plan[0].action {
        Action::Fetch { url, dest } => {
            assert_eq!(url, KERNEL_URL);
            assert_eq!(dest, "linux-6.15.4.tar.xz");
        }
        _ => panic!("the plan must start with the download"),
    }
    match &plan[1].action {
        Action::Run { invocation } => {
            assert_eq!(invocation.program, "tar");
            assert_eq!(invocation.args, vec!["xf", "linux-6.15.4.tar.xz"]);
        }
        _ => panic!("the second step must unpack"),
    }
    assert!(matches!(&plan[2].action, Action::EnterDir { path } if path == "linux-6.15.4"));
    assert!(matches!(&plan[8].action, Action::LeaveDir));
    assert!(matches!(&plan[10].action, Action::RemoveFile { path } if path == "linux-6.15.4.tar.xz"));
    assert!(matches!(&plan[11].action, Action::RemoveDirAll { path } if path == "linux-6.15.4"));
}

#[test]
fn every_subprocess_runs_without_stdin() {
    for token in ["x86_64", "rpi"] {
        let t = resolve(token).unwrap();
        let plan = build_plan(&t, 8);
        let mut runs = 0;
        for s in plan.iter() {
            if let Action::Run { invocation } = &s.action {
                assert!(!invocation.stdin_enabled);
                runs += 1;
            }
        }
        assert_eq!(runs, 5);
    }
}

#[test]
fn override_block_carries_the_curated_text() {
    assert!(OVERRIDE_BLOCK.starts_with("\nCONFIG_ARCH_BCM2835=y\n"));
    assert!(OVERRIDE_BLOCK.contains("\nCONFIG_WIREGUARD=y\n"));
    assert!(OVERRIDE_BLOCK.contains("\nCONFIG_SND_SOC_TEGRA_RT5677=y\n"));
    assert!(OVERRIDE_BLOCK.ends_with("\n"));
}
