use kernel_builder::error::Error;
use kernel_builder::target::resolve;

#[test]
fn resolve_x86_64_token() {
    let t = resolve("x86_64").unwrap();
    assert_eq!(t.token, "x86_64");
    assert_eq!(t.build_arch, "x86_64");
    assert!(t.cross.is_none());
    assert_eq!(t.image, "bzImage");
    assert!(t.dtbs.is_empty());
}

#[test]
fn resolve_rpi_token() {
    let t = resolve("rpi").unwrap();
    assert_eq!(t.token, "rpi");
    assert_eq!(t.build_arch, "arm64");
    assert_eq!(t.cross.as_deref(), Some("aarch64-linux-gnu-"));
    assert_eq!(t.image, "Image.gz");
    let pairs: Vec<(&str, &str)> = t
        .dtbs
        .iter()
        .map(|p| (p.source.as_str(), p.dest.as_str()))
        .collect();
    assert_eq!(
        pairs,
        vec![
            (
                "arch/arm64/boot/dts/broadcom/bcm2837-rpi-3-b.dtb",
                "bcm2710-rpi-3-b.dtb"
            ),
            (
                "arch/arm64/boot/dts/broadcom/bcm2837-rpi-3-b-plus.dtb",
                "bcm2710-rpi-3-b-plus.dtb"
            ),
            (
                "arch/arm64/boot/dts/broadcom/bcm2837-rpi-cm3-io3.dtb",
                "bcm2710-rpi-cm3.dtb"
            ),
            (
                "arch/arm64/boot/dts/broadcom/bcm2711-rpi-4-b.dtb",
                "bcm2711-rpi-4-b.dtb"
            ),
            (
                "arch/arm64/boot/dts/broadcom/bcm2837-rpi-zero-2-w.dtb",
                "bcm2710-rpi-zero-2-w.dtb"
            ),
        ]
    );
}

#[test]
fn resolve_is_deterministic() {
    let a = resolve("rpi").unwrap();
    let b = resolve("rpi").unwrap();
    assert_eq!(a.token, b.token);
    assert_eq!(a.build_arch, b.build_arch);
    assert_eq!(a.cross, b.cross);
    assert_eq!(a.image, b.image);
    assert_eq!(a.dtbs.len(), b.dtbs.len());
    for (x, y) in a.dtbs.iter().zip(b.dtbs.iter()) {
        assert_eq!(x.source, y.source);
        assert_eq!(x.dest, y.dest);
    }
}

#[test]
fn resolve_unknown_token_fails() {
    assert_eq!(resolve("riscv").unwrap_err(), Error::InputError);
    assert_eq!(resolve("").unwrap_err(), Error::InputError);
    assert_eq!(resolve("X86_64").unwrap_err(), Error::InputError);
    assert_eq!(resolve("rpi ").unwrap_err(), Error::InputError);
    assert_eq!(resolve("arm64").unwrap_err(), Error::InputError);
}
