//! Resolution of a user-facing architecture token into the full, immutable
//! parameter set a run needs: the build-system architecture name, the
//! cross-toolchain prefix (when cross-building), the image file the build
//! produces, and the device-tree blobs to ship for boards that need them.

use vstd::prelude::*;
use vstd::string::StringExecFns;
use crate::error::Error;
use crate::text::str_eq;

verus! {

/// One auxiliary artifact: a build-tree-relative source path and the stable
/// destination name it is shipped under.
#[derive(Clone, Debug)]
pub struct DtbPair {
    pub source: String,
    pub dest: String,
}

/// The mathematical value of a `DtbPair`.
#[verifier::ext_equal]
pub struct DtbPairModel {
    pub source: Seq<char>,
    pub dest: Seq<char>,
}

impl View for DtbPair {
    type V = DtbPairModel;

    open spec fn view(&self) -> DtbPairModel {
        DtbPairModel { source: self.source@, dest: self.dest@ }
    }
}

/// The resolved per-architecture parameter set. Immutable once resolved;
/// every supported token maps to exactly one value of this type.
#[derive(Clone, Debug)]
pub struct TargetSpec {
    /// The user-facing token the spec was resolved from.
    pub token: String,
    /// The architecture name the kernel build system is invoked with.
    pub build_arch: String,
    /// The cross-toolchain prefix, for targets not built natively.
    pub cross: Option<String>,
    /// The image file name the build produces under its boot directory.
    pub image: String,
    /// Device-tree blobs to collect, empty for targets that need none.
    pub dtbs: Vec<DtbPair>,
}

/// The mathematical value of a `TargetSpec`.
#[verifier::ext_equal]
pub struct TargetSpecModel {
    pub token: Seq<char>,
    pub build_arch: Seq<char>,
    pub cross: Option<Seq<char>>,
    pub image: Seq<char>,
    pub dtbs: Seq<DtbPairModel>,
}

impl View for TargetSpec {
    type V = TargetSpecModel;

    open spec fn view(&self) -> TargetSpecModel {
        TargetSpecModel {
            token: self.token@,
            build_arch: self.build_arch@,
            cross: match self.cross {
                Some(c) => Some(c@),
                None => None,
            },
            image: self.image@,
            dtbs: self.dtbs@.map_values(|p: DtbPair| p@),
        }
    }
}

/// The parameter set of the natively built PC-style target.
pub open spec fn x86_64_model() -> TargetSpecModel {
    TargetSpecModel {
        token: "x86_64"@,
        build_arch: "x86_64"@,
        cross: None,
        image: "bzImage"@,
        dtbs: Seq::empty(),
    }
}

/// The device-tree blobs of the cross-built board target.
pub open spec fn rpi_dtbs_model() -> Seq<DtbPairModel> {
    seq![
        DtbPairModel {
            source: "arch/arm64/boot/dts/broadcom/bcm2837-rpi-3-b.dtb"@,
            dest: "bcm2710-rpi-3-b.dtb"@,
        },
        DtbPairModel {
            source: "arch/arm64/boot/dts/broadcom/bcm2837-rpi-3-b-plus.dtb"@,
            dest: "bcm2710-rpi-3-b-plus.dtb"@,
        },
        DtbPairModel {
            source: "arch/arm64/boot/dts/broadcom/bcm2837-rpi-cm3-io3.dtb"@,
            dest: "bcm2710-rpi-cm3.dtb"@,
        },
        DtbPairModel {
            source: "arch/arm64/boot/dts/broadcom/bcm2711-rpi-4-b.dtb"@,
            dest: "bcm2711-rpi-4-b.dtb"@,
        },
        DtbPairModel {
            source: "arch/arm64/boot/dts/broadcom/bcm2837-rpi-zero-2-w.dtb"@,
            dest: "bcm2710-rpi-zero-2-w.dtb"@,
        },
    ]
}

/// The parameter set of the cross-built board target.
pub open spec fn rpi_model() -> TargetSpecModel {
    TargetSpecModel {
        token: "rpi"@,
        build_arch: "arm64"@,
        cross: Some("aarch64-linux-gnu-"@),
        image: "Image.gz"@,
        dtbs: rpi_dtbs_model(),
    }
}

/// The resolution map: each supported token yields exactly one parameter
/// set, and an unsupported token yields nothing, never a default.
pub open spec fn spec_resolve(token: Seq<char>) -> Option<TargetSpecModel> {
    if token == "x86_64"@ {
        Some(x86_64_model())
    } else if token == "rpi"@ {
        Some(rpi_model())
    } else {
        None
    }
}

/// Resolving a token is deterministic and total over the supported set:
/// exactly the two supported tokens resolve, and each always yields the same
/// build-system architecture name, image file name and device-tree list.
pub proof fn lemma_resolve_deterministic_total(token: Seq<char>)
    ensures
        (spec_resolve(token) is Some) <==> (token == "x86_64"@ || token == "rpi"@),
        token == "x86_64"@ ==> spec_resolve(token) == Some(x86_64_model()),
        token == "rpi"@ ==> spec_resolve(token) == Some(rpi_model()),
{
    reveal_strlit("x86_64");
    reveal_strlit("rpi");
    assert("rpi"@.len() != "x86_64"@.len());
}

fn new_dtb_pair(source: &str, dest: &str) -> (r: DtbPair)
    ensures
        r@ == (DtbPairModel { source: source@, dest: dest@ }),
{
    DtbPair { source: String::from_str(source), dest: String::from_str(dest) }
}

fn rpi_dtbs() -> (r: Vec<DtbPair>)
    ensures
        r@.map_values(|p: DtbPair| p@) == rpi_dtbs_model(),
{
    let mut dtbs: Vec<DtbPair> = Vec::new();
    dtbs.push(new_dtb_pair("arch/arm64/boot/dts/broadcom/bcm2837-rpi-3-b.dtb", "bcm2710-rpi-3-b.dtb"));
    dtbs.push(new_dtb_pair(
        "arch/arm64/boot/dts/broadcom/bcm2837-rpi-3-b-plus.dtb",
        "bcm2710-rpi-3-b-plus.dtb",
    ));
    dtbs.push(new_dtb_pair("arch/arm64/boot/dts/broadcom/bcm2837-rpi-cm3-io3.dtb", "bcm2710-rpi-cm3.dtb"));
    dtbs.push(new_dtb_pair("arch/arm64/boot/dts/broadcom/bcm2711-rpi-4-b.dtb", "bcm2711-rpi-4-b.dtb"));
    dtbs.push(new_dtb_pair(
        "arch/arm64/boot/dts/broadcom/bcm2837-rpi-zero-2-w.dtb",
        "bcm2710-rpi-zero-2-w.dtb",
    ));
    proof {
        assert(dtbs@.map_values(|p: DtbPair| p@) =~= rpi_dtbs_model());
    }
    dtbs
}

/// Maps a user-facing architecture token to its parameter set. An
/// unrecognized token is an input error, reported before the pipeline has
/// done any work.
pub fn resolve(token: &str) -> (r: Result<TargetSpec, Error>)
    ensures
        match r {
            Ok(spec) => spec_resolve(token@) == Some(spec@),
            Err(e) => spec_resolve(token@) is None && e == Error::InputError,
        },
{
    if str_eq(token, "x86_64") {
        let spec = TargetSpec {
            token: String::from_str("x86_64"),
            build_arch: String::from_str("x86_64"),
            cross: None,
            image: String::from_str("bzImage"),
            dtbs: Vec::new(),
        };
        proof {
            assert(spec@ =~= x86_64_model());
        }
        Ok(spec)
    } else if str_eq(token, "rpi") {
        let spec = TargetSpec {
            token: String::from_str("rpi"),
            build_arch: String::from_str("arm64"),
            cross: Some(String::from_str("aarch64-linux-gnu-")),
            image: String::from_str("Image.gz"),
            dtbs: rpi_dtbs(),
        };
        proof {
            assert(spec@ =~= rpi_model());
        }
        Ok(spec)
    } else {
        Err(Error::InputError)
    }
}

} // verus!
