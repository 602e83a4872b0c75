//! What is known about the `zcashd` node daemon.

use crate::registry::{ServiceId, ToolSpec, ToolSpecView};
use vstd::prelude::*;
use vstd::string::*;

verus! {

/// The name of the service.
pub open spec fn zcashd_name() -> Seq<char> {
    "zcashd"@
}

/// The programs that a build of `zcashd` needs to find installed.
pub open spec fn zcashd_tools() -> Seq<Seq<char>> {
    seq![
        "git"@,
        "bash"@,
        "make"@,
        "gcc"@,
        "g++"@,
        "ar"@,
        "ranlib"@,
        "perl"@,
        "autoconf"@,
        "libtool"@,
        "pkg-config"@,
    ]
}

/// The descriptor of `zcashd`: on every platform the executable is called
/// `zcashd`, and a build leaves it at `src/zcashd`. It comes without
/// capabilities.
pub open spec fn zcashd_descriptor() -> ToolSpecView {
    ToolSpecView {
        id: zcashd_name(),
        binary_names: seq!["zcashd"@],
        platform_names: Seq::empty(),
        default_expected_output: "src/zcashd"@,
        required_tools: zcashd_tools(),
        has_build: false,
        has_releases: false,
        has_version_probe: false,
    }
}

/// The identifier of `zcashd`.
pub fn zcashd_id() -> (id: ServiceId)
    ensures
        id@ == zcashd_name(),
{
    ServiceId::new_static("zcashd")
}

/// The descriptor of `zcashd`.
pub fn spec_zcashd() -> (spec: ToolSpec)
    ensures
        spec@ == zcashd_descriptor(),
{
    let mut binary_names: Vec<String> = Vec::new();
    binary_names.push(String::from_str("zcashd"));
    let mut required_tools: Vec<String> = Vec::new();
    required_tools.push(String::from_str("git"));
    required_tools.push(String::from_str("bash"));
    required_tools.push(String::from_str("make"));
    required_tools.push(String::from_str("gcc"));
    required_tools.push(String::from_str("g++"));
    required_tools.push(String::from_str("ar"));
    required_tools.push(String::from_str("ranlib"));
    required_tools.push(String::from_str("perl"));
    required_tools.push(String::from_str("autoconf"));
    required_tools.push(String::from_str("libtool"));
    required_tools.push(String::from_str("pkg-config"));
    let spec = ToolSpec {
        id: zcashd_id(),
        binary_names,
        platform_names: Vec::new(),
        default_expected_output: String::from_str("src/zcashd"),
        required_tools,
        build: None,
        releases: None,
        version_probe: None,
    };
    proof {
        assert(spec@.binary_names =~= seq!["zcashd"@]);
        assert(spec@.platform_names =~= Seq::empty());
        assert(spec@.required_tools =~= zcashd_tools());
    }
    spec
}

} // verus!
