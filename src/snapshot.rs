use vstd::prelude::*;

use crate::error::CustomError;
use crate::formatter::{fact_lines, FactLabels};
use crate::ioreg::{model_names, parse_ioreg_info, IoregInfo};
use crate::ipconfig::{parse_ipconfig, IpConfig};
use crate::systemctl::{host_facts, parse_systemctl_info, SystemctlInfo, SystemctlView};
use crate::text::trim_trailing_newlines;
use crate::whoami::{parse_who_am_i, WhoAmI};

verus! {

/// Everything that one run gathers about the host.
pub struct HostSnapshot {
    pub whoami: WhoAmI,
    pub ipconfig: IpConfig,
    pub systemctl_info: SystemctlInfo,
    pub ioreg_info: IoregInfo,
}

/// A snapshot as plain values.
pub struct SnapshotView {
    pub user: Seq<char>,
    pub address: Seq<char>,
    pub facts: SystemctlView,
    pub gpus: Seq<Seq<char>>,
}

impl View for HostSnapshot {
    type V = SnapshotView;

    open spec fn view(&self) -> SnapshotView {
        SnapshotView {
            user: self.whoami.0@,
            address: self.ipconfig.0@,
            facts: self.systemctl_info@,
            gpus: self.ioreg_info@,
        }
    }
}

/// The snapshot or the error message that a collection gives.
pub open spec fn snapshot_result_view(r: Result<HostSnapshot, CustomError>) -> Result<
    SnapshotView,
    Seq<char>,
> {
    match r {
        Ok(s) => Ok(s@),
        Err(e) => Err(e@),
    }
}

/// The snapshot that the raw outputs of the four sources give at the time
/// `now`, or the error of the first source that fails.
pub open spec fn snapshot_of(
    user_raw: Seq<char>,
    address_raw: Seq<char>,
    fact_lines: Seq<Seq<char>>,
    registry_raw: Seq<char>,
    now: u64,
) -> Result<SnapshotView, Seq<char>> {
    match host_facts(fact_lines, now) {
        Ok(facts) => Ok(
            SnapshotView {
                user: trim_trailing_newlines(user_raw),
                address: trim_trailing_newlines(address_raw),
                facts,
                gpus: model_names(registry_raw),
            },
        ),
        Err(e) => Err(e),
    }
}

/// Reads the four sources: the identity command's output, the address
/// command's output, the lines of the kernel's answer, and the device
/// registry's dump, with the current time in seconds since the epoch.
pub fn collect_snapshot(
    user_raw: &str,
    address_raw: &str,
    fact_lines: &Vec<String>,
    registry_raw: &str,
    now_secs: u64,
) -> (r: Result<HostSnapshot, CustomError>)
    ensures
        snapshot_result_view(r) == snapshot_of(
            user_raw@,
            address_raw@,
            fact_lines.deep_view(),
            registry_raw@,
            now_secs,
        ),
{
    let whoami = parse_who_am_i(user_raw);
    let ipconfig = parse_ipconfig(address_raw);
    let systemctl_info = match parse_systemctl_info(fact_lines, now_secs) {
        Ok(info) => info,
        Err(e) => {
            return Err(e);
        },
    };
    let ioreg_info = parse_ioreg_info(registry_raw);
    Ok(HostSnapshot { whoami, ipconfig, systemctl_info, ioreg_info })
}

/// Two runs on the same raw outputs at the same time give the same snapshot,
/// and the same fact lines under the same labels.
pub proof fn lemma_same_inputs_same_snapshot(
    user_raw: Seq<char>,
    address_raw: Seq<char>,
    lines: Seq<Seq<char>>,
    registry_raw: Seq<char>,
    now: u64,
    first: Result<HostSnapshot, CustomError>,
    second: Result<HostSnapshot, CustomError>,
    labels: FactLabels,
)
    requires
        snapshot_result_view(first) == snapshot_of(user_raw, address_raw, lines, registry_raw, now),
        snapshot_result_view(second) == snapshot_of(
            user_raw,
            address_raw,
            lines,
            registry_raw,
            now,
        ),
    ensures
        snapshot_result_view(first) == snapshot_result_view(second),
        first matches Ok(a) ==> second matches Ok(b) && fact_lines(
            a@.user,
            a@.facts,
            a@.gpus,
            labels,
        ) == fact_lines(b@.user, b@.facts, b@.gpus, labels),
{
}

} // verus!
