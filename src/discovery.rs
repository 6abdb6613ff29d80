//! The health report of a host, assembled from the outputs of a fixed set of probes.
use crate::text::{chars_of, find_first, first_occurrence, trim, trim_str};
use vstd::prelude::*;
use vstd::string::*;

verus! {

/// Operating-system facts of a host.
#[derive(Debug)]
pub struct SystemInfo {
    pub os_release: String,
    pub kernel_version: String,
    pub hostname: String,
    pub uptime: String,
}

/// Resource usage of a host.
#[derive(Debug)]
pub struct Resources {
    pub cpu_usage: String,
    pub memory_usage: String,
    pub disk_usage: String,
}

/// A service found running on a host.
#[derive(Debug)]
pub struct RunningService {
    pub name: String,
    pub status: String,
}

/// Everything a discovery gathered, with the time it was taken.
#[derive(Debug)]
pub struct DiscoveryReport {
    pub system_info: SystemInfo,
    pub resources: Resources,
    pub services: Vec<RunningService>,
    pub timestamp: String,
}

/// The output of each probe, or `None` where it failed.
#[derive(Debug)]
pub struct ProbeOutputs {
    pub os_release: Option<String>,
    pub kernel: Option<String>,
    pub hostname: Option<String>,
    pub uptime: Option<String>,
    pub load_avg: Option<String>,
    pub memory: Option<String>,
    pub disk: Option<String>,
    pub services: Option<String>,
}

/// Gathers a host's report.
pub struct Discovery;

/// The pieces of `s` between line feeds; a text without any is one piece.
pub open spec fn split_lines(s: Seq<char>) -> Seq<Seq<char>>
    decreases s.len(),
{
    if s.len() == 0 {
        seq![Seq::empty()]
    } else {
        let rest = split_lines(s.drop_last());
        if s.last() == '\n' {
            rest.push(Seq::empty())
        } else {
            rest.drop_last().push(rest.last().push(s.last()))
        }
    }
}

/// The trimmed lines among `ls` that name a service unit.
pub open spec fn service_names(ls: Seq<Seq<char>>) -> Seq<Seq<char>>
    decreases ls.len(),
{
    if ls.len() == 0 {
        Seq::empty()
    } else {
        service_names(ls.drop_last()) + if first_occurrence(ls.last(), ".service"@) is Some {
            seq![trim(ls.last())]
        } else {
            Seq::empty()
        }
    }
}

/// A probe's trimmed output, or `Unknown` where it failed.
pub open spec fn probe_text(o: Option<String>) -> Seq<char> {
    match o {
        Some(s) => trim(s@),
        None => "Unknown"@,
    }
}

fn probe_str(o: &Option<String>) -> (r: String)
    ensures
        r@ == probe_text(*o),
{
    match o {
        Some(s) => trim_str(s.as_str()),
        None => String::from_str("Unknown"),
    }
}

pub open spec fn services_view(v: Seq<RunningService>) -> Seq<Seq<char>> {
    v.map_values(|s: RunningService| s.name@)
}

fn push_if_service(out: &mut Vec<RunningService>, piece: &str, marker: &Vec<char>)
    requires
        marker@ == ".service"@,
    ensures
        services_view(final(out)@) == services_view(old(out)@) + if first_occurrence(
            piece@,
            ".service"@,
        ) is Some {
            seq![trim(piece@)]
        } else {
            Seq::empty()
        },
        forall|k: int|
            0 <= k < old(out)@.len() ==> #[trigger] final(out)@[k] == old(out)@[k],
        final(out)@.len() > old(out)@.len() ==> final(out)@.last().status@ == "running"@,
        final(out)@.len() <= old(out)@.len() + 1,
{
    let pc = chars_of(piece);
    if find_first(&pc, marker).is_some() {
        out.push(RunningService { name: trim_str(piece), status: String::from_str("running") });
        assert(services_view(out@) =~= services_view(old(out)@) + seq![trim(piece@)]);
    } else {
        assert(services_view(out@) + Seq::<Seq<char>>::empty() =~= services_view(out@));
    }
}

/// The running services listed in a probe's output, one per line.
pub fn parse_services(s: &str) -> (r: Vec<RunningService>)
    ensures
        services_view(r@) == service_names(split_lines(s@)),
        forall|i: int| 0 <= i < r@.len() ==> #[trigger] r@[i].status@ == "running"@,
{
    let cs = chars_of(s);
    let marker = chars_of(".service");
    let n = cs.len();
    let mut out: Vec<RunningService> = Vec::new();
    let mut start: usize = 0;
    let mut i: usize = 0;
    let ghost mut done: Seq<Seq<char>> = Seq::empty();
    assert(cs@.take(0) =~= Seq::<char>::empty());
    assert(cs@.subrange(0, 0) =~= Seq::<char>::empty());
    while i < n
        invariant
            n == cs.len(),
            cs@ == s@,
            marker@ == ".service"@,
            start <= i <= n,
            split_lines(cs@.take(i as int)) == done.push(cs@.subrange(start as int, i as int)),
            services_view(out@) == service_names(done),
            forall|k: int| 0 <= k < out@.len() ==> #[trigger] out@[k].status@ == "running"@,
        decreases n - i,
    {
        let t = Ghost(cs@.take(i + 1));
        assert(t@.drop_last() =~= cs@.take(i as int));
        if cs[i] == '\n' {
            let piece = s.substring_char(start, i);
            push_if_service(&mut out, piece, &marker);
            proof {
                let old_done = done;
                done = done.push(piece@);
                assert(done.drop_last() =~= old_done);
                assert(cs@.subrange(i + 1, i + 1) =~= Seq::<char>::empty());
            }
            start = i + 1;
        } else {
            assert(cs@.subrange(start as int, i + 1) =~= cs@.subrange(start as int, i as int).push(
                cs@[i as int],
            ));
        }
        i = i + 1;
    }
    assert(cs@.take(n as int) =~= cs@);
    let piece = s.substring_char(start, n);
    push_if_service(&mut out, piece, &marker);
    proof {
        let old_done = done;
        done = done.push(piece@);
        assert(done.drop_last() =~= old_done);
    }
    out
}

/// The probe commands, in the order of the fields of `ProbeOutputs`.
pub open spec fn probe_commands() -> Seq<Seq<char>> {
    seq![
        "cat /etc/os-release | grep PRETTY_NAME | cut -d= -f2 | tr -d '\"'"@,
        "uname -r"@,
        "hostname"@,
        "uptime -p"@,
        "cat /proc/loadavg | awk '{print $1, $2, $3}'"@,
        "free -h | grep Mem | awk '{print $3 \" / \" $2}'"@,
        "df -h / | tail -n 1 | awk '{print $3 \" / \" $2 \" (\" $5 \")\"}'"@,
        "systemctl list-units --type=service --state=running --no-pager --plain | head -n 15 | awk '{print $1}'"@,
    ]
}

impl Discovery {
    /// The shell commands whose outputs make up a report, in the order of the
    /// fields of `ProbeOutputs`.
    pub fn probes() -> (r: Vec<&'static str>)
        ensures
            r@.map_values(|p: &str| p@) == probe_commands(),
    {
        let r = vec![
            "cat /etc/os-release | grep PRETTY_NAME | cut -d= -f2 | tr -d '\"'",
            "uname -r",
            "hostname",
            "uptime -p",
            "cat /proc/loadavg | awk '{print $1, $2, $3}'",
            "free -h | grep Mem | awk '{print $3 \" / \" $2}'",
            "df -h / | tail -n 1 | awk '{print $3 \" / \" $2 \" (\" $5 \")\"}'",
            "systemctl list-units --type=service --state=running --no-pager --plain | head -n 15 | awk '{print $1}'",
        ];
        assert(r@.map_values(|p: &str| p@) =~= probe_commands());
        r
    }

    /// Assembles the report from the probes' outputs: each output trimmed, a
    /// failed probe shown as `Unknown`, and the running services taken from the
    /// lines of the service listing that name a unit.
    pub fn run(outputs: &ProbeOutputs, timestamp: String) -> (r: DiscoveryReport)
        ensures
            r.system_info.os_release@ == probe_text(outputs.os_release),
            r.system_info.kernel_version@ == probe_text(outputs.kernel),
            r.system_info.hostname@ == probe_text(outputs.hostname),
            r.system_info.uptime@ == probe_text(outputs.uptime),
            r.resources.cpu_usage@ == "Load Avg: "@ + probe_text(outputs.load_avg),
            r.resources.memory_usage@ == probe_text(outputs.memory),
            r.resources.disk_usage@ == probe_text(outputs.disk),
            services_view(r.services@) == match outputs.services {
                Some(s) => service_names(split_lines(s@)),
                None => Seq::empty(),
            },
            forall|i: int| 0 <= i < r.services@.len() ==> #[trigger] r.services@[i].status@ == "running"@,
            r.timestamp@ == timestamp@,
    {
        let system_info = SystemInfo {
            os_release: probe_str(&outputs.os_release),
            kernel_version: probe_str(&outputs.kernel),
            hostname: probe_str(&outputs.hostname),
            uptime: probe_str(&outputs.uptime),
        };
        let load = probe_str(&outputs.load_avg);
        let mut cpu = String::from_str("Load Avg: ");
        cpu.append(load.as_str());
        let resources = Resources {
            cpu_usage: cpu,
            memory_usage: probe_str(&outputs.memory),
            disk_usage: probe_str(&outputs.disk),
        };
        let services = match &outputs.services {
            Some(s) => parse_services(s.as_str()),
            None => {
                let v: Vec<RunningService> = Vec::new();
                assert(services_view(v@) =~= Seq::<Seq<char>>::empty());
                v
            },
        };
        DiscoveryReport { system_info, resources, services, timestamp }
    }
}

} // verus!
