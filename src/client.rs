//! The client of one daemon: where it listens, how it is launched, and the
//! calls it understands.
use vstd::prelude::*;
use vstd::string::*;

use crate::decimal::{decimal_string, render_u64};
use crate::rpc::{RpcParam, RpcRequest};
use crate::supervisor::{
    reconfigure_spec, start_spec, step_spec, stop_spec, DaemonAction, DaemonEvent, Limits,
    Supervisor, BUNDLED_PLACES,
};

verus! {

/// Options for a new download; those left out take the daemon's defaults.
#[derive(Debug, Clone, Default)]
pub struct Aria2Options {
    /// The directory to save into.
    pub dir: Option<String>,
    /// The name to save under.
    pub out: Option<String>,
}

/// A client of a daemon listening at `rpc_url`, with the supervisor of the
/// daemon it may launch.
pub struct Aria2Client {
    pub rpc_url: String,
    pub supervisor: Supervisor,
}

/// How many entries of the waiting and stopped queues a snapshot asks for.
pub const QUEUE_PAGE: i32 = 100;

/// Where a daemon started with the default arguments listens.
pub open spec fn default_rpc_url() -> Seq<char> {
    "http://localhost:6800/jsonrpc"@
}

/// The program spawned for each place: the bundled ones in the order they are
/// probed, then the name looked up on the search path.
pub open spec fn program_spec(i: usize) -> Seq<char> {
    if i == 0 {
        "aria2/aria2c.exe"@
    } else if i == 1 {
        "../aria2/aria2c.exe"@
    } else if i == 2 {
        "../../aria2/aria2c.exe"@
    } else if i == 3 {
        "_internal/aria2/aria2c.exe"@
    } else {
        "aria2c"@
    }
}

/// A bandwidth flag: its prefix, then the limit in KiB with the unit `K`.
pub open spec fn limit_flag(prefix: Seq<char>, kb: u64) -> Seq<char> {
    prefix + decimal_string(kb as nat) + "K"@
}

/// The daemon's command line: RPC on the loopback port only, five downloads
/// at a time, sixteen connections per server and sixteen pieces of at least
/// 1 MiB, the given limits, no preallocation, resumption and automatic
/// renaming on, overwriting off.
pub open spec fn startup_args_spec(limits: Limits) -> Seq<Seq<char>> {
    seq![
        "--enable-rpc"@,
        "--rpc-listen-all=false"@,
        "--rpc-listen-port=6800"@,
        "--max-concurrent-downloads=5"@,
        "--max-connection-per-server=16"@,
        "--split=16"@,
        "--min-split-size=1M"@,
        limit_flag("--max-overall-download-limit="@, limits.overall),
        limit_flag("--max-download-limit="@, limits.per_download),
        "--file-allocation=none"@,
        "--continue=true"@,
        "--auto-file-renaming=true"@,
        "--allow-overwrite=false"@,
    ]
}

/// The characters of each string, in order.
pub open spec fn texts(v: Seq<String>) -> Seq<Seq<char>> {
    v.map_values(|s: String| s@)
}

/// `p` is the text `t`.
pub open spec fn text_param(p: RpcParam, t: Seq<char>) -> bool {
    match p {
        RpcParam::Text(s) => s@ == t,
        _ => false,
    }
}

/// `p` is the number `n`.
pub open spec fn number_param(p: RpcParam, n: int) -> bool {
    match p {
        RpcParam::Number(v) => v == n,
        _ => false,
    }
}

/// `p` is the list of texts `ts`.
pub open spec fn text_list_param(p: RpcParam, ts: Seq<Seq<char>>) -> bool {
    match p {
        RpcParam::TextList(v) => texts(v@) == ts,
        _ => false,
    }
}

/// `p` is the object with these entries, in this order.
pub open spec fn object_param(p: RpcParam, entries: Seq<(Seq<char>, Seq<char>)>) -> bool {
    match p {
        RpcParam::Object(v) => v@.len() == entries.len() && forall|i: int|
            0 <= i < entries.len() ==> (#[trigger] v@[i]).0@ == entries[i].0 && v@[i].1@ == entries[i].1,
        _ => false,
    }
}

/// The options a new download carries: the directory, then the file name,
/// each only where given.
pub open spec fn option_entries(o: Option<Aria2Options>) -> Seq<(Seq<char>, Seq<char>)> {
    match o {
        None => Seq::empty(),
        Some(o) => {
            let d: Seq<(Seq<char>, Seq<char>)> = match o.dir {
                Some(d) => seq![("dir"@, d@)],
                None => Seq::empty(),
            };
            let f: Seq<(Seq<char>, Seq<char>)> = match o.out {
                Some(f) => seq![("out"@, f@)],
                None => Seq::empty(),
            };
            d + f
        },
    }
}

/// A call of `method` without parameters.
pub open spec fn bare_call(r: RpcRequest, method: Seq<char>) -> bool {
    r.method@ == method && r.params@.len() == 0
}

/// A call of `method` on the download `gid`.
pub open spec fn gid_call(r: RpcRequest, method: Seq<char>, gid: Seq<char>) -> bool {
    r.method@ == method && r.params@.len() == 1 && text_param(r.params@[0], gid)
}

/// A call of `method` on a page of a queue.
pub open spec fn page_call(r: RpcRequest, method: Seq<char>, offset: i32, num: i32) -> bool {
    &&& r.method@ == method
    &&& r.params@.len() == 2
    &&& number_param(r.params@[0], offset as int)
    &&& number_param(r.params@[1], num as int)
}

fn bare_request(method: &str) -> (r: RpcRequest)
    ensures
        bare_call(r, method@),
{
    RpcRequest { method: String::from_str(method), params: Vec::new() }
}

fn gid_request(method: &str, gid: &str) -> (r: RpcRequest)
    ensures
        gid_call(r, method@, gid@),
{
    let mut params: Vec<RpcParam> = Vec::new();
    params.push(RpcParam::Text(String::from_str(gid)));
    RpcRequest { method: String::from_str(method), params }
}

fn page_request(method: &str, offset: i32, num: i32) -> (r: RpcRequest)
    ensures
        page_call(r, method@, offset, num),
{
    let mut params: Vec<RpcParam> = Vec::new();
    params.push(RpcParam::Number(offset as i64));
    params.push(RpcParam::Number(num as i64));
    RpcRequest { method: String::from_str(method), params }
}

fn limit_arg(prefix: &str, kb: u64) -> (r: String)
    ensures
        r@ == limit_flag(prefix@, kb),
{
    let mut s = String::from_str(prefix);
    let digits = render_u64(kb);
    s.append(digits.as_str());
    s.append("K");
    s
}

fn push_text(v: &mut Vec<String>, t: &str)
    ensures
        texts(final(v)@) == texts(old(v)@).push(t@),
{
    v.push(String::from_str(t));
    assert(texts(v@) =~= texts(old(v)@).push(t@));
}

/// The program spawned for place `i`: a bundled executable, or, for
/// `BUNDLED_PLACES`, the name looked up on the search path.
pub fn daemon_program(i: usize) -> (r: String)
    requires
        i <= BUNDLED_PLACES,
    ensures
        r@ == program_spec(i),
{
    if i == 0 {
        String::from_str("aria2/aria2c.exe")
    } else if i == 1 {
        String::from_str("../aria2/aria2c.exe")
    } else if i == 2 {
        String::from_str("../../aria2/aria2c.exe")
    } else if i == 3 {
        String::from_str("_internal/aria2/aria2c.exe")
    } else {
        String::from_str("aria2c")
    }
}

/// The command line the daemon is launched with under `limits`.
pub fn startup_args(limits: Limits) -> (r: Vec<String>)
    ensures
        texts(r@) == startup_args_spec(limits),
{
    let mut v: Vec<String> = Vec::new();
    push_text(&mut v, "--enable-rpc");
    push_text(&mut v, "--rpc-listen-all=false");
    push_text(&mut v, "--rpc-listen-port=6800");
    push_text(&mut v, "--max-concurrent-downloads=5");
    push_text(&mut v, "--max-connection-per-server=16");
    push_text(&mut v, "--split=16");
    push_text(&mut v, "--min-split-size=1M");
    let overall = limit_arg("--max-overall-download-limit=", limits.overall);
    let ghost before = v@;
    v.push(overall);
    assert(texts(v@) =~= texts(before).push(overall@));
    let per_download = limit_arg("--max-download-limit=", limits.per_download);
    let ghost before = v@;
    v.push(per_download);
    assert(texts(v@) =~= texts(before).push(per_download@));
    push_text(&mut v, "--file-allocation=none");
    push_text(&mut v, "--continue=true");
    push_text(&mut v, "--auto-file-renaming=true");
    push_text(&mut v, "--allow-overwrite=false");
    assert(texts(v@) =~= startup_args_spec(limits));
    v
}

impl Default for Aria2Client {
    /// A client of a daemon on the default local endpoint, without limits.
    fn default() -> (r: Self)
        ensures
            r.rpc_url@ == default_rpc_url(),
            r.supervisor == Supervisor::new_spec(Limits { overall: 0, per_download: 0 }),
    {
        Aria2Client::new("http://localhost:6800/jsonrpc", 0, 0)
    }
}

impl Aria2Client {
    /// A client of the daemon at `rpc_url` that launches it with these limits
    /// in KiB per second (zero for none), holding no process yet.
    pub fn new(rpc_url: &str, max_overall_limit_kb_per_sec: u64, max_download_limit_kb_per_sec: u64) -> (r: Self)
        ensures
            r.rpc_url@ == rpc_url@,
            r.supervisor == Supervisor::new_spec(
                Limits { overall: max_overall_limit_kb_per_sec, per_download: max_download_limit_kb_per_sec },
            ),
    {
        Aria2Client {
            rpc_url: String::from_str(rpc_url),
            supervisor: Supervisor::new(
                Limits { overall: max_overall_limit_kb_per_sec, per_download: max_download_limit_kb_per_sec },
            ),
        }
    }

    /// Records the limits the next launch uses, without touching the daemon.
    pub fn set_bandwidth_limit(&mut self, max_overall_limit_kb_per_sec: u64, max_download_limit_kb_per_sec: u64)
        ensures
            final(self).rpc_url == old(self).rpc_url,
            final(self).supervisor == (Supervisor {
                limits: Limits { overall: max_overall_limit_kb_per_sec, per_download: max_download_limit_kb_per_sec },
                ..old(self).supervisor
            }),
    {
        self.supervisor.limits = Limits {
            overall: max_overall_limit_kb_per_sec,
            per_download: max_download_limit_kb_per_sec,
        };
    }

    /// The limits the next launch uses: overall, then per download.
    pub fn get_bandwidth_limit(&self) -> (r: (u64, u64))
        ensures
            r == (self.supervisor.limits.overall, self.supervisor.limits.per_download),
    {
        (self.supervisor.limits.overall, self.supervisor.limits.per_download)
    }

    /// Begins a start of the daemon (see `Supervisor`).
    pub fn start_daemon(&mut self) -> (r: DaemonAction)
        ensures
            final(self).rpc_url == old(self).rpc_url,
            (final(self).supervisor, r) == start_spec(old(self).supervisor),
    {
        self.supervisor.start()
    }

    /// Begins a stop of the daemon.
    pub fn stop_daemon(&mut self) -> (r: DaemonAction)
        ensures
            final(self).rpc_url == old(self).rpc_url,
            (final(self).supervisor, r) == stop_spec(old(self).supervisor),
    {
        self.supervisor.stop()
    }

    /// Begins a change of limits that restarts a running daemon with them.
    pub fn reconfigure_bandwidth(&mut self, max_overall_limit_kb_per_sec: u64, max_download_limit_kb_per_sec: u64) -> (r: DaemonAction)
        ensures
            final(self).rpc_url == old(self).rpc_url,
            (final(self).supervisor, r) == reconfigure_spec(
                old(self).supervisor,
                Limits { overall: max_overall_limit_kb_per_sec, per_download: max_download_limit_kb_per_sec },
            ),
    {
        self.supervisor.reconfigure(
            Limits { overall: max_overall_limit_kb_per_sec, per_download: max_download_limit_kb_per_sec },
        )
    }

    /// Reports how the last action turned out and gives the next one.
    pub fn on_event(&mut self, ev: DaemonEvent) -> (r: DaemonAction)
        ensures
            final(self).rpc_url == old(self).rpc_url,
            (final(self).supervisor, r) == step_spec(old(self).supervisor, ev),
    {
        self.supervisor.step(ev)
    }

    /// The command line for a launch now.
    pub fn launch_args(&self) -> (r: Vec<String>)
        ensures
            texts(r@) == startup_args_spec(self.supervisor.limits),
    {
        startup_args(self.supervisor.limits)
    }

    /// The call that tells whether the daemon answers, and its version.
    pub fn get_version(&self) -> (r: RpcRequest)
        ensures
            bare_call(r, "getVersion"@),
    {
        bare_request("getVersion")
    }

    /// The call that adds a download of `url` with these options.
    pub fn add_uri(&self, url: &str, options: Option<Aria2Options>) -> (r: RpcRequest)
        ensures
            r.method@ == "addUri"@,
            r.params@.len() == 2,
            text_list_param(r.params@[0], seq![url@]),
            object_param(r.params@[1], option_entries(options)),
    {
        let mut uris: Vec<String> = Vec::new();
        uris.push(String::from_str(url));
        assert(texts(uris@) =~= seq![url@]);
        let mut entries: Vec<(String, String)> = Vec::new();
        match options {
            Some(o) => {
                match o.dir {
                    Some(d) => entries.push((String::from_str("dir"), d)),
                    None => {},
                }
                let ghost mid = entries@;
                match o.out {
                    Some(f) => entries.push((String::from_str("out"), f)),
                    None => {},
                }
                assert(entries@ =~= mid + entries@.skip(mid.len() as int));
            },
            None => {},
        }
        let mut params: Vec<RpcParam> = Vec::new();
        params.push(RpcParam::TextList(uris));
        params.push(RpcParam::Object(entries));
        RpcRequest { method: String::from_str("addUri"), params }
    }

    /// The call that fetches the status record of `gid`.
    pub fn get_status(&self, gid: &str) -> (r: RpcRequest)
        ensures
            gid_call(r, "tellStatus"@, gid@),
    {
        gid_request("tellStatus", gid)
    }

    /// The call that pauses `gid`.
    pub fn pause(&self, gid: &str) -> (r: RpcRequest)
        ensures
            gid_call(r, "pause"@, gid@),
    {
        gid_request("pause", gid)
    }

    /// The call that resumes `gid`.
    pub fn unpause(&self, gid: &str) -> (r: RpcRequest)
        ensures
            gid_call(r, "unpause"@, gid@),
    {
        gid_request("unpause", gid)
    }

    /// The call that removes `gid`.
    pub fn remove(&self, gid: &str) -> (r: RpcRequest)
        ensures
            gid_call(r, "remove"@, gid@),
    {
        gid_request("remove", gid)
    }

    /// The call that removes `gid` at once; cancelling a download uses it.
    pub fn force_remove(&self, gid: &str) -> (r: RpcRequest)
        ensures
            gid_call(r, "forceRemove"@, gid@),
    {
        gid_request("forceRemove", gid)
    }

    /// The call that pauses every download.
    pub fn pause_all(&self) -> (r: RpcRequest)
        ensures
            bare_call(r, "pauseAll"@),
    {
        bare_request("pauseAll")
    }

    /// The call that resumes every download.
    pub fn unpause_all(&self) -> (r: RpcRequest)
        ensures
            bare_call(r, "unpauseAll"@),
    {
        bare_request("unpauseAll")
    }

    /// The call that fetches the daemon's overall statistics.
    pub fn get_global_stat(&self) -> (r: RpcRequest)
        ensures
            bare_call(r, "getGlobalStat"@),
    {
        bare_request("getGlobalStat")
    }

    /// The call that lists the active queue.
    pub fn tell_active(&self) -> (r: RpcRequest)
        ensures
            bare_call(r, "tellActive"@),
    {
        bare_request("tellActive")
    }

    /// The call that lists `num` entries of the waiting queue from `offset`.
    pub fn tell_waiting(&self, offset: i32, num: i32) -> (r: RpcRequest)
        ensures
            page_call(r, "tellWaiting"@, offset, num),
    {
        page_request("tellWaiting", offset, num)
    }

    /// The call that lists `num` entries of the stopped queue from `offset`.
    pub fn tell_stopped(&self, offset: i32, num: i32) -> (r: RpcRequest)
        ensures
            page_call(r, "tellStopped"@, offset, num),
    {
        page_request("tellStopped", offset, num)
    }

    /// The three listings of a snapshot, in order: active, then the first page
    /// of the waiting queue, then the first page of the stopped one.
    pub fn snapshot_requests(&self) -> (r: (RpcRequest, RpcRequest, RpcRequest))
        ensures
            bare_call(r.0, "tellActive"@),
            page_call(r.1, "tellWaiting"@, 0, QUEUE_PAGE),
            page_call(r.2, "tellStopped"@, 0, QUEUE_PAGE),
    {
        (self.tell_active(), self.tell_waiting(0, QUEUE_PAGE), self.tell_stopped(0, QUEUE_PAGE))
    }

    /// The call that forgets finished downloads.
    pub fn purge_download_result(&self) -> (r: RpcRequest)
        ensures
            bare_call(r, "purgeDownloadResult"@),
    {
        bare_request("purgeDownloadResult")
    }

    /// The call that asks the daemon to shut down.
    pub fn shutdown(&self) -> (r: RpcRequest)
        ensures
            bare_call(r, "shutdown"@),
    {
        bare_request("shutdown")
    }

    /// The call that sets the global option `key` to `value`.
    pub fn change_global_option(&self, key: &str, value: &str) -> (r: RpcRequest)
        ensures
            r.method@ == "changeGlobalOption"@,
            r.params@.len() == 1,
            object_param(r.params@[0], seq![(key@, value@)]),
    {
        let mut entries: Vec<(String, String)> = Vec::new();
        entries.push((String::from_str(key), String::from_str(value)));
        let mut params: Vec<RpcParam> = Vec::new();
        params.push(RpcParam::Object(entries));
        RpcRequest { method: String::from_str("changeGlobalOption"), params }
    }

    /// The call that fetches the global options; `find_option` reads one of
    /// them from the answer.
    pub fn get_global_option(&self) -> (r: RpcRequest)
        ensures
            bare_call(r, "getGlobalOption"@),
    {
        bare_request("getGlobalOption")
    }
}

} // verus!
