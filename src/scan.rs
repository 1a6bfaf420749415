use vstd::prelude::*;
use vstd::string::*;
use crate::decimal::{decimal_of, decimal_string, lemma_decimal_digits, lemma_decimal_injective};
use crate::service::{camera_port, get_service_hint, is_camera_port, service_hint_of};

verus! {

/// The address space of one scan: hosts `first_host..=last_host` of the subnet
/// written as `subnet_prefix` (such as "192.168.1."), crossed with `ports`.
#[derive(Debug)]
pub struct ScanConfig {
    pub subnet_prefix: String,
    pub first_host: u8,
    pub last_host: u8,
    pub ports: Vec<u16>,
}

/// One (address, port) pair to probe.
#[derive(Debug)]
pub struct ScanTarget {
    pub ip: String,
    pub port: u16,
}

/// Progress of a scan, reported once per probed target.
#[derive(Debug)]
pub struct ScanProgress {
    pub ip: String,
    pub port: u16,
    pub total_scanned: usize,
    pub total_to_scan: usize,
}

/// A target that accepted a connection.
#[derive(Debug)]
pub struct PortFound {
    pub ip: String,
    pub port: u16,
    pub service_hint: String,
}

/// The views of a list of strings.
pub open spec fn strings_view(v: Seq<String>) -> Seq<Seq<char>> {
    v.map_values(|s: String| s@)
}

/// `http://<addr>:<port>`, the candidate URL of an open camera-class port.
pub open spec fn camera_url_of(ip: Seq<char>, port: u16) -> Seq<char> {
    "http://"@ + ip + ":"@ + decimal_of(port as nat)
}

impl ScanConfig {
    pub open spec fn host_count(&self) -> nat {
        if self.first_host <= self.last_host {
            (self.last_host - self.first_host + 1) as nat
        } else {
            0
        }
    }

    /// |addresses| x |ports|.
    pub open spec fn total(&self) -> nat {
        self.host_count() * self.ports@.len()
    }

    /// The address of the `h`-th host of the scan.
    pub open spec fn address(&self, h: nat) -> Seq<char> {
        self.subnet_prefix@ + decimal_of((self.first_host + h) as nat)
    }

    /// The total fits the machine's counters.
    pub open spec fn wf(&self) -> bool {
        self.total() <= usize::MAX
    }

    /// The usual home network: hosts 1 to 254 of 192.168.1.0/24 on a fixed list of
    /// common service and camera ports.
    pub fn home_network() -> (r: ScanConfig)
        ensures
            r.wf(),
            r.subnet_prefix@ == "192.168.1."@,
            r.first_host == 1,
            r.last_host == 254,
            r.ports@ == seq![20u16, 21, 22, 23, 25, 53, 80, 110, 143, 443, 445, 554, 1883,
                3306, 3389, 4747, 5432, 8080, 8081, 8082, 8443],
    {
        let ports: Vec<u16> = vec![20u16, 21, 22, 23, 25, 53, 80, 110, 143, 443, 445, 554, 1883,
            3306, 3389, 4747, 5432, 8080, 8081, 8082, 8443];
        let r = ScanConfig {
            subnet_prefix: String::from_str("192.168.1."),
            first_host: 1,
            last_host: 254,
            ports,
        };
        assert(r.ports@ == seq![20u16, 21, 22, 23, 25, 53, 80, 110, 143, 443, 445, 554, 1883,
                3306, 3389, 4747, 5432, 8080, 8081, 8082, 8443]);
        assert(r.total() == 254 * 21);
        r
    }

    /// |addresses| x |ports|.
    pub fn total_to_scan(&self) -> (r: usize)
        requires
            self.wf(),
        ensures
            r == self.total(),
    {
        let hosts: usize = if self.first_host <= self.last_host {
            (self.last_host - self.first_host) as usize + 1
        } else {
            0
        };
        hosts * self.ports.len()
    }
}

proof fn lemma_index_below(h: int, j: int, hosts: int, np: int)
    requires
        0 <= h < hosts,
        0 <= j < np,
    ensures
        0 <= h * np + j < hosts * np,
        h * np + j < (h + 1) * np,
        (h + 1) * np <= hosts * np,
{
    assert(0 <= h * np + j < hosts * np) by (nonlinear_arith)
        requires 0 <= h < hosts, 0 <= j < np;
    assert(h * np + j < (h + 1) * np) by (nonlinear_arith)
        requires 0 <= j < np;
    assert((h + 1) * np <= hosts * np) by (nonlinear_arith)
        requires 0 <= h < hosts, 0 <= j < np;
}

/// Every (address, port) pair of the scan, host by host, each host with every port in order.
pub fn scan_targets(cfg: &ScanConfig) -> (r: Vec<ScanTarget>)
    requires
        cfg.wf(),
    ensures
        r@.len() == cfg.total(),
        forall|h: int, j: int|
            0 <= h < cfg.host_count() && 0 <= j < cfg.ports@.len() ==> {
                &&& (#[trigger] r@[h * cfg.ports@.len() + j]).ip@ == cfg.address(h as nat)
                &&& r@[h * cfg.ports@.len() + j].port == cfg.ports@[j]
            },
{
    let np = cfg.ports.len();
    let mut r: Vec<ScanTarget> = Vec::new();
    if cfg.first_host > cfg.last_host {
        assert(cfg.total() == 0 * cfg.ports@.len());
        return r;
    }
    let hosts: usize = (cfg.last_host - cfg.first_host) as usize + 1;
    let mut h: usize = 0;
    while h < hosts
        invariant
            cfg.wf(),
            np == cfg.ports@.len(),
            cfg.first_host <= cfg.last_host,
            hosts == cfg.host_count(),
            0 <= h <= hosts,
            r@.len() == h * np,
            forall|hh: int, j: int|
                0 <= hh < h && 0 <= j < np ==> {
                    &&& (#[trigger] r@[hh * np + j]).ip@ == cfg.address(hh as nat)
                    &&& r@[hh * np + j].port == cfg.ports@[j]
                },
        decreases hosts - h,
    {
        let host: u8 = cfg.first_host + h as u8;
        let mut j: usize = 0;
        while j < np
            invariant
                cfg.wf(),
                np == cfg.ports@.len(),
                cfg.first_host <= cfg.last_host,
                hosts == cfg.host_count(),
                0 <= h < hosts,
                host == cfg.first_host + h,
                0 <= j <= np,
                r@.len() == h * np + j,
                forall|hh: int, jj: int|
                    0 <= hh < h && 0 <= jj < np ==> {
                        &&& (#[trigger] r@[hh * np + jj]).ip@ == cfg.address(hh as nat)
                        &&& r@[hh * np + jj].port == cfg.ports@[jj]
                    },
                forall|jj: int|
                    0 <= jj < j ==> {
                        &&& (#[trigger] r@[h * np + jj]).ip@ == cfg.address(h as nat)
                        &&& r@[h * np + jj].port == cfg.ports@[jj]
                    },
            decreases np - j,
        {
            proof {
                lemma_index_below(h as int, j as int, hosts as int, np as int);
            }
            let mut ip = String::from_str(cfg.subnet_prefix.as_str());
            let digits = decimal_string(host as u64);
            ip.append(digits.as_str());
            let old_r = Ghost(r@);
            r.push(ScanTarget { ip, port: cfg.ports[j] });
            proof {
                assert forall|hh: int, jj: int| 0 <= hh < h && 0 <= jj < np implies {
                    &&& (#[trigger] r@[hh * np + jj]).ip@ == cfg.address(hh as nat)
                    &&& r@[hh * np + jj].port == cfg.ports@[jj]
                } by {
                    lemma_index_below(hh, jj, h as int, np as int);
                    assert(r@[hh * np + jj] == old_r@[hh * np + jj]);
                }
                assert forall|jj: int| 0 <= jj < j + 1 implies {
                    &&& (#[trigger] r@[h * np + jj]).ip@ == cfg.address(h as nat)
                    &&& r@[h * np + jj].port == cfg.ports@[jj]
                } by {
                    if jj < j {
                        assert(r@[h * np + jj] == old_r@[h * np + jj]);
                    }
                }
            }
            j = j + 1;
        }
        proof {
            assert((h + 1) * np == h * np + np) by (nonlinear_arith);
            assert forall|hh: int, jj: int| 0 <= hh < h + 1 && 0 <= jj < np implies {
                &&& (#[trigger] r@[hh * np + jj]).ip@ == cfg.address(hh as nat)
                &&& r@[hh * np + jj].port == cfg.ports@[jj]
            } by {
                if hh == h {
                    assert(r@[h * np + jj] == r@[hh * np + jj]);
                }
            }
        }
        h = h + 1;
    }
    r
}

/// `http://<ip>:<port>`.
pub fn camera_url(ip: &String, port: u16) -> (r: String)
    ensures
        r@ == camera_url_of(ip@, port),
{
    let mut r = String::from_str("http://");
    r.append(ip.as_str());
    r.append(":");
    let digits = decimal_string(port as u64);
    r.append(digits.as_str());
    r
}

/// Bookkeeping of one scan: how many targets were probed out of how many, and the
/// candidate URLs found so far.
#[derive(Debug)]
pub struct ScanTally {
    pub scanned: usize,
    pub total: usize,
    pub cameras: Vec<String>,
}

impl ScanTally {
    /// A scan of `total` targets, nothing probed yet.
    pub fn new(total: usize) -> (r: ScanTally)
        ensures
            r.scanned == 0,
            r.total == total,
            r.cameras@.len() == 0,
    {
        ScanTally { scanned: 0, total, cameras: Vec::new() }
    }

    /// Counts one more probed target and returns the progress to report for it.
    pub fn begin_probe(&mut self, target: &ScanTarget) -> (r: ScanProgress)
        requires
            old(self).scanned < old(self).total,
        ensures
            final(self).scanned == old(self).scanned + 1,
            final(self).total == old(self).total,
            final(self).cameras@ == old(self).cameras@,
            r.ip@ == target.ip@,
            r.port == target.port,
            r.total_scanned == final(self).scanned,
            r.total_to_scan == final(self).total,
    {
        self.scanned = self.scanned + 1;
        ScanProgress {
            ip: String::from_str(target.ip.as_str()),
            port: target.port,
            total_scanned: self.scanned,
            total_to_scan: self.total,
        }
    }

    /// Records a target that accepted a connection: returns its discovery, and keeps its
    /// URL as a candidate when its port is camera-class.
    pub fn record_open(&mut self, target: &ScanTarget) -> (r: PortFound)
        ensures
            final(self).scanned == old(self).scanned,
            final(self).total == old(self).total,
            strings_view(final(self).cameras@) == strings_view(old(self).cameras@) + (if camera_port(
                target.port,
            ) {
                seq![camera_url_of(target.ip@, target.port)]
            } else {
                Seq::<Seq<char>>::empty()
            }),
            r.ip@ == target.ip@,
            r.port == target.port,
            r.service_hint@ == service_hint_of(target.port),
    {
        if is_camera_port(target.port) {
            let url = camera_url(&target.ip, target.port);
            self.cameras.push(url);
            assert(strings_view(self.cameras@) =~= strings_view(old(self).cameras@).push(
                camera_url_of(target.ip@, target.port),
            ));
        } else {
            assert(strings_view(self.cameras@) =~= strings_view(old(self).cameras@));
        }
        PortFound {
            ip: String::from_str(target.ip.as_str()),
            port: target.port,
            service_hint: get_service_hint(target.port),
        }
    }
}

/// What a scan reported: one progress event per target in the order probed, one
/// discovery per accepting target, and the candidate URLs.
#[derive(Debug)]
pub struct ScanReport {
    pub progress: Vec<ScanProgress>,
    pub found: Vec<PortFound>,
    pub cameras: Vec<String>,
}

/// The candidate URLs of the first `k` targets, given which of them accepted a connection.
pub open spec fn candidates(targets: Seq<ScanTarget>, accepts: Seq<bool>, k: int) -> Seq<Seq<char>>
    decreases k,
{
    if k <= 0 {
        Seq::empty()
    } else {
        let t = targets[k - 1];
        candidates(targets, accepts, k - 1) + (if accepts[k - 1] && camera_port(t.port) {
            seq![camera_url_of(t.ip@, t.port)]
        } else {
            Seq::<Seq<char>>::empty()
        })
    }
}

/// The (address, port, hint) discoveries of the first `k` targets.
pub open spec fn discoveries(targets: Seq<ScanTarget>, accepts: Seq<bool>, k: int) -> Seq<
    (Seq<char>, u16, Seq<char>),
>
    decreases k,
{
    if k <= 0 {
        Seq::empty()
    } else {
        let t = targets[k - 1];
        discoveries(targets, accepts, k - 1) + (if accepts[k - 1] {
            seq![(t.ip@, t.port, service_hint_of(t.port))]
        } else {
            Seq::<(Seq<char>, u16, Seq<char>)>::empty()
        })
    }
}

pub open spec fn found_view(f: PortFound) -> (Seq<char>, u16, Seq<char>) {
    (f.ip@, f.port, f.service_hint@)
}

/// Runs a scan over `targets` whose outcome is known: `accepts[i]` tells whether
/// `targets[i]` accepted a connection within the timeout.
pub fn run_scan(targets: &Vec<ScanTarget>, accepts: &Vec<bool>) -> (r: ScanReport)
    requires
        accepts@.len() == targets@.len(),
    ensures
        r.progress@.len() == targets@.len(),
        forall|i: int|
            0 <= i < targets@.len() ==> {
                &&& (#[trigger] r.progress@[i]).ip@ == targets@[i].ip@
                &&& r.progress@[i].port == targets@[i].port
                &&& r.progress@[i].total_scanned == i + 1
                &&& r.progress@[i].total_to_scan == targets@.len()
            },
        forall|i: int, j: int|
            0 <= i < j < r.progress@.len() ==> (#[trigger] r.progress@[i]).total_scanned
                < (#[trigger] r.progress@[j]).total_scanned,
        r.progress@.len() > 0 ==> r.progress@.last().total_scanned == r.progress@.last().total_to_scan,
        r.found@.map_values(|f: PortFound| found_view(f)) == discoveries(
            targets@,
            accepts@,
            targets@.len() as int,
        ),
        strings_view(r.cameras@) == candidates(targets@, accepts@, targets@.len() as int),
{
    let n = targets.len();
    let mut tally = ScanTally::new(n);
    let mut progress: Vec<ScanProgress> = Vec::new();
    let mut found: Vec<PortFound> = Vec::new();
    let mut i: usize = 0;
    while i < n
        invariant
            n == targets@.len(),
            accepts@.len() == n,
            0 <= i <= n,
            tally.scanned == i,
            tally.total == n,
            progress@.len() == i,
            forall|k: int|
                0 <= k < i ==> {
                    &&& (#[trigger] progress@[k]).ip@ == targets@[k].ip@
                    &&& progress@[k].port == targets@[k].port
                    &&& progress@[k].total_scanned == k + 1
                    &&& progress@[k].total_to_scan == n
                },
            found@.map_values(|f: PortFound| found_view(f)) == discoveries(
                targets@,
                accepts@,
                i as int,
            ),
            strings_view(tally.cameras@) == candidates(targets@, accepts@, i as int),
        decreases n - i,
    {
        let target = &targets[i];
        let p = tally.begin_probe(target);
        progress.push(p);
        if accepts[i] {
            let f = tally.record_open(target);
            let ghost before = found@;
            found.push(f);
            assert(found@.map_values(|f: PortFound| found_view(f)) =~= before.map_values(
                |f: PortFound| found_view(f),
            ).push(found_view(f)));
        }
        assert(discoveries(targets@, accepts@, i + 1) == discoveries(targets@, accepts@, i as int)
            + (if accepts@[i as int] {
            seq![(targets@[i as int].ip@, targets@[i as int].port, service_hint_of(targets@[i as int].port))]
        } else {
            Seq::<(Seq<char>, u16, Seq<char>)>::empty()
        }));
        assert(found@.map_values(|f: PortFound| found_view(f)) =~= discoveries(
            targets@,
            accepts@,
            i + 1,
        ));
        assert(strings_view(tally.cameras@) =~= candidates(targets@, accepts@, i + 1));
        i = i + 1;
    }
    ScanReport { progress, found, cameras: tally.cameras }
}

/// A URL is a scan candidate exactly when it is `http://<addr>:<port>` of a target that
/// accepted a connection on a camera-class port; every accepting target, camera-class or
/// not, is reported as a discovery with its service hint.
pub proof fn lemma_candidates_exact(targets: Seq<ScanTarget>, accepts: Seq<bool>, k: int)
    requires
        0 <= k <= targets.len(),
        accepts.len() == targets.len(),
    ensures
        forall|url: Seq<char>|
            candidates(targets, accepts, k).contains(url) <==> exists|i: int|
                0 <= i < k && accepts[i] && camera_port(targets[i].port) && url
                    == camera_url_of(#[trigger] targets[i].ip@, targets[i].port),
        forall|i: int|
            0 <= i < k && accepts[i] ==> discoveries(targets, accepts, k).contains(
                (#[trigger] targets[i].ip@, targets[i].port, service_hint_of(targets[i].port)),
            ),
    decreases k,
{
    if k > 0 {
        lemma_candidates_exact(targets, accepts, k - 1);
        let prev = candidates(targets, accepts, k - 1);
        let cur = candidates(targets, accepts, k);
        let t = targets[k - 1];
        let extra = if accepts[k - 1] && camera_port(t.port) {
            seq![camera_url_of(t.ip@, t.port)]
        } else {
            Seq::<Seq<char>>::empty()
        };
        assert(cur == prev + extra);
        assert forall|url: Seq<char>|
            cur.contains(url) <==> exists|i: int|
                0 <= i < k && accepts[i] && camera_port(targets[i].port) && url
                    == camera_url_of(#[trigger] targets[i].ip@, targets[i].port) by {
            if cur.contains(url) {
                let j = choose|j: int| 0 <= j < cur.len() && cur[j] == url;
                if j < prev.len() {
                    assert(prev[j] == url);
                    assert(prev.contains(url));
                } else {
                    assert(extra[j - prev.len()] == url);
                    let w = k - 1;
                    assert(0 <= w < k && accepts[w] && camera_port(targets[w].port) && url
                        == camera_url_of(targets[w].ip@, targets[w].port));
                }
            }
            if exists|i: int|
                0 <= i < k && accepts[i] && camera_port(targets[i].port) && url
                    == camera_url_of(#[trigger] targets[i].ip@, targets[i].port) {
                let i = choose|i: int|
                    0 <= i < k && accepts[i] && camera_port(targets[i].port) && url
                        == camera_url_of(#[trigger] targets[i].ip@, targets[i].port);
                if i < k - 1 {
                    assert(0 <= i < k - 1 && accepts[i] && camera_port(targets[i].port) && url
                        == camera_url_of(targets[i].ip@, targets[i].port));
                    assert(prev.contains(url));
                    let j = choose|j: int| 0 <= j < prev.len() && prev[j] == url;
                    assert(cur[j] == url);
                } else {
                    assert(cur[prev.len() as int] == url);
                }
            }
        }
        let dprev = discoveries(targets, accepts, k - 1);
        let dcur = discoveries(targets, accepts, k);
        let dextra = if accepts[k - 1] {
            seq![(t.ip@, t.port, service_hint_of(t.port))]
        } else {
            Seq::<(Seq<char>, u16, Seq<char>)>::empty()
        };
        assert(dcur == dprev + dextra);
        assert forall|i: int| 0 <= i < k && accepts[i] implies dcur.contains(
            (#[trigger] targets[i].ip@, targets[i].port, service_hint_of(targets[i].port)),
        ) by {
            let e = (targets[i].ip@, targets[i].port, service_hint_of(targets[i].port));
            if i < k - 1 {
                assert(dprev.contains(e));
                let j = choose|j: int| 0 <= j < dprev.len() && dprev[j] == e;
                assert(dcur[j] == e);
            } else {
                assert(dcur[dprev.len() as int] == e);
            }
        }
    }
}

/// An address with no `:` in it, as an IPv4 address is written.
pub open spec fn colon_free(ip: Seq<char>) -> bool {
    forall|k: int| 0 <= k < ip.len() ==> #[trigger] ip[k] != ':'
}

/// Two candidate URLs of colon-free addresses are equal only for the same address and port.
pub proof fn lemma_camera_url_injective(a: Seq<char>, p: u16, b: Seq<char>, q: u16)
    requires
        colon_free(a),
        colon_free(b),
        camera_url_of(a, p) == camera_url_of(b, q),
    ensures
        a == b,
        p == q,
{
    reveal_strlit("http://");
    reveal_strlit(":");
    let u = camera_url_of(a, p);
    let da = decimal_of(p as nat);
    let db = decimal_of(q as nat);
    lemma_decimal_digits(p as nat);
    lemma_decimal_digits(q as nat);
    assert(u == "http://"@ + a + ":"@ + da);
    assert(u == "http://"@ + b + ":"@ + db);
    assert(u[7 + a.len() as int] == ':');
    assert(u[7 + b.len() as int] == ':');
    if a.len() < b.len() {
        assert(u[7 + a.len() as int] == b[a.len() as int]);
    }
    if b.len() < a.len() {
        assert(u[7 + b.len() as int] == a[b.len() as int]);
    }
    assert(a.len() == b.len());
    assert forall|k: int| 0 <= k < a.len() implies a[k] == b[k] by {
        assert(u[7 + k] == a[k]);
        assert(u[7 + k] == b[k]);
    }
    assert(a =~= b);
    assert(da.len() == db.len());
    assert forall|k: int| 0 <= k < da.len() implies da[k] == db[k] by {
        assert(u[8 + a.len() + k] == da[k]);
        assert(u[8 + b.len() + k] == db[k]);
    }
    assert(da =~= db);
    lemma_decimal_injective(p as nat, q as nat);
}

/// A target that accepts a connection on a port outside the camera class is never a
/// candidate, though it is reported as a discovery (addresses written without `:`).
pub proof fn lemma_non_camera_ports_never_candidates(
    targets: Seq<ScanTarget>,
    accepts: Seq<bool>,
    i: int,
)
    requires
        accepts.len() == targets.len(),
        forall|k: int| 0 <= k < targets.len() ==> colon_free(#[trigger] targets[k].ip@),
        0 <= i < targets.len(),
        accepts[i],
        !camera_port(targets[i].port),
    ensures
        !candidates(targets, accepts, targets.len() as int).contains(
            camera_url_of(targets[i].ip@, targets[i].port),
        ),
        discoveries(targets, accepts, targets.len() as int).contains(
            (targets[i].ip@, targets[i].port, service_hint_of(targets[i].port)),
        ),
{
    let n = targets.len() as int;
    lemma_candidates_exact(targets, accepts, n);
    let url = camera_url_of(targets[i].ip@, targets[i].port);
    if candidates(targets, accepts, n).contains(url) {
        let j = choose|j: int|
            0 <= j < n && accepts[j] && camera_port(targets[j].port) && url == camera_url_of(
                #[trigger] targets[j].ip@,
                targets[j].port,
            );
        assert(colon_free(targets[i].ip@));
        assert(colon_free(targets[j].ip@));
        lemma_camera_url_injective(targets[i].ip@, targets[i].port, targets[j].ip@, targets[j].port);
    }
    assert(targets[i].ip@ == targets[i].ip@);
}

} // verus!
