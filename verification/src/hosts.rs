//! Host configuration and the validated host registry.
//!
//! A `HostsConfig` lists the machines of the testbed. Validation rejects
//! duplicate identifiers. Once each machine has been reached, the connected
//! hosts form a `Hosts` registry: an immutable collection with unique
//! identifiers that resolves names to hosts and answers "all hosts except
//! these" queries.

use vstd::prelude::*;

use crate::text::ascii_case_eq;
use crate::text::char_index_of;
use crate::text::contains_str;
use crate::text::lemma_char_index_of_is;
use crate::text::lines_of;
use crate::text::split_lines;
use crate::text::str_eq;
use crate::text::str_eq_ignore_ascii_case;

verus! {

/// Mathematical image of `ExtraData`.
pub ghost struct ExtraDataV {
    pub wifi_driver: Option<Seq<char>>,
    pub interface: Option<Seq<char>>,
    pub monitor_excluded: bool,
}

/// Extra per-host metadata used by experiment scripts.
#[derive(Debug)]
pub struct ExtraData {
    /// The wireless driver used for the Wi-Fi interface of the device.
    pub wifi_driver: Option<String>,
    /// The address of the main wireless interface on this machine.
    pub interface: Option<String>,
    /// Whether the host must never be asked to act as a monitor.
    pub monitor_excluded: bool,
}

impl View for ExtraData {
    type V = ExtraDataV;

    open spec fn view(&self) -> ExtraDataV {
        ExtraDataV {
            wifi_driver: match self.wifi_driver {
                Some(ref s) => Some(s@),
                None => None,
            },
            interface: match self.interface {
                Some(ref s) => Some(s@),
                None => None,
            },
            monitor_excluded: self.monitor_excluded,
        }
    }
}

impl Clone for ExtraData {
    fn clone(&self) -> (r: Self)
        ensures
            r@ == self@,
    {
        ExtraData {
            wifi_driver: match &self.wifi_driver {
                Some(s) => Some(s.clone()),
                None => None,
            },
            interface: match &self.interface {
                Some(s) => Some(s.clone()),
                None => None,
            },
            monitor_excluded: self.monitor_excluded,
        }
    }
}

/// Mathematical image of `HostConfig`.
pub ghost struct HostConfigV {
    pub id: Seq<char>,
    pub url: Seq<char>,
    pub relays: Seq<Seq<char>>,
    pub extra_data: ExtraDataV,
}

/// Configuration for a single host.
#[derive(Debug)]
pub struct HostConfig {
    /// Identifier for the host in experiments; unique across hosts.
    pub id: String,
    /// The address used to open a remote session to the host.
    ///
    /// If relays are set, this is the address reachable from the last relay.
    pub url: String,
    /// Relay hosts to jump through, first relay first.
    pub relays: Vec<String>,
    /// Extra metadata carried along with the host.
    pub extra_data: ExtraData,
}

impl View for HostConfig {
    type V = HostConfigV;

    open spec fn view(&self) -> HostConfigV {
        HostConfigV {
            id: self.id@,
            url: self.url@,
            relays: self.relays@.map_values(|s: String| s@),
            extra_data: self.extra_data@,
        }
    }
}

/// A configuration object describing every host of the setup.
#[derive(Debug)]
pub struct HostsConfig {
    /// The configured hosts, in configuration order.
    pub hosts: Vec<HostConfig>,
}

/// Mathematical image of `HostOs`.
pub ghost enum OsV {
    NixOS,
    Ubuntu,
    Other(Seq<char>),
}

/// The operating system family of a host, probed once at connect time.
#[derive(Debug)]
pub enum HostOs {
    NixOS,
    Ubuntu,
    Other(String),
}

impl View for HostOs {
    type V = OsV;

    open spec fn view(&self) -> OsV {
        match self {
            HostOs::NixOS => OsV::NixOS,
            HostOs::Ubuntu => OsV::Ubuntu,
            HostOs::Other(s) => OsV::Other(s@),
        }
    }
}

impl Clone for HostOs {
    fn clone(&self) -> (r: Self)
        ensures
            r@ == self@,
    {
        match self {
            HostOs::NixOS => HostOs::NixOS,
            HostOs::Ubuntu => HostOs::Ubuntu,
            HostOs::Other(s) => HostOs::Other(s.clone()),
        }
    }
}

/// The operating system derived from a release-info `DISTRIB_ID` value.
pub open spec fn os_of_distrib_id(id: Seq<char>) -> OsV {
    if id == "nixos"@ {
        OsV::NixOS
    } else if id == "Ubuntu"@ {
        OsV::Ubuntu
    } else {
        OsV::Other(id)
    }
}

/// Whether a release-info line carries a key, that is, an equals sign.
pub open spec fn line_has_key(line: Seq<char>) -> bool {
    char_index_of(line, '=') < line.len()
}

/// The part of a release-info line before its first equals sign.
pub open spec fn line_key(line: Seq<char>) -> Seq<char> {
    line.subrange(0, char_index_of(line, '='))
}

/// The part of a release-info line after its first equals sign.
pub open spec fn line_value(line: Seq<char>) -> Seq<char> {
    line.subrange(char_index_of(line, '=') + 1, line.len() as int)
}

/// Whether a release-info line gives the distribution identity.
pub open spec fn is_distrib_line(line: Seq<char>) -> bool {
    line_has_key(line) && ascii_case_eq(line_key(line), "DISTRIB_ID"@)
}

/// The index of the first line giving the distribution identity, or
/// `ls.len()` if there is none.
pub open spec fn first_distrib_index(ls: Seq<Seq<char>>) -> int
    decreases ls.len(),
{
    if ls.len() == 0 {
        0
    } else if is_distrib_line(ls[0]) {
        0
    } else {
        1 + first_distrib_index(ls.drop_first())
    }
}

proof fn lemma_first_distrib_index_is(ls: Seq<Seq<char>>, i: int)
    requires
        0 <= i <= ls.len(),
        forall|j: int| 0 <= j < i ==> !is_distrib_line(ls[j]),
        i < ls.len() ==> is_distrib_line(ls[i]),
    ensures
        first_distrib_index(ls) == i,
    decreases ls.len(),
{
    if ls.len() > 0 && !is_distrib_line(ls[0]) {
        assert forall|j: int| 0 <= j < i - 1 implies !is_distrib_line(ls.drop_first()[j]) by {
            assert(!is_distrib_line(ls[j + 1]));
        }
        lemma_first_distrib_index_is(ls.drop_first(), i - 1);
    }
}

/// The operating system a release-info text names: the value of its first
/// `DISTRIB_ID` directive, or an anonymous `Other` when there is none.
pub open spec fn os_of_release_text(text: Seq<char>) -> OsV {
    let ls = lines_of(text);
    let k = first_distrib_index(ls);
    if k < ls.len() {
        os_of_distrib_id(line_value(ls[k]))
    } else {
        OsV::Other(Seq::empty())
    }
}

impl HostOs {
    /// Returns true if the OS is not one of the known operating systems.
    pub fn is_other(&self) -> (r: bool)
        ensures
            r == (self@ is Other),
    {
        if let HostOs::Other(_) = self {
            return true;
        }
        false
    }

    /// The operating system named by a `DISTRIB_ID` value.
    pub fn from_distrib_id(id: &str) -> (r: Self)
        ensures
            r@ == os_of_distrib_id(id@),
    {
        if str_eq(id, "nixos") {
            HostOs::NixOS
        } else if str_eq(id, "Ubuntu") {
            HostOs::Ubuntu
        } else {
            HostOs::Other(id.to_owned())
        }
    }

    /// The operating system named by a whole release-info text: the value of
    /// its first `DISTRIB_ID` line, compared without regard to letter case.
    pub fn detect(os_release: &str) -> (r: Self)
        ensures
            r@ == os_of_release_text(os_release@),
    {
        let lines = split_lines(os_release);
        let n = lines.len();
        let ghost ls = lines_of(os_release@);
        let mut k: usize = 0;
        while k < n
            invariant
                k <= n,
                ls == lines_of(os_release@),
                n == ls.len(),
                lines@.len() == ls.len(),
                forall|i: int| 0 <= i < n ==> lines@[i]@ == ls[i],
                forall|j: int| 0 <= j < k ==> !is_distrib_line(ls[j]),
            decreases n - k,
        {
            let line: &String = &lines[k];
            let line_len = line.as_str().unicode_len();
            let mut e: usize = 0;
            while e < line_len && line.as_str().get_char(e) != '='
                invariant
                    e <= line_len,
                    line_len == line@.len(),
                    forall|j: int| 0 <= j < e ==> line@[j] != '=',
                decreases line_len - e,
            {
                e = e + 1;
            }
            proof {
                lemma_char_index_of_is(line@, '=', e as int);
            }
            if e < line_len {
                let key = line.as_str().substring_char(0, e);
                if str_eq_ignore_ascii_case(key, "DISTRIB_ID") {
                    let value = line.as_str().substring_char(e + 1, line_len);
                    proof {
                        assert(is_distrib_line(ls[k as int]));
                        lemma_first_distrib_index_is(ls, k as int);
                        assert(value@ == line_value(ls[k as int]));
                    }
                    return HostOs::from_distrib_id(value);
                }
            }
            proof {
                assert(!is_distrib_line(ls[k as int]));
            }
            k = k + 1;
        }
        proof {
            lemma_first_distrib_index_is(ls, ls.len() as int);
        }
        HostOs::Other(String::new())
    }

    /// The character sequence `display_name` renders the OS as.
    pub open spec fn display_seq(os: OsV) -> Seq<char> {
        match os {
            OsV::NixOS => "NixOS"@,
            OsV::Ubuntu => "Ubuntu"@,
            OsV::Other(name) => if name.len() == 0 {
                "Other OS"@
            } else {
                "Other OS ("@ + name + ")"@
            },
        }
    }

    /// A human-readable name for the OS, carrying the raw identity string of
    /// an unrecognized system for diagnostics.
    pub fn display_name(&self) -> (r: String)
        ensures
            r@ == Self::display_seq(self@),
    {
        match self {
            HostOs::NixOS => "NixOS".to_owned(),
            HostOs::Ubuntu => "Ubuntu".to_owned(),
            HostOs::Other(name) => {
                if name.as_str().is_empty() {
                    "Other OS".to_owned()
                } else {
                    let mut s = "Other OS (".to_owned();
                    s.append(name.as_str());
                    s.append(")");
                    s
                }
            },
        }
    }
}

/// An error in the host configuration, found before any remote side effect.
#[derive(Debug)]
pub enum HostsError {
    /// Two configured hosts share this identifier.
    DuplicateId(String),
}

/// Whether the identifier at `j` already occurred earlier in `ids`.
pub open spec fn duplicated_at(ids: Seq<Seq<char>>, j: int) -> bool {
    exists|i: int| 0 <= i < j && ids[i] == ids[j]
}

impl HostsConfig {
    /// The configured identifiers, in configuration order.
    pub open spec fn ids(self) -> Seq<Seq<char>> {
        self.hosts@.map_values(|h: HostConfig| h.id@)
    }

    /// Validates the configuration: every host identifier must be unique.
    ///
    /// Returns the first identifier that repeats an earlier one, if any.
    pub fn validate(&self) -> (r: Result<(), HostsError>)
        ensures
            r is Ok <==> self.ids().no_duplicates(),
            r is Err ==> ({
                let ids = self.ids();
                &&& r->Err_0 matches HostsError::DuplicateId(d) && exists|j: int|
                    {
                        &&& 0 <= j < ids.len()
                        &&& #[trigger] duplicated_at(ids, j)
                        &&& d@ == ids[j]
                        &&& forall|k: int| 0 <= k < j ==> !duplicated_at(ids, k)
                    }
            }),
    {
        let ghost ids = self.ids();
        let n = self.hosts.len();
        let mut j: usize = 0;
        while j < n
            invariant
                j <= n,
                ids == self.ids(),
                n == self.hosts@.len(),
                ids.len() == n,
                forall|k: int| 0 <= k < j ==> !duplicated_at(ids, k),
            decreases n - j,
        {
            let mut i: usize = 0;
            while i < j
                invariant
                    i <= j < n,
                    ids == self.ids(),
                    n == self.hosts@.len(),
                    ids.len() == n,
                    forall|k: int| 0 <= k < i ==> ids[k] != ids[j as int],
                    forall|k: int| 0 <= k < j ==> !duplicated_at(ids, k),
                decreases j - i,
            {
                if str_eq(self.hosts[i].id.as_str(), self.hosts[j].id.as_str()) {
                    proof {
                        assert(ids[i as int] == ids[j as int]);
                        assert(duplicated_at(ids, j as int));
                        assert(ids[j as int] == self.hosts@[j as int].id@);
                    }
                    return Err(HostsError::DuplicateId(self.hosts[j].id.clone()));
                }
                i = i + 1;
            }
            proof {
                assert(!duplicated_at(ids, j as int));
            }
            j = j + 1;
        }
        proof {
            assert forall|p: int, q: int| 0 <= p < q < ids.len() implies ids[p] != ids[q] by {
                assert(!duplicated_at(ids, q));
            }
        }
        Ok(())
    }
}

/// Uniquely identifies a host in the setup.
pub type HostId = String;

/// Mathematical image of `Host`.
pub ghost struct HostV {
    pub id: Seq<char>,
    pub os_info: OsV,
    pub extra_data: ExtraDataV,
}

/// A remote host on which commands can be run.
///
/// The record carries the host's identity and static metadata; the remote
/// session itself lives with the surrounding process, keyed by `id`.
#[derive(Debug)]
pub struct Host {
    /// A unique identifier for the host.
    pub id: HostId,
    /// The operating system family probed over the fresh connection.
    pub os_info: HostOs,
    /// Extra metadata from the host's configuration.
    pub extra_data: ExtraData,
}

impl View for Host {
    type V = HostV;

    open spec fn view(&self) -> HostV {
        HostV { id: self.id@, os_info: self.os_info@, extra_data: self.extra_data@ }
    }
}

impl Clone for Host {
    fn clone(&self) -> (r: Self)
        ensures
            r@ == self@,
    {
        Host {
            id: self.id.clone(),
            os_info: self.os_info.clone(),
            extra_data: self.extra_data.clone(),
        }
    }
}

/// The identifiers of a sequence of hosts, in order.
pub open spec fn host_ids(hs: Seq<Host>) -> Seq<Seq<char>> {
    hs.map_values(|h: Host| h.id@)
}

/// Keeps the hosts whose identifier is not among `excluded`.
pub open spec fn not_excluded(excluded: Seq<String>) -> spec_fn(Host) -> bool {
    |h: Host| !crate::text::str_views(excluded).contains(h.id@)
}

/// The mathematical images of a sequence of hosts, in order.
pub open spec fn host_views(hs: Seq<Host>) -> Seq<HostV> {
    hs.map_values(|h: Host| h@)
}

/// Everything a filter keeps was in the sequence it kept it from.
proof fn lemma_filter_subset<A>(s: Seq<A>, pred: spec_fn(A) -> bool)
    ensures
        forall|x: A| #[trigger] s.filter(pred).contains(x) ==> s.contains(x),
    decreases s.len(),
{
    broadcast use Seq::lemma_filter_push;

    if s.len() > 0 {
        let dl = s.drop_last();
        lemma_filter_subset(dl, pred);
        assert(dl.push(s.last()) =~= s);
        assert forall|x: A| s.filter(pred).contains(x) implies s.contains(x) by {
            if pred(s.last()) {
                assert(s.filter(pred) == dl.filter(pred).push(s.last()));
                let j = choose|j: int|
                    0 <= j < s.filter(pred).len() && s.filter(pred)[j] == x;
                if j < dl.filter(pred).len() {
                    assert(dl.filter(pred).contains(x));
                    let k = choose|k: int| 0 <= k < dl.len() && dl[k] == x;
                    assert(s[k] == x);
                } else {
                    assert(s[s.len() - 1] == x);
                }
            } else {
                assert(s.filter(pred) == dl.filter(pred));
                assert(dl.contains(x));
                let k = choose|k: int| 0 <= k < dl.len() && dl[k] == x;
                assert(s[k] == x);
            }
        }
    }
}

/// Filtering hosts with pairwise-distinct identifiers keeps the
/// identifiers pairwise distinct.
proof fn lemma_filter_ids_no_dup(s: Seq<Host>, pred: spec_fn(Host) -> bool)
    requires
        host_ids(s).no_duplicates(),
    ensures
        host_ids(s.filter(pred)).no_duplicates(),
    decreases s.len(),
{
    broadcast use Seq::lemma_filter_push;

    if s.len() > 0 {
        let dl = s.drop_last();
        assert forall|p: int, q: int|
            0 <= p < q < host_ids(dl).len() implies host_ids(dl)[p] != host_ids(dl)[q] by {
            assert(host_ids(s)[p] == host_ids(dl)[p]);
            assert(host_ids(s)[q] == host_ids(dl)[q]);
        }
        lemma_filter_ids_no_dup(dl, pred);
        assert(dl.push(s.last()) =~= s);
        if pred(s.last()) {
            assert(s.filter(pred) == dl.filter(pred).push(s.last()));
            let kept = s.filter(pred);
            let prev = dl.filter(pred);
            assert forall|p: int, q: int|
                0 <= p < q < host_ids(kept).len() implies host_ids(kept)[p] != host_ids(
                kept,
            )[q] by {
                if q < prev.len() {
                    assert(host_ids(kept)[p] == host_ids(prev)[p]);
                    assert(host_ids(kept)[q] == host_ids(prev)[q]);
                } else {
                    assert(kept[q] == s.last());
                    assert(kept[p] == prev[p]);
                    if host_ids(kept)[p] == host_ids(kept)[q] {
                        assert(prev[p].id@ == s.last().id@);
                        lemma_filter_subset(dl, pred);
                        assert(prev.contains(prev[p]));
                        assert(dl.contains(prev[p]));
                        let k = choose|k: int| 0 <= k < dl.len() && dl[k] == prev[p];
                        assert(host_ids(s)[k] == host_ids(s)[s.len() - 1]);
                        assert(false);
                    }
                }
            }
        } else {
            assert(s.filter(pred) == dl.filter(pred));
        }
    }
}

/// An immutable registry of connected hosts with unique identifiers.
#[derive(Debug)]
pub struct Hosts {
    hosts: Vec<Host>,
}

impl Hosts {
    /// The hosts of the registry, in a fixed order.
    pub closed spec fn hosts_seq(self) -> Seq<Host> {
        self.hosts@
    }

    /// The identifiers of the registry, in the same order as the hosts.
    pub open spec fn ids(self) -> Seq<Seq<char>> {
        host_ids(self.hosts_seq())
    }

    /// Every identifier names exactly one host.
    #[verifier::type_invariant]
    pub open spec fn wf(self) -> bool {
        self.ids().no_duplicates()
    }

    /// Whether some host of the registry has this identifier.
    pub open spec fn contains_id(self, id: Seq<char>) -> bool {
        self.ids().contains(id)
    }

    /// The image of the host with this identifier.
    pub open spec fn host_view_of(self, id: Seq<char>) -> HostV {
        self.hosts_seq()[self.ids().index_of(id)]@
    }

    /// Builds a registry from connected hosts. Fails with the first
    /// identifier that repeats an earlier one; on success the registry holds
    /// exactly the given hosts, in the given order.
    pub fn new(hosts: Vec<Host>) -> (r: Result<Hosts, HostsError>)
        ensures
            r is Ok <==> host_ids(hosts@).no_duplicates(),
            r is Ok ==> r->Ok_0.hosts_seq() == hosts@,
            r is Err ==> ({
                let ids = host_ids(hosts@);
                &&& r->Err_0 matches HostsError::DuplicateId(d) && exists|j: int|
                    {
                        &&& 0 <= j < ids.len()
                        &&& #[trigger] duplicated_at(ids, j)
                        &&& d@ == ids[j]
                        &&& forall|k: int| 0 <= k < j ==> !duplicated_at(ids, k)
                    }
            }),
    {
        let ghost ids = host_ids(hosts@);
        let n = hosts.len();
        let mut j: usize = 0;
        while j < n
            invariant
                j <= n,
                ids == host_ids(hosts@),
                n == hosts@.len(),
                ids.len() == n,
                forall|k: int| 0 <= k < j ==> !duplicated_at(ids, k),
            decreases n - j,
        {
            let mut i: usize = 0;
            while i < j
                invariant
                    i <= j < n,
                    ids == host_ids(hosts@),
                    n == hosts@.len(),
                    ids.len() == n,
                    forall|k: int| 0 <= k < i ==> ids[k] != ids[j as int],
                    forall|k: int| 0 <= k < j ==> !duplicated_at(ids, k),
                decreases j - i,
            {
                if str_eq(hosts[i].id.as_str(), hosts[j].id.as_str()) {
                    proof {
                        assert(ids[i as int] == ids[j as int]);
                        assert(duplicated_at(ids, j as int));
                        assert(ids[j as int] == hosts@[j as int].id@);
                    }
                    return Err(HostsError::DuplicateId(hosts[j].id.clone()));
                }
                i = i + 1;
            }
            proof {
                assert(!duplicated_at(ids, j as int));
            }
            j = j + 1;
        }
        proof {
            assert forall|p: int, q: int| 0 <= p < q < ids.len() implies ids[p] != ids[q] by {
                assert(!duplicated_at(ids, q));
            }
        }
        Ok(Hosts { hosts })
    }

    /// Gets a host by its identifier.
    pub fn get(&self, id: &str) -> (r: Option<&Host>)
        ensures
            r is Some <==> self.contains_id(id@),
            r is Some ==> r->0.id@ == id@ && r->0@ == self.host_view_of(id@),
    {
        proof {
            use_type_invariant(self);
        }
        let n = self.hosts.len();
        let mut i: usize = 0;
        while i < n
            invariant
                i <= n,
                n == self.hosts@.len(),
                forall|j: int| 0 <= j < i ==> self.ids()[j] != id@,
            decreases n - i,
        {
            if str_eq(self.hosts[i].id.as_str(), id) {
                proof {
                    use_type_invariant(self);
                    assert(self.ids()[i as int] == id@);
                    assert(self.contains_id(id@));
                    let m = self.ids().index_of(id@);
                    assert(self.ids()[m] == id@);
                    if m != i as int {
                        assert(false);
                    }
                }
                return Some(&self.hosts[i]);
            }
            i = i + 1;
        }
        proof {
            assert forall|j: int| 0 <= j < self.ids().len() implies self.ids()[j] != id@ by {}
        }
        None
    }

    /// Resolves identifiers to hosts, in the order given.
    ///
    /// Fails fast with the first identifier, in iteration order, that the
    /// registry does not contain; no partial list is returned.
    pub fn get_many(&self, ids: &Vec<String>) -> (r: Result<Vec<Host>, HostId>)
        ensures
            r is Ok <==> (forall|i: int|
                0 <= i < ids@.len() ==> self.contains_id(#[trigger] ids@[i]@)),
            r is Ok ==> ({
                let out = r->Ok_0;
                &&& out@.len() == ids@.len()
                &&& forall|i: int|
                    0 <= i < out@.len() ==> #[trigger] out@[i]@ == self.host_view_of(ids@[i]@)
                &&& forall|i: int| 0 <= i < out@.len() ==> #[trigger] out@[i]@.id == ids@[i]@
            }),
            r is Err ==> exists|k: int|
                {
                    &&& 0 <= k < ids@.len()
                    &&& !self.contains_id(#[trigger] ids@[k]@)
                    &&& r->Err_0@ == ids@[k]@
                    &&& forall|j: int| 0 <= j < k ==> self.contains_id(#[trigger] ids@[j]@)
                },
    {
        let n = ids.len();
        let mut out: Vec<Host> = Vec::new();
        let mut k: usize = 0;
        while k < n
            invariant
                k <= n,
                n == ids@.len(),
                out@.len() == k,
                forall|i: int| 0 <= i < k ==> self.contains_id(#[trigger] ids@[i]@),
                forall|i: int|
                    0 <= i < k ==> #[trigger] out@[i]@ == self.host_view_of(ids@[i]@),
                forall|i: int| 0 <= i < k ==> #[trigger] out@[i]@.id == ids@[i]@,
            decreases n - k,
        {
            match self.get(ids[k].as_str()) {
                Some(host) => {
                    out.push(host.clone());
                },
                None => {
                    return Err(ids[k].clone());
                },
            }
            k = k + 1;
        }
        Ok(out)
    }

    /// All hosts except those whose identifier appears in `excluded`, in
    /// registry order. Unknown excluded identifiers are ignored.
    pub fn all_except(&self, excluded: &Vec<String>) -> (r: Vec<Host>)
        ensures
            host_views(r@) == host_views(self.hosts_seq().filter(not_excluded(excluded@))),
    {
        let ghost pred = not_excluded(excluded@);
        let n = self.hosts.len();
        let mut out: Vec<Host> = Vec::new();
        proof {
            reveal(Seq::filter);
            assert(self.hosts@.take(0) =~= Seq::<Host>::empty());
            assert(host_views(out@) =~= host_views(self.hosts@.take(0).filter(pred)));
        }
        let mut i: usize = 0;
        while i < n
            invariant
                i <= n,
                n == self.hosts@.len(),
                pred == not_excluded(excluded@),
                host_views(out@) == host_views(self.hosts@.take(i as int).filter(pred)),
            decreases n - i,
        {
            let h = &self.hosts[i];
            let keep = !contains_str(excluded, h.id.as_str());
            proof {
                reveal(Seq::filter);
                assert(self.hosts@.take(i + 1).drop_last() =~= self.hosts@.take(i as int));
                assert(self.hosts@.take(i + 1).last() == self.hosts@[i as int]);
                assert(keep == pred(self.hosts@[i as int]));
            }
            if keep {
                let hc = h.clone();
                let ghost old_out = out@;
                out.push(hc);
                proof {
                    let prev = self.hosts@.take(i as int).filter(pred);
                    let next = self.hosts@.take(i + 1).filter(pred);
                    assert(next == prev.push(self.hosts@[i as int]));
                    assert(out@ == old_out.push(hc));
                    assert(host_views(old_out).len() == old_out.len());
                    assert(host_views(prev).len() == prev.len());
                    assert(old_out.len() == prev.len());
                    assert forall|j: int| 0 <= j < next.len() implies #[trigger] host_views(
                        out@,
                    )[j] == host_views(next)[j] by {
                        assert(host_views(out@)[j] == out@[j]@);
                        assert(host_views(next)[j] == next[j]@);
                        if j < prev.len() {
                            assert(out@[j] == old_out[j]);
                            assert(host_views(old_out)[j] == old_out[j]@);
                            assert(host_views(old_out)[j] == host_views(prev)[j]);
                            assert(host_views(prev)[j] == prev[j]@);
                        } else {
                            assert(out@[j] == hc);
                            assert(next[j] == self.hosts@[i as int]);
                        }
                    }
                    assert(host_views(out@) =~= host_views(next));
                }
            } else {
                proof {
                    assert(host_views(out@) =~= host_views(self.hosts@.take(i + 1).filter(pred)));
                }
            }
            i = i + 1;
        }
        proof {
            assert(self.hosts@.take(n as int) =~= self.hosts@);
        }
        out
    }

    /// Law: for any well-formed registry and any excluded list, the hosts
    /// kept by `all_except` are exactly those of the registry whose
    /// identifier is not excluded — no omissions, nothing else, and no host
    /// twice.
    pub proof fn lemma_all_except_exact(self, excluded: Seq<String>)
        requires
            self.wf(),
        ensures
            forall|i: int|
                0 <= i < self.hosts_seq().len() ==> (self.hosts_seq().filter(
                    not_excluded(excluded),
                ).contains(#[trigger] self.hosts_seq()[i]) <==> !crate::text::str_views(
                    excluded,
                ).contains(self.hosts_seq()[i].id@)),
            forall|h: Host|
                #[trigger] self.hosts_seq().filter(not_excluded(excluded)).contains(h)
                    ==> self.hosts_seq().contains(h),
            host_ids(self.hosts_seq().filter(not_excluded(excluded))).no_duplicates(),
    {
        broadcast use vstd::seq_lib::group_filter_ensures;

        let s = self.hosts_seq();
        let pred = not_excluded(excluded);
        let kept = s.filter(pred);
        lemma_filter_subset(s, pred);
        lemma_filter_ids_no_dup(s, pred);
        assert forall|i: int| 0 <= i < s.len() implies (kept.contains(#[trigger] s[i])
            <==> !crate::text::str_views(excluded).contains(s[i].id@)) by {
            if kept.contains(s[i]) {
                let j = choose|j: int| 0 <= j < kept.len() && kept[j] == s[i];
                assert(pred(kept[j]));
            }
            if pred(s[i]) {
                assert(kept.contains(s[i]));
            }
        }
    }

    /// The hosts of the registry, for iteration. The order is unspecified but
    /// fixed for a given registry instance.
    pub fn iter(&self) -> (r: &Vec<Host>)
        ensures
            r@ == self.hosts_seq(),
    {
        &self.hosts
    }
}

} // verus!
