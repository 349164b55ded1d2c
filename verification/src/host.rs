//! Hosts and host lists: addresses, their variables, their groups, and
//! the host-list document format (global `vars`, `hosts` entries with
//! inline `[k=v, …]` variables, and `groups`).

use vstd::prelude::*;
use crate::error::Error;
use crate::json::Json;
use crate::json::JsonV;
use crate::json::spec_obj_lookup;
use crate::json::view_arr;
use crate::json::view_obj;
use crate::json::lemma_view_arr_len;
use crate::json::lemma_view_obj_len;
use crate::strutil::chars_of;
use crate::strutil::find_char;
use crate::strutil::find_char_range;
use crate::strutil::lemma_find_char_bounds;
use crate::strutil::str_eq;
use crate::strutil::string_of_chars;
use crate::strutil::trim_chars;
use crate::strutil::trimmed;

verus! {

/// The views of a list of variable pairs.
pub open spec fn pair_views(s: Seq<(String, String)>) -> Seq<(Seq<char>, Seq<char>)> {
    s.map_values(|p: (String, String)| (p.0@, p.1@))
}

/// The views of a list of strings.
pub open spec fn str_views(s: Seq<String>) -> Seq<Seq<char>> {
    s.map_values(|x: String| x@)
}

/// The views of a list of groups.
pub open spec fn group_views(s: Seq<Group>) -> Seq<GroupV> {
    s.map_values(|x: Group| x@)
}

/// One target host: an address, its variables (later entries win), and
/// the groups it belongs to.
#[derive(Debug)]
pub struct Host {
    pub address: String,
    pub vars: Option<Vec<(String, String)>>,
    pub groups: Option<Vec<String>>,
}

/// Spec mirror of [`Host`].
pub struct HostV {
    pub address: Seq<char>,
    pub vars: Option<Seq<(Seq<char>, Seq<char>)>>,
    pub groups: Option<Seq<Seq<char>>>,
}

impl View for Host {
    type V = HostV;

    open spec fn view(&self) -> HostV {
        HostV {
            address: self.address@,
            vars: match self.vars {
                Some(v) => Some(pair_views(v@)),
                None => None,
            },
            groups: match self.groups {
                Some(g) => Some(str_views(g@)),
                None => None,
            },
        }
    }
}

impl Clone for Host {
    /// The copy describes the same host.
    fn clone(&self) -> (r: Host)
        ensures
            r@ == self@,
    {
        let vars = match &self.vars {
            Some(v) => {
                let mut out: Vec<(String, String)> = Vec::new();
                let mut i: usize = 0;
                while i < v.len()
                    invariant
                        i <= v@.len(),
                        out@.len() == i,
                        forall|j: int|
                            0 <= j < i ==> ((#[trigger] out@[j].0@), out@[j].1@) == (
                            v@[j].0@,
                            v@[j].1@,
                            ),
                    decreases v@.len() - i,
                {
                    out.push((v[i].0.clone(), v[i].1.clone()));
                    i = i + 1;
                }
                proof {
                    assert(pair_views(out@) =~= pair_views(v@));
                }
                Some(out)
            },
            None => None,
        };
        let groups = match &self.groups {
            Some(g) => {
                let mut out: Vec<String> = Vec::new();
                let mut i: usize = 0;
                while i < g.len()
                    invariant
                        i <= g@.len(),
                        out@.len() == i,
                        forall|j: int| 0 <= j < i ==> (#[trigger] out@[j]@) == g@[j]@,
                    decreases g@.len() - i,
                {
                    out.push(g[i].clone());
                    i = i + 1;
                }
                proof {
                    assert(str_views(out@) =~= str_views(g@));
                }
                Some(out)
            },
            None => None,
        };
        Host { address: self.address.clone(), vars, groups }
    }
}

impl Host {
    /// A host with only an address.
    pub fn from_string(address: String) -> (r: Host)
        ensures
            r@.address == address@,
            r@.vars is None,
            r@.groups is None,
    {
        Host { address, vars: None, groups: None }
    }

    /// Adds the host to one more group.
    pub fn add_to_group(&mut self, groupname: &String)
        ensures
            final(self).address == old(self).address,
            final(self).vars == old(self).vars,
            match old(self)@.groups {
                Some(g) => final(self)@.groups == Some(g.push(groupname@)),
                None => final(self)@.groups == Some(seq![groupname@]),
            },
    {
        match &mut self.groups {
            Some(group_list) => {
                let ghost prev = group_list@;
                group_list.push(groupname.clone());
                proof {
                    assert(str_views(group_list@) =~= str_views(prev).push(groupname@));
                }
            },
            None => {
                let mut g: Vec<String> = Vec::new();
                g.push(groupname.clone());
                proof {
                    assert(str_views(g@) =~= seq![groupname@]);
                }
                self.groups = Some(g);
            },
        }
    }

    /// Appends variables; since later entries win, appending overrides.
    pub fn add_vars(&mut self, newvars: &Vec<(String, String)>)
        ensures
            final(self).address == old(self).address,
            final(self).groups == old(self).groups,
            match old(self)@.vars {
                Some(v) => final(self)@.vars == Some(v + pair_views(newvars@)),
                None => final(self)@.vars == Some(pair_views(newvars@)),
            },
    {
        let mut fresh: Vec<(String, String)> = Vec::new();
        let mut i: usize = 0;
        while i < newvars.len()
            invariant
                i <= newvars@.len(),
                fresh@.len() == i,
                forall|j: int|
                    0 <= j < i ==> ((#[trigger] fresh@[j].0@), fresh@[j].1@) == (
                    newvars@[j].0@,
                    newvars@[j].1@,
                    ),
            decreases newvars@.len() - i,
        {
            fresh.push((newvars[i].0.clone(), newvars[i].1.clone()));
            i = i + 1;
        }
        proof {
            assert(pair_views(fresh@) =~= pair_views(newvars@));
        }
        match &mut self.vars {
            Some(old_list) => {
                let ghost prev = old_list@;
                let mut fresh = fresh;
                old_list.append(&mut fresh);
                proof {
                    assert(pair_views(old_list@) =~= pair_views(prev) + pair_views(newvars@));
                }
            },
            None => {
                self.vars = Some(fresh);
            },
        }
    }

    /// Appends one variable.
    pub fn add_var(&mut self, key: &str, value: &str)
        ensures
            final(self).address == old(self).address,
            final(self).groups == old(self).groups,
            match old(self)@.vars {
                Some(v) => final(self)@.vars == Some(v.push((key@, value@))),
                None => final(self)@.vars == Some(seq![(key@, value@)]),
            },
    {
        match &mut self.vars {
            Some(old_list) => {
                let ghost prev = old_list@;
                old_list.push((key.to_owned(), value.to_owned()));
                proof {
                    assert(pair_views(old_list@) =~= pair_views(prev).push((key@, value@)));
                }
            },
            None => {
                let mut v: Vec<(String, String)> = Vec::new();
                v.push((key.to_owned(), value.to_owned()));
                proof {
                    assert(pair_views(v@) =~= seq![(key@, value@)]);
                }
                self.vars = Some(v);
            },
        }
    }
}

/// One named group of hosts with shared variables.
#[derive(Debug)]
pub struct Group {
    pub name: String,
    pub vars: Option<Vec<(String, String)>>,
    pub hosts: Option<Vec<String>>,
}

/// The parsed host list: the hosts, with every variable that applies to
/// each, or nothing when the document named none.
#[derive(Debug)]
pub struct HostList {
    pub hosts: Option<Vec<Host>>,
}

/// There is a host with this address among the first `n`.
pub open spec fn spec_host_found(hosts: Seq<Host>, name: Seq<char>, n: int) -> bool {
    exists|i: int| 0 <= i < n && (#[trigger] hosts[i]).address@ == name
}

/// The index of the host carrying this address, when one exists.
pub fn find_host_in_list(hosts_list: &Vec<Host>, host_name: &String) -> (r: Option<usize>)
    ensures
        match r {
            Some(i) => i < hosts_list@.len() && hosts_list@[i as int].address@ == host_name@
                && forall|j: int|
                0 <= j < i ==> (#[trigger] hosts_list@[j]).address@ != host_name@,
            None => !spec_host_found(hosts_list@, host_name@, hosts_list@.len() as int),
        },
{
    let mut i: usize = 0;
    while i < hosts_list.len()
        invariant
            i <= hosts_list@.len(),
            forall|j: int| 0 <= j < i ==> (#[trigger] hosts_list@[j]).address@ != host_name@,
        decreases hosts_list@.len() - i,
    {
        if str_eq(hosts_list[i].address.as_str(), host_name.as_str()) {
            return Some(i);
        }
        i = i + 1;
    }
    None
}

/// The addresses of all hosts, in order.
pub fn hostlist_get_all_hosts(hostlist: &HostList) -> (r: Option<Vec<String>>)
    ensures
        match (r, hostlist.hosts) {
            (Some(addrs), Some(hosts)) => addrs@.len() == hosts@.len() && forall|i: int|
                0 <= i < hosts@.len() ==> (#[trigger] addrs@[i]@) == hosts@[i].address@,
            (None, None) => true,
            _ => false,
        },
{
    match &hostlist.hosts {
        Some(host_list) => {
            let mut all: Vec<String> = Vec::new();
            let mut i: usize = 0;
            while i < host_list.len()
                invariant
                    i <= host_list@.len(),
                    all@.len() == i,
                    forall|j: int| 0 <= j < i ==> (#[trigger] all@[j]@) == host_list@[j].address@,
                decreases host_list@.len() - i,
            {
                all.push(host_list[i].address.clone());
                i = i + 1;
            }
            Some(all)
        },
        None => None,
    }
}

/// One `k=v` pair of an inline variable segment: the key is the trimmed
/// text before the first `=`, the value the trimmed text after it
/// (empty when there is no `=`).
pub open spec fn spec_vardef(seg: Seq<char>) -> (Seq<char>, Seq<char>) {
    let eq = find_char(seg, '=');
    (
        trimmed(seg.take(eq)),
        if eq < seg.len() {
            trimmed(seg.skip(eq + 1))
        } else {
            Seq::empty()
        },
    )
}

/// The comma-separated `k=v` pairs of an inline variable text.
pub open spec fn spec_vardefs(c: Seq<char>) -> Seq<(Seq<char>, Seq<char>)>
    decreases c.len(),
    via spec_vardefs_dec
{
    let comma = find_char(c, ',');
    if comma < c.len() {
        seq![spec_vardef(c.take(comma))] + spec_vardefs(c.skip(comma + 1))
    } else {
        seq![spec_vardef(c)]
    }
}

#[via_fn]
proof fn spec_vardefs_dec(c: Seq<char>) {
    lemma_find_char_bounds(c, ',');
}

/// What one host entry line denotes: the trimmed address before any
/// `[`, and, when a bracketed segment follows, its variable pairs.
pub open spec fn spec_host_entry(s: Seq<char>) -> HostV {
    let open = find_char(s, '[');
    let address = trimmed(s.take(open));
    if open < s.len() {
        let rest = s.skip(open + 1);
        let close = find_char(rest, ']');
        HostV { address, vars: Some(spec_vardefs(rest.take(close))), groups: None }
    } else {
        HostV { address, vars: None, groups: None }
    }
}

fn parse_vardefs(cs: &[char], start: usize, end: usize) -> (r: Vec<(String, String)>)
    requires
        start <= end <= cs@.len(),
    ensures
        pair_views(r@) == spec_vardefs(cs@.subrange(start as int, end as int)),
    decreases end - start,
{
    let ghost c = cs@.subrange(start as int, end as int);
    let comma = find_char_range(cs, start, end, ',');
    let eq = find_char_range(cs, start, comma, '=');
    proof {
        assert(c.take(comma - start) =~= cs@.subrange(start as int, comma as int));
        assert(find_char(c, ',') == comma - start);
        assert(find_char(cs@.subrange(start as int, comma as int), '=') == eq - start);
    }
    let ghost seg = if comma < end {
        c.take(comma - start)
    } else {
        c
    };
    proof {
        if comma == end {
            assert(c =~= cs@.subrange(start as int, comma as int));
        }
        assert(find_char(seg, '=') == eq - start);
        assert(seg.take(eq - start) =~= cs@.subrange(start as int, eq as int));
    }
    let key_chars = slice_range_vec(cs, start, eq);
    let key = trim_chars(&key_chars);
    let value = if eq < comma {
        proof {
            assert(seg.skip(eq - start + 1) =~= cs@.subrange(eq + 1, comma as int));
        }
        let value_chars = slice_range_vec(cs, eq + 1, comma);
        trim_chars(&value_chars)
    } else {
        proof {
            assert(find_char(seg, '=') == seg.len());
        }
        Vec::new()
    };
    let pair = (string_of_chars(key.as_slice()), string_of_chars(value.as_slice()));
    let ghost pair_v = spec_vardef(seg);
    proof {
        assert((pair.0@, pair.1@) == pair_v);
    }
    if comma < end {
        let mut out: Vec<(String, String)> = Vec::new();
        out.push(pair);
        let mut rest = parse_vardefs(cs, comma + 1, end);
        proof {
            assert(c.skip(comma - start + 1) =~= cs@.subrange(comma + 1, end as int));
        }
        let ghost rest_v = pair_views(rest@);
        out.append(&mut rest);
        proof {
            assert(pair_views(out@) =~= seq![pair_v] + rest_v);
        }
        out
    } else {
        let mut out: Vec<(String, String)> = Vec::new();
        out.push(pair);
        proof {
            assert(pair_views(out@) =~= seq![pair_v]);
        }
        out
    }
}

fn slice_range_vec(cs: &[char], start: usize, end: usize) -> (r: Vec<char>)
    requires
        start <= end <= cs@.len(),
    ensures
        r@ == cs@.subrange(start as int, end as int),
{
    let mut out: Vec<char> = Vec::new();
    let mut i: usize = start;
    while i < end
        invariant
            start <= i <= end <= cs@.len(),
            out@ == cs@.subrange(start as int, i as int),
        decreases end - i,
    {
        out.push(cs[i]);
        i = i + 1;
        proof {
            assert(out@ =~= cs@.subrange(start as int, i as int));
        }
    }
    out
}

/// Reads one host entry line: address, then optional inline variables
/// in brackets.
pub fn parse_host_entry(line: &str) -> (r: Host)
    ensures
        r@ == spec_host_entry(line@),
{
    let cs = chars_of(line);
    let n = cs.len();
    let open = find_char_range(cs.as_slice(), 0, n, '[');
    proof {
        assert(cs@.subrange(0, n as int) =~= line@);
        assert(find_char(line@, '[') == open);
        assert(cs@.subrange(0, open as int) =~= line@.take(open as int));
    }
    let addr_chars = slice_range_vec(cs.as_slice(), 0, open);
    let addr_trimmed = trim_chars(&addr_chars);
    let address = string_of_chars(addr_trimmed.as_slice());
    if open < n {
        let close = find_char_range(cs.as_slice(), open + 1, n, ']');
        proof {
            assert(line@.skip(open + 1) =~= cs@.subrange(open + 1, n as int));
            assert(find_char(line@.skip(open + 1), ']') == close - (open + 1));
            assert(line@.skip(open + 1).take(close - (open + 1)) =~= cs@.subrange(
                open + 1,
                close as int,
            ));
        }
        let vars = parse_vardefs(cs.as_slice(), open + 1, close);
        proof {
            assert(cs@.subrange(open + 1, close as int) =~= line@.skip(open + 1).take(
                close - (open + 1),
            ));
        }
        Host { address, vars: Some(vars), groups: None }
    } else {
        Host { address, vars: None, groups: None }
    }
}

impl Clone for Group {
    /// The copy describes the same group.
    fn clone(&self) -> (r: Group)
        ensures
            r.name@ == self.name@,
            match (&r.vars, &self.vars) {
                (Some(a), Some(b)) => pair_views(a@) == pair_views(b@),
                (None, None) => true,
                _ => false,
            },
            match (&r.hosts, &self.hosts) {
                (Some(a), Some(b)) => str_views(a@) == str_views(b@),
                (None, None) => true,
                _ => false,
            },
    {
        let vars = match &self.vars {
            Some(v) => {
                let mut out: Vec<(String, String)> = Vec::new();
                let mut i: usize = 0;
                while i < v.len()
                    invariant
                        i <= v@.len(),
                        out@.len() == i,
                        forall|j: int|
                            0 <= j < i ==> ((#[trigger] out@[j].0@), out@[j].1@) == (
                            v@[j].0@,
                            v@[j].1@,
                            ),
                    decreases v@.len() - i,
                {
                    out.push((v[i].0.clone(), v[i].1.clone()));
                    i = i + 1;
                }
                proof {
                    assert(pair_views(out@) =~= pair_views(v@));
                }
                Some(out)
            },
            None => None,
        };
        let hosts = match &self.hosts {
            Some(h) => {
                let mut out: Vec<String> = Vec::new();
                let mut i: usize = 0;
                while i < h.len()
                    invariant
                        i <= h@.len(),
                        out@.len() == i,
                        forall|j: int| 0 <= j < i ==> (#[trigger] out@[j]@) == h@[j]@,
                    decreases h@.len() - i,
                {
                    out.push(h[i].clone());
                    i = i + 1;
                }
                proof {
                    assert(str_views(out@) =~= str_views(h@));
                }
                Some(out)
            },
            None => None,
        };
        Group { name: self.name.clone(), vars, hosts }
    }
}

/// The host-list document before its inline host variables are read:
/// global variables, raw host entry lines, and groups.
#[derive(Debug)]
pub struct HostListVarsUnparsed {
    pub vars: Option<Vec<(String, String)>>,
    pub hosts: Option<Vec<String>>,
    pub groups: Option<Vec<Group>>,
}

/// The host-list document with each host entry line read.
#[derive(Debug)]
pub struct HostListFile {
    pub vars: Option<Vec<(String, String)>>,
    pub hosts: Option<Vec<Host>>,
    pub groups: Option<Vec<Group>>,
}

impl HostListVarsUnparsed {
    /// Reads every inline host entry line; variables and groups pass
    /// through unchanged.
    pub fn parse_host_vars(&self) -> (r: HostListFile)
        ensures
            match (&r.hosts, &self.hosts) {
                (Some(hs), Some(lines)) => hs@.len() == lines@.len() && forall|i: int|
                    0 <= i < lines@.len() ==> (#[trigger] hs@[i]@) == spec_host_entry(
                        lines@[i]@,
                    ),
                (None, None) => true,
                _ => false,
            },
            match (&r.vars, &self.vars) {
                (Some(a), Some(b)) => pair_views(a@) == pair_views(b@),
                (None, None) => true,
                _ => false,
            },
            match (&r.groups, &self.groups) {
                (Some(a), Some(b)) => a@.len() == b@.len() && forall|i: int|
                    0 <= i < b@.len() ==> (#[trigger] a@[i])@ == b@[i]@,
                (None, None) => true,
                _ => false,
            },
    {
        let hosts = match &self.hosts {
            Some(lines) => {
                let mut out: Vec<Host> = Vec::new();
                let mut i: usize = 0;
                while i < lines.len()
                    invariant
                        i <= lines@.len(),
                        out@.len() == i,
                        forall|j: int|
                            0 <= j < i ==> (#[trigger] out@[j]@) == spec_host_entry(lines@[j]@),
                    decreases lines@.len() - i,
                {
                    out.push(parse_host_entry(lines[i].as_str()));
                    i = i + 1;
                }
                Some(out)
            },
            None => None,
        };
        let vars = match &self.vars {
            Some(v) => {
                let mut out: Vec<(String, String)> = Vec::new();
                let mut i: usize = 0;
                while i < v.len()
                    invariant
                        i <= v@.len(),
                        out@.len() == i,
                        forall|j: int|
                            0 <= j < i ==> ((#[trigger] out@[j].0@), out@[j].1@) == (
                            v@[j].0@,
                            v@[j].1@,
                            ),
                    decreases v@.len() - i,
                {
                    out.push((v[i].0.clone(), v[i].1.clone()));
                    i = i + 1;
                }
                proof {
                    assert(pair_views(out@) =~= pair_views(v@));
                }
                Some(out)
            },
            None => None,
        };
        let groups = match &self.groups {
            Some(g) => {
                let mut out: Vec<Group> = Vec::new();
                let mut i: usize = 0;
                while i < g.len()
                    invariant
                        i <= g@.len(),
                        out@.len() == i,
                        forall|j: int| 0 <= j < i ==> (#[trigger] out@[j])@ == g@[j]@,
                    decreases g@.len() - i,
                {
                    out.push(g[i].clone());
                    i = i + 1;
                }
                Some(out)
            },
            None => None,
        };
        HostListFile { vars, hosts, groups }
    }
}

/// A found address stays found when the list only grows and keeps its
/// addresses.
pub proof fn lemma_found_monotone(before: Seq<Host>, after: Seq<Host>, addr: Seq<char>)
    requires
        spec_host_found(before, addr, before.len() as int),
        before.len() <= after.len(),
        forall|i: int| 0 <= i < before.len() ==> (#[trigger] after[i]).address@ == before[i].address@,
    ensures
        spec_host_found(after, addr, after.len() as int),
{
    let i = choose|i: int| 0 <= i < before.len() && (#[trigger] before[i]).address@ == addr;
    assert(after[i].address@ == addr);
}

/// The declared host addresses of a group, when it declares any.
pub open spec fn group_hosts_v(g: Group) -> Option<Seq<Seq<char>>> {
    match g.hosts {
        Some(hs) => Some(str_views(hs@)),
        None => None,
    }
}

/// The group at `g` declares this address among its hosts.
pub open spec fn spec_group_mentions(gs: Seq<Group>, g: int, addr: Seq<char>) -> bool {
    match gs[g].hosts {
        Some(hs) => exists|h: int| 0 <= h < hs@.len() && (#[trigger] hs@[h])@ == addr,
        None => false,
    }
}

/// Every host the group at `gi` declares already stands in `hosts`.
pub open spec fn spec_group_covered(gs: Seq<Group>, gi: int, hosts: Seq<Host>) -> bool {
    match gs[gi].hosts {
        Some(hs) => forall|h: int|
            0 <= h < hs@.len() ==> spec_host_found(hosts, (#[trigger] hs@[h])@, hosts.len() as int),
        None => true,
    }
}

/// The names of the groups declaring this address, one per occurrence,
/// in declaration order.
pub open spec fn names_in_group_hosts(hosts: Seq<String>, name: Seq<char>, a: Seq<char>) -> Seq<
    Seq<char>,
>
    decreases hosts.len(),
{
    if hosts.len() == 0 {
        Seq::empty()
    } else {
        (if hosts.first()@ == a {
            seq![name]
        } else {
            Seq::empty()
        }) + names_in_group_hosts(hosts.drop_first(), name, a)
    }
}

pub open spec fn names_in_groups(gs: Seq<Group>, a: Seq<char>) -> Seq<Seq<char>>
    decreases gs.len(),
{
    if gs.len() == 0 {
        Seq::empty()
    } else {
        (match gs.first().hosts {
            Some(h) => names_in_group_hosts(h@, gs.first().name@, a),
            None => Seq::empty(),
        }) + names_in_groups(gs.drop_first(), a)
    }
}

/// The merged group list of one address: the declaring groups in order,
/// or nothing when no group declares it.
pub open spec fn spec_merged_groups(file: &HostListFile, a: Seq<char>) -> Option<Seq<Seq<char>>> {
    let names = match file.groups {
        Some(gs) => names_in_groups(gs@, a),
        None => Seq::empty(),
    };
    if names.len() == 0 {
        None
    } else {
        Some(names)
    }
}

/// The variable pairs a group contributes for this address: its own
/// variables once per occurrence; a group without variables contributes
/// nothing. The flag says whether anything (even an empty list) was
/// contributed.
pub open spec fn vars_in_group_hosts(
    hosts: Seq<String>,
    gvars: Option<Vec<(String, String)>>,
    a: Seq<char>,
) -> (bool, Seq<(Seq<char>, Seq<char>)>)
    decreases hosts.len(),
{
    if hosts.len() == 0 {
        (false, Seq::empty())
    } else {
        let head = if hosts.first()@ == a {
            match gvars {
                Some(v) => (true, pair_views(v@)),
                None => (false, Seq::<(Seq<char>, Seq<char>)>::empty()),
            }
        } else {
            (false, Seq::<(Seq<char>, Seq<char>)>::empty())
        };
        let rest = vars_in_group_hosts(hosts.drop_first(), gvars, a);
        (head.0 || rest.0, head.1 + rest.1)
    }
}

pub open spec fn vars_in_groups(gs: Seq<Group>, a: Seq<char>) -> (
    bool,
    Seq<(Seq<char>, Seq<char>)>,
)
    decreases gs.len(),
{
    if gs.len() == 0 {
        (false, Seq::empty())
    } else {
        let head = match gs.first().hosts {
            Some(h) => vars_in_group_hosts(h@, gs.first().vars, a),
            None => (false, Seq::<(Seq<char>, Seq<char>)>::empty()),
        };
        let rest = vars_in_groups(gs.drop_first(), a);
        (head.0 || rest.0, head.1 + rest.1)
    }
}

/// The variable pairs the file's own host entries contribute for this
/// address, one bundle per matching entry, in entry order.
pub open spec fn vars_in_entries(hs: Seq<Host>, a: Seq<char>) -> (
    bool,
    Seq<(Seq<char>, Seq<char>)>,
)
    decreases hs.len(),
{
    if hs.len() == 0 {
        (false, Seq::empty())
    } else {
        let head = if hs.first().address@ == a {
            match hs.first().vars {
                Some(v) => (true, pair_views(v@)),
                None => (false, Seq::<(Seq<char>, Seq<char>)>::empty()),
            }
        } else {
            (false, Seq::<(Seq<char>, Seq<char>)>::empty())
        };
        let rest = vars_in_entries(hs.drop_first(), a);
        (head.0 || rest.0, head.1 + rest.1)
    }
}

/// The merged variable list of one address: the file's global variables
/// first, then every declaring group's variables per occurrence, then
/// every matching host entry's own variables — so later (more specific)
/// bindings win under the last-binding-wins reading. The list stays
/// absent when no source contributed at all.
pub open spec fn spec_merged_vars(file: &HostListFile, a: Seq<char>) -> Option<
    Seq<(Seq<char>, Seq<char>)>,
> {
    let g0 = match file.vars {
        Some(v) => (true, pair_views(v@)),
        None => (false, Seq::<(Seq<char>, Seq<char>)>::empty()),
    };
    let g1 = match file.groups {
        Some(gs) => vars_in_groups(gs@, a),
        None => (false, Seq::<(Seq<char>, Seq<char>)>::empty()),
    };
    let g2 = match file.hosts {
        Some(hs) => vars_in_entries(hs@, a),
        None => (false, Seq::<(Seq<char>, Seq<char>)>::empty()),
    };
    if g0.0 || g1.0 || g2.0 {
        Some(g0.1 + g1.1 + g2.1)
    } else {
        None
    }
}

/// This address occurs among a group's declared hosts or the file's own
/// host entries.
pub open spec fn spec_file_mentions(file: &HostListFile, addr: Seq<char>) -> bool {
    ||| match file.groups {
        Some(gs) => exists|g: int| 0 <= g < gs@.len() && spec_group_mentions(#[trigger] gs@, g, addr),
        None => false,
    }
    ||| match file.hosts {
        Some(hs) => exists|i: int| 0 <= i < hs@.len() && (#[trigger] hs@[i]).address@ == addr,
        None => false,
    }
}

impl HostListFile {
    /// An empty file with every section present.
    pub fn new() -> (r: HostListFile)
        ensures
            r.vars matches Some(v) && v@.len() == 0,
            r.hosts matches Some(h) && h@.len() == 0,
            r.groups matches Some(g) && g@.len() == 0,
    {
        HostListFile { vars: Some(Vec::new()), hosts: Some(Vec::new()), groups: Some(Vec::new()) }
    }

    /// A file from plain hosts and optional global variables; an empty
    /// host list collapses to an empty document.
    pub fn from_hosts(hosts: Vec<Host>, vars: Option<Vec<(String, String)>>) -> (r: HostListFile)
        ensures
            hosts@.len() == 0 ==> r.vars is None && r.hosts is None && r.groups is None,
            hosts@.len() > 0 ==> r.hosts == Some(hosts) && r.groups is None && r.vars == vars,
    {
        if hosts.is_empty() {
            HostListFile { vars: None, hosts: None, groups: None }
        } else {
            HostListFile { vars, hosts: Some(hosts), groups: None }
        }
    }

    /// The fully merged host for one address: the groups declaring it,
    /// and its variables folded global-first, then group, then its own
    /// entries (later bindings win downstream).
    #[verifier::loop_isolation(false)]
    #[verifier::rlimit(60)]
    pub fn merged_host(&self, address: &String) -> (r: Host)
        ensures
            r@.address == address@,
            r@.groups == spec_merged_groups(self, address@),
            r@.vars == spec_merged_vars(self, address@),
    {
        let ghost a = address@;
        // groups, one name per occurrence
        let mut names: Vec<String> = Vec::new();
        match &self.groups {
            Some(gs) => {
                let mut g: usize = 0;
                proof {
                    assert(gs@.skip(0) =~= gs@);
                    assert(str_views(names@) + names_in_groups(gs@, a) =~= names_in_groups(
                        gs@,
                        a,
                    ));
                }
                while g < gs.len()
                    invariant
                        g <= gs@.len(),
                        self.groups matches Some(gl) && gl@ == gs@,
                        str_views(names@) + names_in_groups(gs@.skip(g as int), a)
                            == names_in_groups(gs@, a),
                    decreases gs@.len() - g,
                {
                    proof {
                        assert(gs@.skip(g as int).first() == gs@[g as int]);
                        assert(gs@.skip(g as int).drop_first() =~= gs@.skip(g as int + 1));
                    }
                    match &gs[g].hosts {
                        Some(hosts) => {
                            let ghost nm = gs@[g as int].name@;
                            let mut h: usize = 0;
                            proof {
                                assert(hosts@.skip(0) =~= hosts@);
                                assert(str_views(names@) + names_in_group_hosts(hosts@, nm, a)
                                    + names_in_groups(gs@.skip(g as int + 1), a) =~= str_views(
                                    names@,
                                ) + (names_in_group_hosts(hosts@, nm, a) + names_in_groups(
                                    gs@.skip(g as int + 1),
                                    a,
                                )));
                            }
                            while h < hosts.len()
                                invariant
                                    h <= hosts@.len(),
                                    g < gs@.len(),
                                    self.groups matches Some(gl) && gl@ == gs@,
                                    gs@[g as int].hosts matches Some(hv) && hv@ == hosts@,
                                    nm == gs@[g as int].name@,
                                    str_views(names@) + names_in_group_hosts(
                                        hosts@.skip(h as int),
                                        nm,
                                        a,
                                    ) + names_in_groups(gs@.skip(g as int + 1), a)
                                        == names_in_groups(gs@, a),
                                decreases hosts@.len() - h,
                            {
                                proof {
                                    assert(hosts@.skip(h as int).first() == hosts@[h as int]);
                                    assert(hosts@.skip(h as int).drop_first() =~= hosts@.skip(
                                        h as int + 1,
                                    ));
                                }
                                let ghost prev = names@;
                                if str_eq(hosts[h].as_str(), address.as_str()) {
                                    names.push(gs[g].name.clone());
                                    proof {
                                        assert(hosts@[h as int]@ == a);
                                        assert(names_in_group_hosts(hosts@.skip(h as int), nm, a)
                                            =~= seq![nm] + names_in_group_hosts(
                                            hosts@.skip(h as int + 1),
                                            nm,
                                            a,
                                        ));
                                        assert(str_views(names@) =~= str_views(prev).push(nm));
                                        assert(str_views(names@) + names_in_group_hosts(
                                            hosts@.skip(h as int + 1),
                                            nm,
                                            a,
                                        ) =~= str_views(prev) + names_in_group_hosts(
                                            hosts@.skip(h as int),
                                            nm,
                                            a,
                                        ));
                                    }
                                } else {
                                    proof {
                                        assert(hosts@[h as int]@ != a);
                                        assert(names_in_group_hosts(hosts@.skip(h as int), nm, a)
                                            =~= names_in_group_hosts(
                                            hosts@.skip(h as int + 1),
                                            nm,
                                            a,
                                        ));
                                        assert(str_views(names@) + names_in_group_hosts(
                                            hosts@.skip(h as int + 1),
                                            nm,
                                            a,
                                        ) =~= str_views(prev) + names_in_group_hosts(
                                            hosts@.skip(h as int),
                                            nm,
                                            a,
                                        ));
                                    }
                                }
                                h = h + 1;
                            }
                            proof {
                                assert(hosts@.skip(h as int) =~= Seq::<String>::empty());
                                assert(str_views(names@) + names_in_groups(
                                    gs@.skip(g as int + 1),
                                    a,
                                ) =~= str_views(names@) + names_in_group_hosts(
                                    hosts@.skip(h as int),
                                    nm,
                                    a,
                                ) + names_in_groups(gs@.skip(g as int + 1), a));
                            }
                        },
                        None => {},
                    }
                    g = g + 1;
                }
                proof {
                    assert(gs@.skip(g as int) =~= Seq::<Group>::empty());
                    assert(str_views(names@) + names_in_groups(gs@.skip(g as int), a)
                        =~= str_views(names@));
                }
            },
            None => {},
        }
        // variables: global, then per-occurrence group variables, then
        // the file's own entries for this address
        let mut have: bool = false;
        let mut vars: Vec<(String, String)> = Vec::new();
        match &self.vars {
            Some(v) => {
                let mut k: usize = 0;
                while k < v.len()
                    invariant
                        k <= v@.len(),
                        self.vars matches Some(vv) && vv@ == v@,
                        vars@.len() == k,
                        forall|j: int|
                            0 <= j < k ==> ((#[trigger] vars@[j].0@), vars@[j].1@) == (
                            v@[j].0@,
                            v@[j].1@,
                            ),
                    decreases v@.len() - k,
                {
                    vars.push((v[k].0.clone(), v[k].1.clone()));
                    k = k + 1;
                }
                have = true;
                proof {
                    assert(pair_views(vars@) =~= pair_views(v@));
                }
            },
            None => {},
        }
        let ghost base: (bool, Seq<(Seq<char>, Seq<char>)>) = (have, pair_views(vars@));
        match &self.groups {
            Some(gs) => {
                let mut g: usize = 0;
                proof {
                    assert(gs@.skip(0) =~= gs@);
                    assert(pair_views(vars@) + vars_in_groups(gs@, a).1 =~= base.1
                        + vars_in_groups(gs@, a).1);
                }
                while g < gs.len()
                    invariant
                        g <= gs@.len(),
                        self.groups matches Some(gl) && gl@ == gs@,
                        (have || vars_in_groups(gs@.skip(g as int), a).0) <==> (base.0
                            || vars_in_groups(gs@, a).0),
                        pair_views(vars@) + vars_in_groups(gs@.skip(g as int), a).1 == base.1
                            + vars_in_groups(gs@, a).1,
                    decreases gs@.len() - g,
                {
                    proof {
                        assert(gs@.skip(g as int).first() == gs@[g as int]);
                        assert(gs@.skip(g as int).drop_first() =~= gs@.skip(g as int + 1));
                    }
                    match &gs[g].hosts {
                        Some(hosts) => {
                            let ghost gvars = gs@[g as int].vars;
                            let mut h: usize = 0;
                            proof {
                                assert(hosts@.skip(0) =~= hosts@);
                                assert(pair_views(vars@) + vars_in_group_hosts(hosts@, gvars, a).1
                                    + vars_in_groups(gs@.skip(g as int + 1), a).1 =~= pair_views(
                                    vars@,
                                ) + (vars_in_group_hosts(hosts@, gvars, a).1 + vars_in_groups(
                                    gs@.skip(g as int + 1),
                                    a,
                                ).1));
                            }
                            while h < hosts.len()
                                invariant
                                    h <= hosts@.len(),
                                    g < gs@.len(),
                                    self.groups matches Some(gl) && gl@ == gs@,
                                    gs@[g as int].hosts matches Some(hv) && hv@ == hosts@,
                                    gvars == gs@[g as int].vars,
                                    (have || vars_in_group_hosts(
                                        hosts@.skip(h as int),
                                        gvars,
                                        a,
                                    ).0 || vars_in_groups(gs@.skip(g as int + 1), a).0) <==> (
                                    base.0 || vars_in_groups(gs@, a).0),
                                    pair_views(vars@) + vars_in_group_hosts(
                                        hosts@.skip(h as int),
                                        gvars,
                                        a,
                                    ).1 + vars_in_groups(gs@.skip(g as int + 1), a).1 == base.1
                                        + vars_in_groups(gs@, a).1,
                                decreases hosts@.len() - h,
                            {
                                proof {
                                    assert(hosts@.skip(h as int).first() == hosts@[h as int]);
                                    assert(hosts@.skip(h as int).drop_first() =~= hosts@.skip(
                                        h as int + 1,
                                    ));
                                }
                                let ghost prev = vars@;
                                if str_eq(hosts[h].as_str(), address.as_str()) {
                                    match &gs[g].vars {
                                        Some(gv) => {
                                            let mut k: usize = 0;
                                            while k < gv.len()
                                                invariant
                                                    k <= gv@.len(),
                                                    g < gs@.len(),
                                                    self.groups matches Some(gl) && gl@ == gs@,
                                                    gs@[g as int].vars matches Some(gvv) && gvv@
                                                        == gv@,
                                                    vars@.len() == prev.len() + k,
                                                    forall|j: int|
                                                        0 <= j < prev.len() ==> (
                                                        #[trigger] vars@[j]) == prev[j],
                                                    forall|j: int|
                                                        0 <= j < k ==> ((#[trigger] vars@[prev.len()
                                                            + j].0@), vars@[prev.len() + j].1@)
                                                            == (gv@[j].0@, gv@[j].1@),
                                                decreases gv@.len() - k,
                                            {
                                                vars.push((gv[k].0.clone(), gv[k].1.clone()));
                                                k = k + 1;
                                            }
                                            have = true;
                                            proof {
                                                assert(hosts@[h as int]@ == a);
                                                assert(vars_in_group_hosts(
                                                    hosts@.skip(h as int),
                                                    gvars,
                                                    a,
                                                ).1 =~= pair_views(gv@) + vars_in_group_hosts(
                                                    hosts@.skip(h as int + 1),
                                                    gvars,
                                                    a,
                                                ).1);
                                                assert forall|j: int|
                                                    0 <= j < vars@.len() implies
                                                    #[trigger] pair_views(vars@)[j] == (
                                                pair_views(prev) + pair_views(gv@))[j] by {
                                                    assert(pair_views(vars@)[j] == (
                                                        vars@[j].0@,
                                                        vars@[j].1@,
                                                    ));
                                                    if j < prev.len() {
                                                        assert(vars@[j] == prev[j]);
                                                        assert(pair_views(prev)[j] == (
                                                            prev[j].0@,
                                                            prev[j].1@,
                                                        ));
                                                    } else {
                                                        let jj = j - prev.len();
                                                        assert((vars@[prev.len() + jj].0@, vars@[
                                                            prev.len() + jj
                                                        ].1@) == (gv@[jj].0@, gv@[jj].1@));
                                                        assert(pair_views(gv@)[jj] == (
                                                            gv@[jj].0@,
                                                            gv@[jj].1@,
                                                        ));
                                                    }
                                                }
                                                assert(pair_views(vars@) =~= pair_views(prev)
                                                    + pair_views(gv@));
                                                assert(pair_views(vars@) + vars_in_group_hosts(
                                                    hosts@.skip(h as int + 1),
                                                    gvars,
                                                    a,
                                                ).1 =~= pair_views(prev) + vars_in_group_hosts(
                                                    hosts@.skip(h as int),
                                                    gvars,
                                                    a,
                                                ).1);
                                            }
                                        },
                                        None => {
                                            proof {
                                                assert(pair_views(vars@) + vars_in_group_hosts(
                                                    hosts@.skip(h as int + 1),
                                                    gvars,
                                                    a,
                                                ).1 =~= pair_views(prev) + vars_in_group_hosts(
                                                    hosts@.skip(h as int),
                                                    gvars,
                                                    a,
                                                ).1);
                                            }
                                        },
                                    }
                                } else {
                                    proof {
                                        assert(pair_views(vars@) + vars_in_group_hosts(
                                            hosts@.skip(h as int + 1),
                                            gvars,
                                            a,
                                        ).1 =~= pair_views(prev) + vars_in_group_hosts(
                                            hosts@.skip(h as int),
                                            gvars,
                                            a,
                                        ).1);
                                    }
                                }
                                h = h + 1;
                            }
                            proof {
                                assert(hosts@.skip(h as int) =~= Seq::<String>::empty());
                                assert(pair_views(vars@) + vars_in_groups(
                                    gs@.skip(g as int + 1),
                                    a,
                                ).1 =~= pair_views(vars@) + vars_in_group_hosts(
                                    hosts@.skip(h as int),
                                    gvars,
                                    a,
                                ).1 + vars_in_groups(gs@.skip(g as int + 1), a).1);
                            }
                        },
                        None => {},
                    }
                    g = g + 1;
                }
                proof {
                    assert(gs@.skip(g as int) =~= Seq::<Group>::empty());
                    assert(pair_views(vars@) + vars_in_groups(gs@.skip(g as int), a).1
                        =~= pair_views(vars@));
                }
            },
            None => {},
        }
        let ghost mid: (bool, Seq<(Seq<char>, Seq<char>)>) = (have, pair_views(vars@));
        match &self.hosts {
            Some(hs) => {
                let mut e: usize = 0;
                proof {
                    assert(hs@.skip(0) =~= hs@);
                    assert(pair_views(vars@) + vars_in_entries(hs@, a).1 =~= mid.1
                        + vars_in_entries(hs@, a).1);
                }
                while e < hs.len()
                    invariant
                        e <= hs@.len(),
                        self.hosts matches Some(hh) && hh@ == hs@,
                        (have || vars_in_entries(hs@.skip(e as int), a).0) <==> (mid.0
                            || vars_in_entries(hs@, a).0),
                        pair_views(vars@) + vars_in_entries(hs@.skip(e as int), a).1 == mid.1
                            + vars_in_entries(hs@, a).1,
                    decreases hs@.len() - e,
                {
                    proof {
                        assert(hs@.skip(e as int).first() == hs@[e as int]);
                        assert(hs@.skip(e as int).drop_first() =~= hs@.skip(e as int + 1));
                    }
                    let ghost prev = vars@;
                    if str_eq(hs[e].address.as_str(), address.as_str()) {
                        match &hs[e].vars {
                            Some(ev) => {
                                let mut k: usize = 0;
                                while k < ev.len()
                                    invariant
                                        k <= ev@.len(),
                                        e < hs@.len(),
                                        self.hosts matches Some(hh) && hh@ == hs@,
                                        hs@[e as int].vars matches Some(evv) && evv@ == ev@,
                                        vars@.len() == prev.len() + k,
                                        forall|j: int|
                                            0 <= j < prev.len() ==> (#[trigger] vars@[j])
                                                == prev[j],
                                        forall|j: int|
                                            0 <= j < k ==> ((#[trigger] vars@[prev.len()
                                                + j].0@), vars@[prev.len() + j].1@) == (
                                            ev@[j].0@,
                                            ev@[j].1@,
                                            ),
                                    decreases ev@.len() - k,
                                {
                                    vars.push((ev[k].0.clone(), ev[k].1.clone()));
                                    k = k + 1;
                                }
                                have = true;
                                proof {
                                    assert(hs@[e as int].address@ == a);
                                    assert(vars_in_entries(hs@.skip(e as int), a).1
                                        =~= pair_views(ev@) + vars_in_entries(
                                        hs@.skip(e as int + 1),
                                        a,
                                    ).1);
                                    assert forall|j: int|
                                        0 <= j < vars@.len() implies #[trigger] pair_views(
                                        vars@,
                                    )[j] == (pair_views(prev) + pair_views(ev@))[j] by {
                                        assert(pair_views(vars@)[j] == (
                                            vars@[j].0@,
                                            vars@[j].1@,
                                        ));
                                        if j < prev.len() {
                                            assert(vars@[j] == prev[j]);
                                            assert(pair_views(prev)[j] == (
                                                prev[j].0@,
                                                prev[j].1@,
                                            ));
                                        } else {
                                            let jj = j - prev.len();
                                            assert((vars@[prev.len() + jj].0@, vars@[prev.len()
                                                + jj].1@) == (ev@[jj].0@, ev@[jj].1@));
                                            assert(pair_views(ev@)[jj] == (
                                                ev@[jj].0@,
                                                ev@[jj].1@,
                                                ));
                                        }
                                    }
                                    assert(pair_views(vars@) =~= pair_views(prev) + pair_views(
                                        ev@,
                                    ));
                                    assert(pair_views(vars@) + vars_in_entries(
                                        hs@.skip(e as int + 1),
                                        a,
                                    ).1 =~= pair_views(prev) + vars_in_entries(
                                        hs@.skip(e as int),
                                        a,
                                    ).1);
                                }
                            },
                            None => {
                                proof {
                                    assert(pair_views(vars@) + vars_in_entries(
                                        hs@.skip(e as int + 1),
                                        a,
                                    ).1 =~= pair_views(prev) + vars_in_entries(
                                        hs@.skip(e as int),
                                        a,
                                    ).1);
                                }
                            },
                        }
                    } else {
                        proof {
                            assert(pair_views(vars@) + vars_in_entries(
                                hs@.skip(e as int + 1),
                                a,
                            ).1 =~= pair_views(prev) + vars_in_entries(hs@.skip(e as int), a).1);
                        }
                    }
                    e = e + 1;
                }
                proof {
                    assert(hs@.skip(e as int) =~= Seq::<Host>::empty());
                    assert(pair_views(vars@) + vars_in_entries(hs@.skip(e as int), a).1
                        =~= pair_views(vars@));
                }
            },
            None => {},
        }
        let groups_out: Option<Vec<String>> = if names.is_empty() {
            None
        } else {
            Some(names)
        };
        let vars_out: Option<Vec<(String, String)>> = if have {
            Some(vars)
        } else {
            None
        };
        proof {
            assert(base.1 + vars_in_groups(
                match self.groups {
                    Some(gs2) => gs2@,
                    None => Seq::<Group>::empty(),
                },
                a,
            ).1 + vars_in_entries(
                match self.hosts {
                    Some(hs2) => hs2@,
                    None => Seq::<Host>::empty(),
                },
                a,
            ).1 =~= base.1 + (vars_in_groups(
                match self.groups {
                    Some(gs2) => gs2@,
                    None => Seq::<Group>::empty(),
                },
                a,
            ).1 + vars_in_entries(
                match self.hosts {
                    Some(hs2) => hs2@,
                    None => Seq::<Host>::empty(),
                },
                a,
            ).1));
        }
        Host { address: address.clone(), vars: vars_out, groups: groups_out }
    }

    /// Gathers every host the file mentions — in its groups first, then
    /// its own host entries — into one list with a single entry per
    /// address, each carrying exactly its merged groups and variables
    /// (see [`spec_merged_groups`] and [`spec_merged_vars`]).
    pub fn generate_hostlist(&self) -> (r: HostList)
        ensures
            match r.hosts {
                Some(out) => out@.len() > 0 && (forall|i: int, j: int|
                    0 <= i < j < out@.len() ==> (#[trigger] out@[i]).address@ != (
                    #[trigger] out@[j]).address@) && (forall|i: int|
                    0 <= i < out@.len() ==> spec_file_mentions(
                        self,
                        (#[trigger] out@[i]).address@,
                    )) && (match self.hosts {
                    Some(hs) => forall|h: int|
                        0 <= h < hs@.len() ==> spec_host_found(
                            out@,
                            (#[trigger] hs@[h]).address@,
                            out@.len() as int,
                        ),
                    None => true,
                }) && (match self.groups {
                    Some(gs) => forall|gi: int|
                        0 <= gi < gs@.len() ==> #[trigger] spec_group_covered(gs@, gi, out@),
                    None => true,
                }) && (forall|i: int|
                    0 <= i < out@.len() ==> (#[trigger] out@[i])@.vars == spec_merged_vars(
                        self,
                        out@[i].address@,
                    ) && out@[i]@.groups == spec_merged_groups(self, out@[i].address@)),
                None => !(exists|a: Seq<char>| spec_file_mentions(self, a)),
            },
    {
        // First pass: collect every mentioned address once, in first
        // appearance order.
        let mut collected: Vec<Host> = Vec::new();
        match &self.groups {
            Some(groups_list) => {
                let mut g: usize = 0;
                while g < groups_list.len()
                    invariant
                        g <= groups_list@.len(),
                        self.groups matches Some(gl) && gl@ == groups_list@,
                        forall|i: int, j: int|
                            0 <= i < j < collected@.len() ==> (
                            #[trigger] collected@[i]).address@ != (
                            #[trigger] collected@[j]).address@,
                        forall|i: int|
                            0 <= i < collected@.len() ==> spec_file_mentions(
                                self,
                                (#[trigger] collected@[i]).address@,
                            ),
                        forall|gi: int|
                            0 <= gi < g ==> #[trigger] spec_group_covered(
                                groups_list@,
                                gi,
                                collected@,
                            ),
                    decreases groups_list@.len() - g,
                {
                    let group = &groups_list[g];
                    match &group.hosts {
                        Some(host_list) => {
                            let mut h: usize = 0;
                            while h < host_list.len()
                                invariant
                                    h <= host_list@.len(),
                                    g < groups_list@.len(),
                                    self.groups matches Some(gl) && gl@ == groups_list@,
                                    groups_list@[g as int].hosts matches Some(hs) && hs@
                                        == host_list@,
                                    forall|i: int, j: int|
                                        0 <= i < j < collected@.len() ==> (
                                        #[trigger] collected@[i]).address@ != (
                                        #[trigger] collected@[j]).address@,
                                    forall|i: int|
                                        0 <= i < collected@.len() ==> spec_file_mentions(
                                            self,
                                            (#[trigger] collected@[i]).address@,
                                        ),
                                    forall|gi: int|
                                        0 <= gi < g ==> #[trigger] spec_group_covered(
                                            groups_list@,
                                            gi,
                                            collected@,
                                        ),
                                    forall|hh: int|
                                        0 <= hh < h ==> spec_host_found(
                                            collected@,
                                            (#[trigger] host_list@[hh])@,
                                            collected@.len() as int,
                                        ),
                                decreases host_list@.len() - h,
                            {
                                let ghost before = collected@;
                                let host_address = &host_list[h];
                                match find_host_in_list(&collected, host_address) {
                                    Some(_) => {},
                                    None => {
                                        collected.push(Host::from_string(host_address.clone()));
                                        proof {
                                            assert forall|i: int|
                                                0 <= i < before.len() implies (
                                            #[trigger] collected@[i]).address@
                                                == before[i].address@ by {}
                                            assert(collected@[before.len() as int].address@
                                                == host_list@[h as int]@);
                                        }
                                    },
                                }
                                proof {
                                    assert(0 <= h < host_list@.len() && host_list@[h as int]@
                                        == host_list@[h as int]@);
                                    assert(spec_group_mentions(
                                        groups_list@,
                                        g as int,
                                        host_list@[h as int]@,
                                    ));
                                    assert(spec_file_mentions(self, host_list@[h as int]@));
                                    assert forall|i: int|
                                        0 <= i < collected@.len() implies spec_file_mentions(
                                        self,
                                        (#[trigger] collected@[i]).address@,
                                    ) by {
                                        if i < before.len() {
                                            assert(collected@[i].address@ == before[i].address@);
                                        } else {
                                            assert(collected@[i].address@ == host_list@[
                                                h as int
                                            ]@);
                                        }
                                    }
                                    assert forall|gi: int|
                                        0 <= gi < g implies #[trigger] spec_group_covered(
                                        groups_list@,
                                        gi,
                                        collected@,
                                    ) by {
                                        assert(spec_group_covered(groups_list@, gi, before));
                                        match groups_list@[gi].hosts {
                                            Some(hs2) => {
                                                assert forall|hh: int|
                                                    0 <= hh < hs2@.len() implies spec_host_found(
                                                    collected@,
                                                    (#[trigger] hs2@[hh])@,
                                                    collected@.len() as int,
                                                ) by {
                                                    lemma_found_monotone(
                                                        before,
                                                        collected@,
                                                        hs2@[hh]@,
                                                    );
                                                }
                                            },
                                            None => {},
                                        }
                                    }
                                    assert forall|hh: int|
                                        0 <= hh < h + 1 implies spec_host_found(
                                        collected@,
                                        (#[trigger] host_list@[hh])@,
                                        collected@.len() as int,
                                    ) by {
                                        if hh < h {
                                            lemma_found_monotone(
                                                before,
                                                collected@,
                                                host_list@[hh]@,
                                            );
                                        }
                                    }
                                }
                                h = h + 1;
                            }
                        },
                        None => {},
                    }
                    proof {
                        assert forall|gi: int|
                            0 <= gi < g + 1 implies #[trigger] spec_group_covered(
                            groups_list@,
                            gi,
                            collected@,
                        ) by {
                            if gi == g {
                                match groups_list@[g as int].hosts {
                                    Some(hs2) => {},
                                    None => {},
                                }
                            }
                        }
                    }
                    g = g + 1;
                }
            },
            None => {},
        }
        match &self.hosts {
            Some(host_list) => {
                let mut h: usize = 0;
                while h < host_list.len()
                    invariant
                        h <= host_list@.len(),
                        self.hosts matches Some(hs) && hs@ == host_list@,
                        forall|i: int, j: int|
                            0 <= i < j < collected@.len() ==> (
                            #[trigger] collected@[i]).address@ != (
                            #[trigger] collected@[j]).address@,
                        forall|i: int|
                            0 <= i < collected@.len() ==> spec_file_mentions(
                                self,
                                (#[trigger] collected@[i]).address@,
                            ),
                        forall|hh: int|
                            0 <= hh < h ==> spec_host_found(
                                collected@,
                                (#[trigger] host_list@[hh]).address@,
                                collected@.len() as int,
                            ),
                        match self.groups {
                            Some(gl) => forall|gi: int|
                                0 <= gi < gl@.len() ==> #[trigger] spec_group_covered(
                                    gl@,
                                    gi,
                                    collected@,
                                ),
                            None => true,
                        },
                    decreases host_list@.len() - h,
                {
                    let ghost before = collected@;
                    let host = &host_list[h];
                    match find_host_in_list(&collected, &host.address) {
                        Some(_) => {},
                        None => {
                            collected.push(Host::from_string(host.address.clone()));
                            proof {
                                assert forall|i: int|
                                    0 <= i < before.len() implies (
                                #[trigger] collected@[i]).address@ == before[i].address@ by {}
                                assert(collected@[before.len() as int].address@
                                    == host_list@[h as int].address@);
                            }
                        },
                    }
                    proof {
                        assert(0 <= h < host_list@.len() && host_list@[h as int].address@
                            == host_list@[h as int].address@);
                        assert(spec_file_mentions(self, host_list@[h as int].address@));
                        assert forall|i: int|
                            0 <= i < collected@.len() implies spec_file_mentions(
                            self,
                            (#[trigger] collected@[i]).address@,
                        ) by {
                            if i < before.len() {
                                assert(collected@[i].address@ == before[i].address@);
                            } else {
                                assert(collected@[i].address@
                                    == host_list@[h as int].address@);
                            }
                        }
                        assert forall|hh: int|
                            0 <= hh < h + 1 implies spec_host_found(
                            collected@,
                            (#[trigger] host_list@[hh]).address@,
                            collected@.len() as int,
                        ) by {
                            if hh < h {
                                lemma_found_monotone(
                                    before,
                                    collected@,
                                    host_list@[hh].address@,
                                );
                            }
                        }
                        match &self.groups {
                            Some(gl) => {
                                assert forall|gi: int|
                                    0 <= gi < gl@.len() implies #[trigger] spec_group_covered(
                                    gl@,
                                    gi,
                                    collected@,
                                ) by {
                                    assert(spec_group_covered(gl@, gi, before));
                                    match gl@[gi].hosts {
                                        Some(hs2) => {
                                            assert forall|hh: int|
                                                0 <= hh < hs2@.len() implies spec_host_found(
                                                collected@,
                                                (#[trigger] hs2@[hh])@,
                                                collected@.len() as int,
                                            ) by {
                                                lemma_found_monotone(
                                                    before,
                                                    collected@,
                                                    hs2@[hh]@,
                                                );
                                            }
                                        },
                                        None => {},
                                    }
                                }
                            },
                            None => {},
                        }
                    }
                    h = h + 1;
                }
            },
            None => {},
        }
        if collected.is_empty() {
            proof {
                assert forall|a: Seq<char>| !spec_file_mentions(self, a) by {
                    if spec_file_mentions(self, a) {
                        match &self.hosts {
                            Some(hs) => {
                                if exists|i: int|
                                    0 <= i < hs@.len() && (#[trigger] hs@[i]).address@ == a {
                                    let i = choose|i: int|
                                        0 <= i < hs@.len() && (#[trigger] hs@[i]).address@ == a;
                                    assert(spec_host_found(collected@, hs@[i].address@, 0));
                                    assert(false);
                                }
                            },
                            None => {},
                        }
                        match &self.groups {
                            Some(gs) => {
                                if exists|g: int|
                                    0 <= g < gs@.len() && spec_group_mentions(
                                        #[trigger] gs@,
                                        g,
                                        a,
                                    ) {
                                    let g = choose|g: int|
                                        0 <= g < gs@.len() && spec_group_mentions(
                                            #[trigger] gs@,
                                            g,
                                            a,
                                        );
                                    assert(spec_group_covered(gs@, g, collected@));
                                    match gs@[g].hosts {
                                        Some(hs2) => {
                                            let hh = choose|hh: int|
                                                0 <= hh < hs2@.len() && (#[trigger] hs2@[hh])@
                                                    == a;
                                            assert(spec_host_found(
                                                collected@,
                                                hs2@[hh]@,
                                                collected@.len() as int,
                                            ));
                                            assert(false);
                                        },
                                        None => {},
                                    }
                                    assert(false);
                                }
                            },
                            None => {},
                        }
                        assert(false);
                    }
                }
            }
            return HostList { hosts: None };
        }
        // Second pass: fold each collected address's groups and
        // variables.
        let mut final_hostlist: Vec<Host> = Vec::new();
        let mut i: usize = 0;
        while i < collected.len()
            invariant
                i <= collected@.len(),
                final_hostlist@.len() == i,
                forall|j: int|
                    0 <= j < i ==> (#[trigger] final_hostlist@[j]).address@
                        == collected@[j].address@,
                forall|j: int|
                    0 <= j < i ==> (#[trigger] final_hostlist@[j])@.vars == spec_merged_vars(
                        self,
                        collected@[j].address@,
                    ) && final_hostlist@[j]@.groups == spec_merged_groups(
                        self,
                        collected@[j].address@,
                    ),
            decreases collected@.len() - i,
        {
            final_hostlist.push(self.merged_host(&collected[i].address));
            i = i + 1;
        }
        proof {
            assert forall|a: Seq<char>, n: int|
                n == collected@.len() && spec_host_found(collected@, a, n) implies spec_host_found(
                final_hostlist@,
                a,
                final_hostlist@.len() as int,
            ) by {
                lemma_found_monotone(collected@, final_hostlist@, a);
            }
            match &self.hosts {
                Some(hs) => {
                    assert forall|h: int|
                        0 <= h < hs@.len() implies spec_host_found(
                        final_hostlist@,
                        (#[trigger] hs@[h]).address@,
                        final_hostlist@.len() as int,
                    ) by {
                        lemma_found_monotone(collected@, final_hostlist@, hs@[h].address@);
                    }
                },
                None => {},
            }
            match &self.groups {
                Some(gs) => {
                    assert forall|gi: int|
                        0 <= gi < gs@.len() implies #[trigger] spec_group_covered(
                        gs@,
                        gi,
                        final_hostlist@,
                    ) by {
                        assert(spec_group_covered(gs@, gi, collected@));
                        match gs@[gi].hosts {
                            Some(hs2) => {
                                assert forall|hh: int|
                                    0 <= hh < hs2@.len() implies spec_host_found(
                                    final_hostlist@,
                                    (#[trigger] hs2@[hh])@,
                                    final_hostlist@.len() as int,
                                ) by {
                                    lemma_found_monotone(
                                        collected@,
                                        final_hostlist@,
                                        hs2@[hh]@,
                                    );
                                }
                            },
                            None => {},
                        }
                    }
                },
                None => {},
            }
        }
        HostList { hosts: Some(final_hostlist) }
    }

}

/// Spec mirror of [`Group`].
pub struct GroupV {
    pub name: Seq<char>,
    pub vars: Option<Seq<(Seq<char>, Seq<char>)>>,
    pub hosts: Option<Seq<Seq<char>>>,
}

impl View for Group {
    type V = GroupV;

    open spec fn view(&self) -> GroupV {
        GroupV {
            name: self.name@,
            vars: match self.vars {
                Some(v) => Some(pair_views(v@)),
                None => None,
            },
            hosts: match self.hosts {
                Some(h) => Some(str_views(h@)),
                None => None,
            },
        }
    }
}

/// Spec mirror of [`HostListVarsUnparsed`].
pub struct UnparsedV {
    pub vars: Option<Seq<(Seq<char>, Seq<char>)>>,
    pub hosts: Option<Seq<Seq<char>>>,
    pub groups: Option<Seq<GroupV>>,
}

impl View for HostListVarsUnparsed {
    type V = UnparsedV;

    open spec fn view(&self) -> UnparsedV {
        UnparsedV {
            vars: match self.vars {
                Some(v) => Some(pair_views(v@)),
                None => None,
            },
            hosts: match self.hosts {
                Some(h) => Some(str_views(h@)),
                None => None,
            },
            groups: match self.groups {
                Some(g) => Some(group_views(g@)),
                None => None,
            },
        }
    }
}

/// Doc-level mirror of [`names_in_group_hosts`].
pub open spec fn doc_names_in_group_hosts(hosts: Seq<Seq<char>>, name: Seq<char>, a: Seq<char>,) -> Seq<Seq<char>>
    decreases hosts.len(),
{
    if hosts.len() == 0 {
        Seq::empty()
    } else {
        (if hosts.first() == a {
            seq![name]
        } else {
            Seq::empty()
        }) + doc_names_in_group_hosts(hosts.drop_first(), name, a)
    }
}

/// Doc-level mirror of [`names_in_groups`].
pub open spec fn doc_names_in_groups(gs: Seq<GroupV>, a: Seq<char>) -> Seq<Seq<char>>
    decreases gs.len(),
{
    if gs.len() == 0 {
        Seq::empty()
    } else {
        (match gs.first().hosts {
            Some(h) => doc_names_in_group_hosts(h, gs.first().name, a),
            None => Seq::empty(),
        }) + doc_names_in_groups(gs.drop_first(), a)
    }
}

/// The merged group list of one address, read off the document.
pub open spec fn spec_doc_merged_groups(u: UnparsedV, a: Seq<char>) -> Option<Seq<Seq<char>>> {
    let names = match u.groups {
        Some(gs) => doc_names_in_groups(gs, a),
        None => Seq::empty(),
    };
    if names.len() == 0 {
        None
    } else {
        Some(names)
    }
}

/// Doc-level mirror of [`vars_in_group_hosts`].
pub open spec fn doc_vars_in_group_hosts(
    hosts: Seq<Seq<char>>,
    gvars: Option<Seq<(Seq<char>, Seq<char>)>>,
    a: Seq<char>,
) -> (bool, Seq<(Seq<char>, Seq<char>)>)
    decreases hosts.len(),
{
    if hosts.len() == 0 {
        (false, Seq::empty())
    } else {
        let head = if hosts.first() == a {
            match gvars {
                Some(v) => (true, v),
                None => (false, Seq::<(Seq<char>, Seq<char>)>::empty()),
            }
        } else {
            (false, Seq::<(Seq<char>, Seq<char>)>::empty())
        };
        let rest = doc_vars_in_group_hosts(hosts.drop_first(), gvars, a);
        (head.0 || rest.0, head.1 + rest.1)
    }
}

/// Doc-level mirror of [`vars_in_groups`].
pub open spec fn doc_vars_in_groups(gs: Seq<GroupV>, a: Seq<char>) -> (
    bool,
    Seq<(Seq<char>, Seq<char>)>,
)
    decreases gs.len(),
{
    if gs.len() == 0 {
        (false, Seq::empty())
    } else {
        let head = match gs.first().hosts {
            Some(h) => doc_vars_in_group_hosts(h, gs.first().vars, a),
            None => (false, Seq::<(Seq<char>, Seq<char>)>::empty()),
        };
        let rest = doc_vars_in_groups(gs.drop_first(), a);
        (head.0 || rest.0, head.1 + rest.1)
    }
}

/// Doc-level mirror of [`vars_in_entries`]: each host entry line is
/// read by [`spec_host_entry`] first.
pub open spec fn doc_vars_in_entries(lines: Seq<Seq<char>>, a: Seq<char>) -> (
    bool,
    Seq<(Seq<char>, Seq<char>)>,
)
    decreases lines.len(),
{
    if lines.len() == 0 {
        (false, Seq::empty())
    } else {
        let e = spec_host_entry(lines.first());
        let head = if e.address == a {
            match e.vars {
                Some(v) => (true, v),
                None => (false, Seq::<(Seq<char>, Seq<char>)>::empty()),
            }
        } else {
            (false, Seq::<(Seq<char>, Seq<char>)>::empty())
        };
        let rest = doc_vars_in_entries(lines.drop_first(), a);
        (head.0 || rest.0, head.1 + rest.1)
    }
}

/// The merged variable list of one address, read off the document.
pub open spec fn spec_doc_merged_vars(u: UnparsedV, a: Seq<char>) -> Option<
    Seq<(Seq<char>, Seq<char>)>,
> {
    let g0 = match u.vars {
        Some(v) => (true, v),
        None => (false, Seq::<(Seq<char>, Seq<char>)>::empty()),
    };
    let g1 = match u.groups {
        Some(gs) => doc_vars_in_groups(gs, a),
        None => (false, Seq::<(Seq<char>, Seq<char>)>::empty()),
    };
    let g2 = match u.hosts {
        Some(lines) => doc_vars_in_entries(lines, a),
        None => (false, Seq::<(Seq<char>, Seq<char>)>::empty()),
    };
    if g0.0 || g1.0 || g2.0 {
        Some(g0.1 + g1.1 + g2.1)
    } else {
        None
    }
}

/// The file-level and doc-level group folds agree on equal views.
pub proof fn lemma_group_fold_bridge(gs: Seq<Group>, gv: Seq<GroupV>, a: Seq<char>)
    requires
        gs.len() == gv.len(),
        forall|i: int| 0 <= i < gs.len() ==> (#[trigger] gs[i])@ == gv[i],
    ensures
        names_in_groups(gs, a) == doc_names_in_groups(gv, a),
        vars_in_groups(gs, a) == doc_vars_in_groups(gv, a),
    decreases gs.len(),
{
    if gs.len() > 0 {
        assert(gs[0]@ == gv[0]);
        match gs.first().hosts {
            Some(h) => {
                lemma_group_hosts_bridge(h@, gs.first().name@, gs.first().vars, a);
            },
            None => {},
        }
        assert forall|i: int|
            0 <= i < gs.drop_first().len() implies (#[trigger] gs.drop_first()[i])@
            == gv.drop_first()[i] by {
            assert(gs.drop_first()[i] == gs[i + 1]);
            assert(gv.drop_first()[i] == gv[i + 1]);
        }
        lemma_group_fold_bridge(gs.drop_first(), gv.drop_first(), a);
    }
}

/// The file-level and doc-level per-group folds agree on equal views.
pub proof fn lemma_group_hosts_bridge(
    hosts: Seq<String>,
    name: Seq<char>,
    gvars: Option<Vec<(String, String)>>,
    a: Seq<char>,
)
    ensures
        names_in_group_hosts(hosts, name, a) == doc_names_in_group_hosts(str_views(hosts), name, a),
        vars_in_group_hosts(hosts, gvars, a) == doc_vars_in_group_hosts(
            str_views(hosts),
            match gvars {
                Some(v) => Some(pair_views(v@)),
                None => None,
            },
            a,
        ),
    decreases hosts.len(),
{
    if hosts.len() == 0 {
        assert(str_views(hosts) =~= Seq::<Seq<char>>::empty());
    } else {
        assert(str_views(hosts).first() == hosts.first()@);
        assert(str_views(hosts).drop_first() =~= str_views(hosts.drop_first()));
        lemma_group_hosts_bridge(hosts.drop_first(), name, gvars, a);
    }
}

/// The file-level and doc-level entry folds agree when each parsed host
/// is what its line denotes.
pub proof fn lemma_entries_bridge(hs: Seq<Host>, lines: Seq<Seq<char>>, a: Seq<char>)
    requires
        hs.len() == lines.len(),
        forall|i: int| 0 <= i < hs.len() ==> (#[trigger] hs[i])@ == spec_host_entry(lines[i]),
    ensures
        vars_in_entries(hs, a) == doc_vars_in_entries(lines, a),
    decreases hs.len(),
{
    if hs.len() > 0 {
        assert(hs[0]@ == spec_host_entry(lines[0]));
        assert forall|i: int|
            0 <= i < hs.drop_first().len() implies (#[trigger] hs.drop_first()[i])@
            == spec_host_entry(lines.drop_first()[i]) by {
            assert(hs.drop_first()[i] == hs[i + 1]);
            assert(lines.drop_first()[i] == lines[i + 1]);
        }
        lemma_entries_bridge(hs.drop_first(), lines.drop_first(), a);
    }
}

/// The document mentions this address: as the address of one of its
/// inline host entry lines, or among a group's hosts.
pub open spec fn spec_doc_mentions(u: UnparsedV, addr: Seq<char>) -> bool {
    ||| match u.hosts {
        Some(lines) => exists|i: int|
            0 <= i < lines.len() && spec_host_entry(#[trigger] lines[i]).address == addr,
        None => false,
    }
    ||| match u.groups {
        Some(gs) => exists|g: int, h: int|
            0 <= g < gs.len() && (#[trigger] gs[g]).hosts is Some && 0 <= h
                < gs[g].hosts.unwrap().len() && (#[trigger] gs[g].hosts.unwrap()[h]) == addr,
        None => false,
    }
}

/// All values of an object read as text pairs; a non-string value is
/// refused.
pub open spec fn spec_str_pairs(fields: Seq<(Seq<char>, JsonV)>) -> Result<
    Seq<(Seq<char>, Seq<char>)>,
    Seq<char>,
>
    decreases fields.len(),
{
    if fields.len() == 0 {
        Ok(Seq::empty())
    } else {
        match fields.first().1 {
            JsonV::Str(v) => match spec_str_pairs(fields.drop_first()) {
                Ok(rest) => Ok(seq![(fields.first().0, v)] + rest),
                Err(m) => Err(m),
            },
            _ => Err("host variables must be strings"@),
        }
    }
}

/// All items of a sequence read as text; a non-string item is refused.
pub open spec fn spec_str_items(items: Seq<JsonV>) -> Result<Seq<Seq<char>>, Seq<char>>
    decreases items.len(),
{
    if items.len() == 0 {
        Ok(Seq::empty())
    } else {
        match items.first() {
            JsonV::Str(v) => match spec_str_items(items.drop_first()) {
                Ok(rest) => Ok(seq![v] + rest),
                Err(m) => Err(m),
            },
            _ => Err("host entries must be strings"@),
        }
    }
}

fn str_pairs_from(fields: &Vec<(String, Json)>) -> (r: Result<Vec<(String, String)>, Error>)
    ensures
        match (&r, spec_str_pairs(view_obj(fields@))) {
            (Ok(v), Ok(sv)) => pair_views(v@) == sv,
            (Err(e), Err(m)) => e matches Error::FailedInitialization(em) && em@ == m,
            _ => false,
        },
{
    proof {
        lemma_view_obj_len(fields@);
    }
    let mut out: Vec<(String, String)> = Vec::new();
    let mut i: usize = 0;
    proof {
        assert(view_obj(fields@).skip(0) =~= view_obj(fields@));
        if spec_str_pairs(view_obj(fields@)) is Ok {
            let sv = spec_str_pairs(view_obj(fields@))->Ok_0;
            assert(pair_views(out@) =~= sv.take(0));
            assert(sv =~= sv.take(0) + sv);
        }
    }
    while i < fields.len()
        invariant
            i <= fields@.len(),
            out@.len() == i,
            view_obj(fields@).len() == fields@.len(),
            forall|j: int|
                0 <= j < fields@.len() ==> #[trigger] view_obj(fields@)[j] == (
                fields@[j].0@,
                fields@[j].1@,
                ),
            spec_str_pairs(view_obj(fields@).skip(i as int)) is Ok <==> spec_str_pairs(
                view_obj(fields@),
            ) is Ok,
            spec_str_pairs(view_obj(fields@)) matches Err(m) ==> spec_str_pairs(
                view_obj(fields@).skip(i as int),
            ) matches Err(m2) && m2 == m,
            spec_str_pairs(view_obj(fields@)) matches Ok(sv) ==> pair_views(out@) == sv.take(
                i as int,
            ) && (spec_str_pairs(view_obj(fields@).skip(i as int)) matches Ok(rest) && sv
                =~= sv.take(i as int) + rest),
        decreases fields@.len() - i,
    {
        proof {
            assert(view_obj(fields@).skip(i as int).first() == view_obj(fields@)[i as int]);
            assert(view_obj(fields@).skip(i as int).drop_first() =~= view_obj(fields@).skip(
                i as int + 1,
            ));
        }
        match &fields[i].1 {
            Json::Str(v) => {
                let ghost prev = out@;
                out.push((fields[i].0.clone(), v.clone()));
                i = i + 1;
                proof {
                    if spec_str_pairs(view_obj(fields@)) is Ok {
                        let sv = spec_str_pairs(view_obj(fields@))->Ok_0;
                        assert forall|k: int|
                            0 <= k < i implies #[trigger] pair_views(out@)[k] == sv.take(
                            i as int,
                        )[k] by {
                            if k < i - 1 {
                                assert(pair_views(prev)[k] == (prev[k].0@, prev[k].1@));
                            }
                        }
                        assert(pair_views(out@) =~= sv.take(i as int));
                    }
                }
            },
            _ => {
                proof {
                    assert(spec_str_pairs(view_obj(fields@).skip(i as int)) is Err);
                }
                return Err(
                    Error::FailedInitialization("host variables must be strings".to_owned()),
                );
            },
        }
    }
    proof {
        assert(view_obj(fields@).skip(i as int) =~= Seq::<(Seq<char>, JsonV)>::empty());
        if spec_str_pairs(view_obj(fields@)) is Ok {
            let sv = spec_str_pairs(view_obj(fields@))->Ok_0;
            assert(pair_views(out@) =~= sv);
        }
    }
    Ok(out)
}

fn str_items_from(items: &Vec<Json>) -> (r: Result<Vec<String>, Error>)
    ensures
        match (&r, spec_str_items(view_arr(items@))) {
            (Ok(v), Ok(sv)) => str_views(v@) == sv,
            (Err(e), Err(m)) => e matches Error::FailedInitialization(em) && em@ == m,
            _ => false,
        },
{
    proof {
        lemma_view_arr_len(items@);
    }
    let mut out: Vec<String> = Vec::new();
    let mut i: usize = 0;
    proof {
        assert(view_arr(items@).skip(0) =~= view_arr(items@));
        if spec_str_items(view_arr(items@)) is Ok {
            let sv = spec_str_items(view_arr(items@))->Ok_0;
            assert(str_views(out@) =~= sv.take(0));
            assert(sv =~= sv.take(0) + sv);
        }
    }
    while i < items.len()
        invariant
            i <= items@.len(),
            out@.len() == i,
            view_arr(items@).len() == items@.len(),
            forall|j: int|
                0 <= j < items@.len() ==> #[trigger] view_arr(items@)[j] == items@[j]@,
            spec_str_items(view_arr(items@).skip(i as int)) is Ok <==> spec_str_items(
                view_arr(items@),
            ) is Ok,
            spec_str_items(view_arr(items@)) matches Err(m) ==> spec_str_items(
                view_arr(items@).skip(i as int),
            ) matches Err(m2) && m2 == m,
            spec_str_items(view_arr(items@)) matches Ok(sv) ==> str_views(out@) == sv.take(
                i as int,
            ) && (spec_str_items(view_arr(items@).skip(i as int)) matches Ok(rest) && sv
                =~= sv.take(i as int) + rest),
        decreases items@.len() - i,
    {
        proof {
            assert(view_arr(items@).skip(i as int).first() == view_arr(items@)[i as int]);
            assert(view_arr(items@).skip(i as int).drop_first() =~= view_arr(items@).skip(
                i as int + 1,
            ));
        }
        match &items[i] {
            Json::Str(v) => {
                let ghost prev = out@;
                out.push(v.clone());
                i = i + 1;
                proof {
                    if spec_str_items(view_arr(items@)) is Ok {
                        let sv = spec_str_items(view_arr(items@))->Ok_0;
                        assert forall|k: int|
                            0 <= k < i implies #[trigger] str_views(out@)[k] == sv.take(
                            i as int,
                        )[k] by {
                            if k < i - 1 {
                                assert(str_views(prev)[k] == prev[k]@);
                            }
                        }
                        assert(str_views(out@) =~= sv.take(i as int));
                    }
                }
            },
            _ => {
                proof {
                    assert(spec_str_items(view_arr(items@).skip(i as int)) is Err);
                }
                return Err(
                    Error::FailedInitialization("host entries must be strings".to_owned()),
                );
            },
        }
    }
    proof {
        assert(view_arr(items@).skip(i as int) =~= Seq::<JsonV>::empty());
        if spec_str_items(view_arr(items@)) is Ok {
            let sv = spec_str_items(view_arr(items@))->Ok_0;
            assert(str_views(out@) =~= sv);
        }
    }
    Ok(out)
}

/// One group object of the document: a required `name`, optional
/// `vars` (text pairs) and optional `hosts` (texts).
pub open spec fn spec_group_doc(j: JsonV) -> Result<GroupV, Seq<char>> {
    match j {
        JsonV::Obj(fields) => match spec_obj_lookup(fields, "name"@) {
            Some(JsonV::Str(name)) => {
                let vars = match spec_obj_lookup(fields, "vars"@) {
                    None => Ok(None),
                    Some(JsonV::Null) => Ok(None),
                    Some(JsonV::Obj(vf)) => match spec_str_pairs(vf) {
                        Ok(ps) => Ok(Some(ps)),
                        Err(m) => Err(m),
                    },
                    Some(_) => Err("group variables must be a mapping"@),
                };
                let hosts = match spec_obj_lookup(fields, "hosts"@) {
                    None => Ok(None),
                    Some(JsonV::Null) => Ok(None),
                    Some(JsonV::Arr(items)) => match spec_str_items(items) {
                        Ok(hs) => Ok(Some(hs)),
                        Err(m) => Err(m),
                    },
                    Some(_) => Err("group hosts must be a sequence"@),
                };
                match vars {
                    Err(m) => Err(m),
                    Ok(vars) => match hosts {
                        Err(m) => Err(m),
                        Ok(hosts) => Ok(GroupV { name, vars, hosts }),
                    },
                }
            },
            _ => Err("a group requires a name"@),
        },
        _ => Err("a group must be a mapping"@),
    }
}

fn group_doc_from(j: &Json) -> (r: Result<Group, Error>)
    ensures
        match (&r, spec_group_doc(j@)) {
            (Ok(g), Ok(gv)) => g@ == gv,
            (Err(e), Err(m)) => e matches Error::FailedInitialization(em) && em@ == m,
            _ => false,
        },
{
    match j {
        Json::Obj(_) => {},
        _ => {
            return Err(Error::FailedInitialization("a group must be a mapping".to_owned()));
        },
    }
    let name = match j.obj_get("name") {
        Some(v) => match v {
            Json::Str(name) => name.clone(),
            _ => {
                return Err(Error::FailedInitialization("a group requires a name".to_owned()));
            },
        },
        None => {
            return Err(Error::FailedInitialization("a group requires a name".to_owned()));
        },
    };
    let vars = match j.obj_get("vars") {
        None => None,
        Some(v) => match v {
            Json::Null => None,
            Json::Obj(vf) => Some(str_pairs_from(vf)?),
            _ => {
                return Err(
                    Error::FailedInitialization("group variables must be a mapping".to_owned()),
                );
            },
        },
    };
    let hosts = match j.obj_get("hosts") {
        None => None,
        Some(v) => match v {
            Json::Null => None,
            Json::Arr(items) => Some(str_items_from(items)?),
            _ => {
                return Err(
                    Error::FailedInitialization("group hosts must be a sequence".to_owned()),
                );
            },
        },
    };
    Ok(Group { name, vars, hosts })
}

/// The groups of the document, in order.
pub open spec fn spec_groups_doc(items: Seq<JsonV>) -> Result<Seq<GroupV>, Seq<char>>
    decreases items.len(),
{
    if items.len() == 0 {
        Ok(Seq::empty())
    } else {
        match spec_group_doc(items.first()) {
            Err(m) => Err(m),
            Ok(g) => match spec_groups_doc(items.drop_first()) {
                Err(m) => Err(m),
                Ok(rest) => Ok(seq![g] + rest),
            },
        }
    }
}

/// The whole host-list document: an empty document denotes nothing,
/// otherwise a mapping with optional `vars`, `hosts` and `groups`.
pub open spec fn spec_hostlist_doc(j: JsonV) -> Result<UnparsedV, Seq<char>> {
    match j {
        JsonV::Null => Ok(UnparsedV { vars: None, hosts: None, groups: None }),
        JsonV::Obj(fields) => {
            let vars = match spec_obj_lookup(fields, "vars"@) {
                None => Ok(None),
                Some(JsonV::Null) => Ok(None),
                Some(JsonV::Obj(vf)) => match spec_str_pairs(vf) {
                    Ok(ps) => Ok(Some(ps)),
                    Err(m) => Err(m),
                },
                Some(_) => Err("host variables must be a mapping"@),
            };
            let hosts = match spec_obj_lookup(fields, "hosts"@) {
                None => Ok(None),
                Some(JsonV::Null) => Ok(None),
                Some(JsonV::Arr(items)) => match spec_str_items(items) {
                    Ok(hs) => Ok(Some(hs)),
                    Err(m) => Err(m),
                },
                Some(_) => Err("hosts must be a sequence"@),
            };
            let groups = match spec_obj_lookup(fields, "groups"@) {
                None => Ok(None),
                Some(JsonV::Null) => Ok(None),
                Some(JsonV::Arr(items)) => match spec_groups_doc(items) {
                    Ok(gs) => Ok(Some(gs)),
                    Err(m) => Err(m),
                },
                Some(_) => Err("groups must be a sequence"@),
            };
            match vars {
                Err(m) => Err(m),
                Ok(vars) => match hosts {
                    Err(m) => Err(m),
                    Ok(hosts) => match groups {
                        Err(m) => Err(m),
                        Ok(groups) => Ok(UnparsedV { vars, hosts, groups }),
                    },
                },
            }
        },
        _ => Err("a host list must be a mapping"@),
    }
}

/// Reads the host-list document into its unparsed form.
#[verifier::loop_isolation(false)]
pub fn hostlist_doc_from_json(j: &Json) -> (r: Result<HostListVarsUnparsed, Error>)
    ensures
        match (&r, spec_hostlist_doc(j@)) {
            (Ok(u), Ok(uv)) => u@ == uv,
            (Err(e), Err(m)) => e matches Error::FailedInitialization(em) && em@ == m,
            _ => false,
        },
{
    match j {
        Json::Null => {
            return Ok(HostListVarsUnparsed { vars: None, hosts: None, groups: None });
        },
        Json::Obj(_) => {},
        _ => {
            return Err(Error::FailedInitialization("a host list must be a mapping".to_owned()));
        },
    }
    let vars = match j.obj_get("vars") {
        None => None,
        Some(v) => match v {
            Json::Null => None,
            Json::Obj(vf) => Some(str_pairs_from(vf)?),
            _ => {
                return Err(
                    Error::FailedInitialization("host variables must be a mapping".to_owned()),
                );
            },
        },
    };
    let hosts = match j.obj_get("hosts") {
        None => None,
        Some(v) => match v {
            Json::Null => None,
            Json::Arr(items) => Some(str_items_from(items)?),
            _ => {
                return Err(Error::FailedInitialization("hosts must be a sequence".to_owned()));
            },
        },
    };
    let groups = match j.obj_get("groups") {
        None => None,
        Some(v) => match v {
            Json::Null => None,
            Json::Arr(items) => {
                let ghost items_v = view_arr(items@);
                proof {
                    lemma_view_arr_len(items@);
                    assert(items_v.skip(0) =~= items_v);
                }
                let mut out: Vec<Group> = Vec::new();
                let mut i: usize = 0;
                proof {
                    if spec_groups_doc(items_v) is Ok {
                        let sv = spec_groups_doc(items_v)->Ok_0;
                        assert(group_views(out@) =~= sv.take(0));
                        assert(sv =~= sv.take(0) + sv);
                    }
                }
                while i < items.len()
                    invariant
                        i <= items@.len(),
                        out@.len() == i,
                        spec_groups_doc(items_v.skip(i as int)) is Ok <==> spec_groups_doc(
                            items_v,
                        ) is Ok,
                        spec_groups_doc(items_v) matches Err(m) ==> spec_groups_doc(
                            items_v.skip(i as int),
                        ) matches Err(m2) && m2 == m,
                        spec_groups_doc(items_v) matches Ok(sv) ==> out@.map_values(
                            |x: Group| x@,
                        ) == sv.take(i as int) && (spec_groups_doc(items_v.skip(i as int)) matches
                            Ok(rest) && sv =~= sv.take(i as int) + rest),
                    decreases items@.len() - i,
                {
                    proof {
                        assert(items_v.skip(i as int).first() == items_v[i as int]);
                        assert(items_v.skip(i as int).drop_first() =~= items_v.skip(
                            i as int + 1,
                        ));
                    }
                    match group_doc_from(&items[i]) {
                        Ok(g) => {
                            let ghost prev = out@;
                            out.push(g);
                            i = i + 1;
                            proof {
                                if spec_groups_doc(items_v) is Ok {
                                    let sv = spec_groups_doc(items_v)->Ok_0;
                                    assert forall|k: int|
                                        0 <= k < i implies #[trigger] group_views(out@)[k]
                                        == sv.take(i as int)[k] by {
                                        if k < i - 1 {
                                            assert(group_views(prev)[k] == prev[k]@);
                                        }
                                    }
                                    assert(group_views(out@) =~= sv.take(i as int));
                                }
                            }
                        },
                        Err(e) => {
                            proof {
                                assert(spec_groups_doc(items_v.skip(i as int)) is Err);
                            }
                            return Err(e);
                        },
                    }
                }
                proof {
                    assert(items_v.skip(i as int) =~= Seq::<JsonV>::empty());
                    if spec_groups_doc(items_v) is Ok {
                        let sv = spec_groups_doc(items_v)->Ok_0;
                        assert(group_views(out@) =~= sv);
                    }
                }
                Some(out)
            },
            _ => {
                return Err(Error::FailedInitialization("groups must be a sequence".to_owned()));
            },
        },
    };
    Ok(HostListVarsUnparsed { vars, hosts, groups })
}

/// Reads a whole host-list text: the YAML document, its schema, the
/// inline host variables, and the group merge. An `Ok` host list names
/// exactly the addresses the document mentions, each once.
pub fn hostlist_parser(hostlistfilecontent: &str) -> (r: Result<HostList, Error>)
    ensures
        crate::json::yaml_doc_of(hostlistfilecontent@) is None ==> (r matches Err(e) && e
            is FailedInitialization),
        crate::json::yaml_doc_of(hostlistfilecontent@) matches Some(doc) ==> match
            spec_hostlist_doc(doc) {
            Err(m) => r matches Err(e) && e matches Error::FailedInitialization(em) && em@ == m,
            Ok(u) => r matches Ok(hl) && match hl.hosts {
                Some(out) => out@.len() > 0 && (forall|i: int, j: int|
                    0 <= i < j < out@.len() ==> (#[trigger] out@[i]).address@ != (
                    #[trigger] out@[j]).address@) && (forall|i: int|
                    0 <= i < out@.len() ==> spec_doc_mentions(
                        u,
                        (#[trigger] out@[i]).address@,
                    )) && (match u.hosts {
                    Some(lines) => forall|h: int|
                        0 <= h < lines.len() ==> spec_host_found(
                            out@,
                            spec_host_entry(#[trigger] lines[h]).address,
                            out@.len() as int,
                        ),
                    None => true,
                }) && (match u.groups {
                    Some(gs) => forall|g: int, h: int|
                        0 <= g < gs.len() && (#[trigger] gs[g]).hosts is Some && 0 <= h
                            < gs[g].hosts.unwrap().len() ==> spec_host_found(
                            out@,
                            #[trigger] gs[g].hosts.unwrap()[h],
                            out@.len() as int,
                        ),
                    None => true,
                }) && (forall|i: int|
                    0 <= i < out@.len() ==> (#[trigger] out@[i])@.vars == spec_doc_merged_vars(
                        u,
                        out@[i].address@,
                    ) && out@[i]@.groups == spec_doc_merged_groups(u, out@[i].address@)),
                None => !(exists|a: Seq<char>| spec_doc_mentions(u, a)),
            },
        },
{
    let doc = match crate::json::parse_yaml(hostlistfilecontent) {
        Ok(doc) => doc,
        Err(m) => {
            return Err(Error::FailedInitialization(m));
        },
    };
    let unparsed = hostlist_doc_from_json(&doc)?;
    let file = unparsed.parse_host_vars();
    let r = file.generate_hostlist();
    proof {
        let u = unparsed@;
        match &r.hosts {
            Some(out) => {
                assert forall|i: int|
                    0 <= i < out@.len() implies spec_doc_mentions(
                    u,
                    (#[trigger] out@[i]).address@,
                ) by {
                    let a = out@[i].address@;
                    assert(spec_file_mentions(&file, a));
                    match (&file.hosts, &unparsed.hosts) {
                        (Some(hs), Some(lines)) => {
                            if exists|k: int|
                                0 <= k < hs@.len() && (#[trigger] hs@[k]).address@ == a {
                                let k = choose|k: int|
                                    0 <= k < hs@.len() && (#[trigger] hs@[k]).address@ == a;
                                assert(hs@[k]@ == spec_host_entry(lines@[k]@));
                                assert(str_views(lines@)[k] == lines@[k]@);
                                assert(spec_host_entry(u.hosts.unwrap()[k]).address == a);
                            }
                        },
                        _ => {},
                    }
                    match (&file.groups, &unparsed.groups) {
                        (Some(fgs), Some(ugs)) => {
                            if exists|g: int|
                                0 <= g < fgs@.len() && spec_group_mentions(
                                    #[trigger] fgs@,
                                    g,
                                    a,
                                ) {
                                let g = choose|g: int|
                                    0 <= g < fgs@.len() && spec_group_mentions(
                                        #[trigger] fgs@,
                                        g,
                                        a,
                                    );
                                assert(group_hosts_v(fgs@[g]) == group_hosts_v(ugs@[g]));
                                match fgs@[g].hosts {
                                    Some(fhs) => {
                                        let h = choose|h: int|
                                            0 <= h < fhs@.len() && (#[trigger] fhs@[h])@ == a;
                                        assert(str_views(fhs@)[h] == fhs@[h]@);
                                        assert(u.groups.unwrap()[g] == ugs@[g]@);
                                        assert(u.groups.unwrap()[g].hosts.unwrap()[h] == a);
                                    },
                                    None => {},
                                }
                            }
                        },
                        _ => {},
                    }
                }
                match (&file.hosts, &unparsed.hosts) {
                    (Some(hs), Some(lines)) => {
                        assert forall|h: int|
                            0 <= h < str_views(lines@).len() implies spec_host_found(
                            out@,
                            spec_host_entry(#[trigger] str_views(lines@)[h]).address,
                            out@.len() as int,
                        ) by {
                            assert(spec_host_found(out@, hs@[h].address@, out@.len() as int));
                            assert(hs@[h]@ == spec_host_entry(lines@[h]@));
                            assert(str_views(lines@)[h] == lines@[h]@);
                        }
                    },
                    _ => {},
                }
                assert forall|i: int|
                    0 <= i < out@.len() implies (#[trigger] out@[i])@.vars
                    == spec_doc_merged_vars(u, out@[i].address@) && out@[i]@.groups
                    == spec_doc_merged_groups(u, out@[i].address@) by {
                    let a2 = out@[i].address@;
                    match (&file.groups, &unparsed.groups) {
                        (Some(fgs), Some(ugs)) => {
                            assert forall|k: int|
                                0 <= k < fgs@.len() implies (#[trigger] fgs@[k])@ == group_views(
                                ugs@,
                            )[k] by {
                                assert(group_views(ugs@)[k] == ugs@[k]@);
                            }
                            lemma_group_fold_bridge(fgs@, group_views(ugs@), a2);
                        },
                        (None, None) => {},
                        _ => {
                            assert(false);
                        },
                    }
                    match (&file.hosts, &unparsed.hosts) {
                        (Some(hs), Some(lines)) => {
                            assert forall|k: int|
                                0 <= k < hs@.len() implies (#[trigger] hs@[k])@
                                == spec_host_entry(str_views(lines@)[k]) by {
                                assert(str_views(lines@)[k] == lines@[k]@);
                            }
                            lemma_entries_bridge(hs@, str_views(lines@), a2);
                        },
                        (None, None) => {},
                        _ => {
                            assert(false);
                        },
                    }
                }
                match (&file.groups, &unparsed.groups) {
                    (Some(fgs), Some(ugs)) => {
                        assert forall|g: int, h: int|
                            0 <= g < group_views(ugs@).len() && (#[trigger] group_views(ugs@)[g])
                                .hosts is Some && 0 <= h < group_views(
                                ugs@,
                            )[g].hosts.unwrap().len() implies spec_host_found(
                            out@,
                            #[trigger] group_views(ugs@)[g].hosts.unwrap()[h],
                            out@.len() as int,
                        ) by {
                            assert(group_views(ugs@)[g] == ugs@[g]@);
                            assert(group_hosts_v(fgs@[g]) == group_hosts_v(ugs@[g]));
                            assert(spec_group_covered(fgs@, g, out@));
                            match fgs@[g].hosts {
                                Some(fhs) => {
                                    assert(spec_host_found(
                                        out@,
                                        (#[trigger] fhs@[h])@,
                                        out@.len() as int,
                                    ));
                                    assert(str_views(fhs@)[h] == fhs@[h]@);
                                },
                                None => {},
                            }
                        }
                    },
                    _ => {},
                }
            },
            None => {
                assert forall|a: Seq<char>| !spec_doc_mentions(u, a) by {
                    if spec_doc_mentions(u, a) {
                        match (&file.hosts, &unparsed.hosts) {
                            (Some(hs), Some(lines)) => {
                                if exists|i: int|
                                    0 <= i < str_views(lines@).len() && spec_host_entry(
                                        #[trigger] str_views(lines@)[i],
                                    ).address == a {
                                    let i = choose|i: int|
                                        0 <= i < str_views(lines@).len() && spec_host_entry(
                                            #[trigger] str_views(lines@)[i],
                                        ).address == a;
                                    assert(str_views(lines@)[i] == lines@[i]@);
                                    assert(hs@[i]@ == spec_host_entry(lines@[i]@));
                                    assert(spec_file_mentions(&file, a));
                                    assert(false);
                                }
                            },
                            _ => {},
                        }
                        match (&file.groups, &unparsed.groups) {
                            (Some(fgs), Some(ugs)) => {
                                if exists|g: int, h: int|
                                    0 <= g < group_views(ugs@).len() && (#[trigger] group_views(
                                        ugs@,
                                    )[g]).hosts is Some && 0 <= h < group_views(
                                        ugs@,
                                    )[g].hosts.unwrap().len() && (#[trigger] group_views(
                                        ugs@,
                                    )[g].hosts.unwrap()[h]) == a {
                                    let (g, h) = choose|g: int, h: int|
                                        0 <= g < group_views(ugs@).len() && (
                                        #[trigger] group_views(ugs@)[g]).hosts is Some && 0 <= h
                                            < group_views(ugs@)[g].hosts.unwrap().len() && (
                                        #[trigger] group_views(ugs@)[g].hosts.unwrap()[h]) == a;
                                    assert(group_views(ugs@)[g] == ugs@[g]@);
                                    assert(group_hosts_v(fgs@[g]) == group_hosts_v(ugs@[g]));
                                    match fgs@[g].hosts {
                                        Some(fhs) => {
                                            assert(str_views(fhs@)[h] == fhs@[h]@);
                                            assert(spec_group_mentions(fgs@, g, a));
                                            assert(spec_file_mentions(&file, a));
                                            assert(false);
                                        },
                                        None => {},
                                    }
                                    assert(false);
                                }
                            },
                            _ => {},
                        }
                        assert(false);
                    }
                }
            },
        }
    }
    Ok(r)
}

impl HostList {
    /// Reads a host list from text, exactly as [`hostlist_parser`]
    /// does: the same errors, and an `Ok` host list naming exactly the
    /// addresses the document mentions, each once.
    pub fn from_str(raw_content: &str) -> (r: Result<HostList, Error>)
        ensures
            crate::json::yaml_doc_of(raw_content@) is None ==> (r matches Err(e) && e
                is FailedInitialization),
            crate::json::yaml_doc_of(raw_content@) matches Some(doc) ==> match
                spec_hostlist_doc(doc) {
                Err(m) => r matches Err(e) && e matches Error::FailedInitialization(em) && em@
                    == m,
                Ok(u) => r matches Ok(hl) && match hl.hosts {
                    Some(out) => out@.len() > 0 && (forall|i: int, j: int|
                        0 <= i < j < out@.len() ==> (#[trigger] out@[i]).address@ != (
                        #[trigger] out@[j]).address@) && (forall|i: int|
                        0 <= i < out@.len() ==> spec_doc_mentions(
                            u,
                            (#[trigger] out@[i]).address@,
                        )) && (forall|i: int|
                        0 <= i < out@.len() ==> (#[trigger] out@[i])@.vars
                            == spec_doc_merged_vars(u, out@[i].address@) && out@[i]@.groups
                            == spec_doc_merged_groups(u, out@[i].address@)),
                    None => !(exists|a: Seq<char>| spec_doc_mentions(u, a)),
                },
            },
    {
        hostlist_parser(raw_content)
    }
}

} // verus!
