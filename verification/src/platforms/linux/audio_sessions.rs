//! Which output device, and which device volume, each application plays on:
//! a cache built from the PulseAudio sinks, clients and playback streams, and
//! the ways an application is found in it.
use vstd::prelude::*;
use crate::input_codes::{spec_parse_u32, parse_u32};
use crate::models::media::{opt_view, names_of};
use crate::text::{lowercase, has_infix, to_chars, contains, str_eq};
use std::collections::HashMap;

verus! {

/// The device, and its volume, that a stream plays on.
#[derive(Clone, Debug)]
pub struct AppStreamInfo {
    pub device: String,
    /// The bit pattern of the device's linear volume.
    pub volume: u64,
}

impl AppStreamInfo {
    pub fn duplicate(&self) -> (r: AppStreamInfo)
        ensures
            r == *self,
    {
        AppStreamInfo { device: self.device.clone(), volume: self.volume }
    }
}

/// One sink of the sink listing.
#[derive(Clone, Debug)]
pub struct SinkEntry {
    pub index: u32,
    pub name: Option<String>,
    /// The bit pattern of the sink's average linear volume.
    pub volume: u64,
}

/// One client of the client listing, with its properties.
#[derive(Clone, Debug)]
pub struct ClientEntry {
    pub index: u32,
    /// `application.process.id`
    pub pid: Option<String>,
    /// `application.process.binary`
    pub binary: Option<String>,
    /// `application.name`
    pub name: Option<String>,
    /// `pipewire.access.portal.app_id`
    pub app_id: Option<String>,
}

/// One playback stream of the sink-input listing, with its properties.
#[derive(Clone, Debug)]
pub struct SinkInputEntry {
    pub sink: u32,
    pub client: Option<u32>,
    pub pid: Option<String>,
    pub binary: Option<String>,
    pub name: Option<String>,
    pub app_id: Option<String>,
}

/// The device a sink index stands for: the last named sink listed under it.
pub open spec fn sink_for(sinks: Seq<SinkEntry>, index: u32) -> Option<AppStreamInfo>
    decreases sinks.len(),
{
    if sinks.len() == 0 {
        None
    } else if sinks.last().index == index && sinks.last().name is Some {
        Some(AppStreamInfo { device: sinks.last().name.unwrap(), volume: sinks.last().volume })
    } else {
        sink_for(sinks.drop_last(), index)
    }
}

/// The client listed last under an index.
pub open spec fn client_for(clients: Seq<ClientEntry>, index: u32) -> Option<ClientEntry>
    decreases clients.len(),
{
    if clients.len() == 0 {
        None
    } else if clients.last().index == index {
        Some(clients.last())
    } else {
        client_for(clients.drop_last(), index)
    }
}

/// The process of a stream: its own process id when it has one (if that parses),
/// else its client's.
pub open spec fn stream_pid(input: SinkInputEntry, clients: Seq<ClientEntry>) -> Option<u32> {
    match input.pid {
        Some(p) => spec_parse_u32(p@),
        None => match input.client {
            Some(c) => match client_for(clients, c) {
                Some(cd) => match cd.pid {
                    Some(p) => spec_parse_u32(p@),
                    None => None,
                },
                None => None,
            },
            None => None,
        },
    }
}

pub open spec fn lowered(o: Option<String>) -> Seq<Seq<char>> {
    match o {
        Some(s) => seq![lowercase(s@)],
        None => Seq::empty(),
    }
}

/// The names a stream is known by, in lowercase: its application name, binary and
/// portal app id, then those of its client.
pub open spec fn stream_names(input: SinkInputEntry, clients: Seq<ClientEntry>) -> Seq<Seq<char>> {
    let own = lowered(input.name) + lowered(input.binary) + lowered(input.app_id);
    match input.client {
        Some(c) => match client_for(clients, c) {
            Some(cd) => own + lowered(cd.name) + lowered(cd.binary) + lowered(cd.app_id),
            None => own,
        },
        None => own,
    }
}

/// The index of a name in a list of entries.
pub open spec fn name_index(m: Seq<(Seq<char>, AppStreamInfo)>, k: Seq<char>) -> Option<int>
    decreases m.len(),
{
    if m.len() == 0 {
        None
    } else if m.last().0 == k {
        Some(m.len() - 1)
    } else {
        name_index(m.drop_last(), k)
    }
}

/// A map as a list of entries: the entry of a key is replaced in place, or
/// added at the end when the key is new.
pub open spec fn name_put(m: Seq<(Seq<char>, AppStreamInfo)>, k: Seq<char>, v: AppStreamInfo) -> Seq<(Seq<char>, AppStreamInfo)> {
    match name_index(m, k) {
        Some(j) => m.update(j, (k, v)),
        None => m.push((k, v)),
    }
}

pub open spec fn name_put_all(m: Seq<(Seq<char>, AppStreamInfo)>, names: Seq<Seq<char>>, v: AppStreamInfo) -> Seq<(Seq<char>, AppStreamInfo)>
    decreases names.len(),
{
    if names.len() == 0 {
        m
    } else {
        name_put(name_put_all(m, names.drop_last(), v), names.last(), v)
    }
}

/// The process map of the cache after the streams: each stream on a known sink
/// files its device under its process.
pub open spec fn build_by_pid(inputs: Seq<SinkInputEntry>, sinks: Seq<SinkEntry>, clients: Seq<ClientEntry>) -> Map<u32, AppStreamInfo>
    decreases inputs.len(),
{
    if inputs.len() == 0 {
        Map::empty()
    } else {
        let m = build_by_pid(inputs.drop_last(), sinks, clients);
        let input = inputs.last();
        match sink_for(sinks, input.sink) {
            Some(info) => match stream_pid(input, clients) {
                Some(p) => m.insert(p, info),
                None => m,
            },
            None => m,
        }
    }
}

/// The name map of the cache after the streams: each stream on a known sink
/// files its device under each of its names.
pub open spec fn build_by_name(inputs: Seq<SinkInputEntry>, sinks: Seq<SinkEntry>, clients: Seq<ClientEntry>) -> Seq<(Seq<char>, AppStreamInfo)>
    decreases inputs.len(),
{
    if inputs.len() == 0 {
        Seq::empty()
    } else {
        let m = build_by_name(inputs.drop_last(), sinks, clients);
        let input = inputs.last();
        match sink_for(sinks, input.sink) {
            Some(info) => name_put_all(m, stream_names(input, clients), info),
            None => m,
        }
    }
}

/// The cache of which device each process and each application name plays on.
pub struct AudioStreamCache {
    by_pid: HashMap<u32, AppStreamInfo>,
    by_name: Vec<(String, AppStreamInfo)>,
}

pub open spec fn name_entries_view(v: Seq<(String, AppStreamInfo)>) -> Seq<(Seq<char>, AppStreamInfo)> {
    v.map_values(|e: (String, AppStreamInfo)| (e.0@, e.1))
}

fn find_sink(sinks: &Vec<SinkEntry>, index: u32) -> (r: Option<AppStreamInfo>)
    ensures
        r == sink_for(sinks@, index),
{
    let mut i = sinks.len();
    proof {
        assert(sinks@.take(i as int) =~= sinks@);
    }
    while i > 0
        invariant
            i <= sinks.len(),
            sink_for(sinks@, index) == sink_for(sinks@.take(i as int), index),
        decreases i,
    {
        proof {
            assert(sinks@.take(i as int).drop_last() =~= sinks@.take(i - 1));
        }
        let s = &sinks[i - 1];
        if s.index == index {
            if let Some(name) = &s.name {
                return Some(AppStreamInfo { device: name.clone(), volume: s.volume });
            }
        }
        i -= 1;
    }
    None
}

fn find_client(clients: &Vec<ClientEntry>, index: u32) -> (r: Option<usize>)
    ensures
        match r {
            Some(k) => k < clients.len() && client_for(clients@, index) == Some(clients@[k as int]),
            None => client_for(clients@, index) is None,
        },
{
    let mut i = clients.len();
    proof {
        assert(clients@.take(i as int) =~= clients@);
    }
    while i > 0
        invariant
            i <= clients.len(),
            client_for(clients@, index) == client_for(clients@.take(i as int), index),
        decreases i,
    {
        proof {
            assert(clients@.take(i as int).drop_last() =~= clients@.take(i - 1));
        }
        if clients[i - 1].index == index {
            return Some(i - 1);
        }
        i -= 1;
    }
    None
}

fn push_lowered(names: &mut Vec<String>, o: &Option<String>)
    ensures
        names_of(final(names)@) == names_of(old(names)@) + lowered(*o),
{
    let ghost before = names_of(names@);
    if let Some(s) = o {
        names.push(s.as_str().to_lowercase());
        proof {
            assert(names_of(names@) =~= before + lowered(*o));
        }
    } else {
        proof {
            assert(names_of(names@) =~= before + lowered(*o));
        }
    }
}

fn collect_stream_names(input: &SinkInputEntry, clients: &Vec<ClientEntry>) -> (r: Vec<String>)
    ensures
        names_of(r@) == stream_names(*input, clients@),
{
    let mut names: Vec<String> = Vec::new();
    proof {
        assert(names_of(names@) =~= Seq::<Seq<char>>::empty());
    }
    push_lowered(&mut names, &input.name);
    push_lowered(&mut names, &input.binary);
    push_lowered(&mut names, &input.app_id);
    proof {
        assert(names_of(names@) =~= lowered(input.name) + lowered(input.binary) + lowered(input.app_id));
    }
    if let Some(c) = input.client {
        if let Some(k) = find_client(clients, c) {
            let cd = &clients[k];
            push_lowered(&mut names, &cd.name);
            push_lowered(&mut names, &cd.binary);
            push_lowered(&mut names, &cd.app_id);
        }
    }
    names
}

fn resolve_pid(input: &SinkInputEntry, clients: &Vec<ClientEntry>) -> (r: Option<u32>)
    ensures
        r == stream_pid(*input, clients@),
{
    match &input.pid {
        Some(p) => parse_u32(p.as_str()),
        None => match input.client {
            Some(c) => match find_client(clients, c) {
                Some(k) => match &clients[k].pid {
                    Some(p) => parse_u32(p.as_str()),
                    None => None,
                },
                None => None,
            },
            None => None,
        },
    }
}

impl AudioStreamCache {
    pub closed spec fn pid_view(self) -> Map<u32, AppStreamInfo> {
        self.by_pid@
    }

    pub closed spec fn name_view(self) -> Seq<(Seq<char>, AppStreamInfo)> {
        name_entries_view(self.by_name@)
    }

    pub fn new() -> (r: AudioStreamCache)
        ensures
            r.pid_view() == Map::<u32, AppStreamInfo>::empty(),
            r.name_view() == Seq::<(Seq<char>, AppStreamInfo)>::empty(),
    {
        let r = AudioStreamCache { by_pid: HashMap::new(), by_name: Vec::new() };
        proof {
            assert(r.name_view() =~= Seq::<(Seq<char>, AppStreamInfo)>::empty());
        }
        r
    }

    fn put_pid(&mut self, k: u32, v: AppStreamInfo)
        ensures
            final(self).pid_view() == old(self).pid_view().insert(k, v),
            final(self).name_view() == old(self).name_view(),
    {
        broadcast use vstd::std_specs::hash::group_hash_axioms;
        self.by_pid.insert(k, v);
    }

    fn put_name(&mut self, k: String, v: AppStreamInfo)
        ensures
            final(self).name_view() == name_put(old(self).name_view(), k@, v),
            final(self).pid_view() == old(self).pid_view(),
    {
        let ghost m = self.name_view();
        let mut i = self.by_name.len();
        proof {
            assert(m.take(i as int) =~= m);
        }
        while i > 0
            invariant
                i <= self.by_name.len(),
                self.by_pid@ == old(self).by_pid@,
                self.by_name@ == old(self).by_name@,
                m == old(self).name_view(),
                m == name_entries_view(self.by_name@),
                name_index(m, k@) == name_index(m.take(i as int), k@),
            decreases i,
        {
            proof {
                assert(m.take(i as int).drop_last() =~= m.take(i - 1));
            }
            if self.by_name[i - 1].0 == k {
                proof {
                    lemma_name_index_of_take(m, i as int, k@);
                }
                let ghost kv = k@;
                self.by_name.set(i - 1, (k, v));
                proof {
                    assert(self.name_view() =~= m.update(i - 1, (kv, v)));
                }
                return;
            }
            i -= 1;
        }
        let ghost kv = k@;
        self.by_name.push((k, v));
        proof {
            assert(self.name_view() =~= m.push((kv, v)));
        }
    }

    /// Rebuilds the cache from the sink, client and stream listings (see
    /// `build_by_pid` and `build_by_name`).
    pub fn update(&mut self, sinks: &Vec<SinkEntry>, clients: &Vec<ClientEntry>, inputs: &Vec<SinkInputEntry>)
        ensures
            final(self).pid_view() == build_by_pid(inputs@, sinks@, clients@),
            final(self).name_view() == build_by_name(inputs@, sinks@, clients@),
    {
        let mut fresh = AudioStreamCache::new();
        let mut i: usize = 0;
        while i < inputs.len()
            invariant
                i <= inputs.len(),
                fresh.pid_view() == build_by_pid(inputs@.take(i as int), sinks@, clients@),
                fresh.name_view() == build_by_name(inputs@.take(i as int), sinks@, clients@),
            decreases inputs.len() - i,
        {
            proof {
                assert(inputs@.take(i + 1).drop_last() =~= inputs@.take(i as int));
            }
            let input = &inputs[i];
            if let Some(info) = find_sink(sinks, input.sink) {
                if let Some(p) = resolve_pid(input, clients) {
                    fresh.put_pid(p, info.duplicate());
                }
                let names = collect_stream_names(input, clients);
                let ghost start = fresh.name_view();
                let mut j: usize = 0;
                while j < names.len()
                    invariant
                        j <= names.len(),
                        fresh.pid_view() == build_by_pid(inputs@.take(i + 1), sinks@, clients@),
                        fresh.name_view() == name_put_all(start, names_of(names@).take(j as int), info),
                    decreases names.len() - j,
                {
                    proof {
                        assert(names_of(names@).take(j + 1).drop_last() =~= names_of(names@).take(j as int));
                    }
                    fresh.put_name(names[j].clone(), info.duplicate());
                    j += 1;
                }
                proof {
                    assert(names_of(names@).take(names@.len() as int) =~= names_of(names@));
                }
            }
            i += 1;
        }
        proof {
            assert(inputs@.take(inputs.len() as int) =~= inputs@);
        }
        *self = fresh;
    }
}


proof fn lemma_name_index_of_take(m: Seq<(Seq<char>, AppStreamInfo)>, i: int, k: Seq<char>)
    requires
        0 < i <= m.len(),
        m[i - 1].0 == k,
        name_index(m, k) == name_index(m.take(i), k),
    ensures
        name_index(m, k) == Some(i - 1),
{
    assert(m.take(i).last() == m[i - 1]);
}

} // verus!

verus! {

/// The part of `s` before the first `sep` (all of `s` when it has none), as
/// `s.split(sep).next()` gives it.
pub open spec fn first_segment(s: Seq<char>, sep: char) -> Seq<char>
    decreases s.len(),
{
    if s.len() == 0 {
        s
    } else if s[0] == sep {
        Seq::empty()
    } else {
        seq![s[0]] + first_segment(s.drop_first(), sep)
    }
}

fn prefix_before(cs: &Vec<char>, sep: char) -> (r: Vec<char>)
    ensures
        r@ == first_segment(cs@, sep),
{
    let mut out: Vec<char> = Vec::new();
    let mut i: usize = 0;
    proof {
        assert(cs@.skip(0) =~= cs@);
        assert(Seq::<char>::empty() + first_segment(cs@, sep) =~= first_segment(cs@, sep));
    }
    while i < cs.len() && cs[i] != sep
        invariant
            i <= cs.len(),
            out@ + first_segment(cs@.skip(i as int), sep) == first_segment(cs@, sep),
        decreases cs.len() - i,
    {
        proof {
            let rest = cs@.skip(i as int);
            assert(rest[0] == cs@[i as int]);
            assert(rest.drop_first() =~= cs@.skip(i + 1));
            assert(out@.push(cs@[i as int]) + first_segment(cs@.skip(i + 1), sep) =~= out@ + (seq![rest[0]]
                + first_segment(rest.drop_first(), sep)));
        }
        out.push(cs[i]);
        i += 1;
    }
    proof {
        let rest = cs@.skip(i as int);
        assert(first_segment(rest, sep) =~= Seq::<char>::empty());
        assert(out@ + Seq::<char>::empty() =~= out@);
    }
    out
}

/// The first argument of a process, from its `/proc/<pid>/cmdline`.
pub fn first_cmdline_arg(cmdline: &str) -> (r: String)
    ensures
        r@ == first_segment(cmdline@, '\0'),
{
    let cs = to_chars(cmdline);
    let p = prefix_before(&cs, '\0');
    crate::text::from_chars(p.as_slice())
}

/// Two names are related when one contains the other.
pub open spec fn related_names(a: Seq<char>, b: Seq<char>) -> bool {
    has_infix(a, b) || has_infix(b, a)
}

/// The first entry of the name map whose name is related to `key`.
pub open spec fn first_related(m: Seq<(Seq<char>, AppStreamInfo)>, key: Seq<char>) -> Option<AppStreamInfo>
    decreases m.len(),
{
    if m.len() == 0 {
        None
    } else if related_names(m[0].0, key) {
        Some(m[0].1)
    } else {
        first_related(m.drop_first(), key)
    }
}

/// The value filed under a process.
pub open spec fn pid_lookup(m: Map<u32, AppStreamInfo>, pid: u32) -> Option<AppStreamInfo> {
    if m.contains_key(pid) { Some(m[pid]) } else { None }
}

/// The base name of an application: its lowercase name up to the first dot.
pub open spec fn base_app(app_name: Seq<char>) -> Seq<char> {
    first_segment(lowercase(app_name), '.')
}

/// The first of some names with a related entry, and that entry.
pub open spec fn first_related_any(m: Seq<(Seq<char>, AppStreamInfo)>, names: Seq<Seq<char>>) -> Option<AppStreamInfo>
    decreases names.len(),
{
    if names.len() == 0 {
        None
    } else if first_related(m, names[0]) is Some {
        first_related(m, names[0])
    } else {
        first_related_any(m, names.drop_first())
    }
}

pub open spec fn as_pair(o: Option<AppStreamInfo>) -> Option<(Seq<char>, u64)> {
    match o {
        Some(i) => Some((i.device@, i.volume)),
        None => None,
    }
}

pub open spec fn opt_pair(o: Option<(String, u64)>) -> Option<(Seq<char>, u64)> {
    match o {
        Some(p) => Some((p.0@, p.1)),
        None => None,
    }
}

impl AudioStreamCache {
    fn related_entry(&self, key: &Vec<char>) -> (r: Option<(String, u64)>)
        ensures
            opt_pair(r) == as_pair(first_related(self.name_view(), key@)),
    {
        let ghost m = self.name_view();
        let mut i: usize = 0;
        proof {
            assert(m.skip(0) =~= m);
        }
        while i < self.by_name.len()
            invariant
                i <= self.by_name.len(),
                m == self.name_view(),
                m.len() == self.by_name.len(),
                first_related(m, key@) == first_related(m.skip(i as int), key@),
            decreases self.by_name.len() - i,
        {
            let name = to_chars(self.by_name[i].0.as_str());
            proof {
                assert(m.skip(i as int)[0] == m[i as int]);
                assert(m.skip(i as int).drop_first() =~= m.skip(i + 1));
            }
            if contains(name.as_slice(), key.as_slice()) || contains(key.as_slice(), name.as_slice()) {
                let info = &self.by_name[i].1;
                return Some((info.device.clone(), info.volume));
            }
            i += 1;
        }
        None
    }

    /// The device an application plays on, by the cache alone: the one filed
    /// under its process, else the first one filed under a name related to the
    /// application's base name.
    pub fn get_sink_info(&self, target_pid: u32, app_name: &str) -> (r: Option<(String, u64)>)
        ensures
            opt_pair(r) == as_pair(if target_pid > 0 && pid_lookup(self.pid_view(), target_pid) is Some {
                pid_lookup(self.pid_view(), target_pid)
            } else {
                first_related(self.name_view(), base_app(app_name@))
            }),
    {
        if target_pid > 0 {
            broadcast use vstd::std_specs::hash::group_hash_axioms;
            if let Some(info) = self.by_pid.get(&target_pid) {
                return Some((info.device.clone(), info.volume));
            }
        }
        let lowered_name = app_name.to_lowercase();
        let cs = to_chars(lowered_name.as_str());
        let base = prefix_before(&cs, '.');
        self.related_entry(&base)
    }

    /// The device of the first of the process's other names that has a related
    /// entry in the cache.
    pub fn get_sink_info_by_aliases(&self, aliases: &Vec<String>) -> (r: Option<(String, u64)>)
        ensures
            opt_pair(r) == as_pair(first_related_any(self.name_view(), names_of(aliases@))),
    {
        let ghost names = names_of(aliases@);
        let mut i: usize = 0;
        proof {
            assert(names.skip(0) =~= names);
        }
        while i < aliases.len()
            invariant
                i <= aliases.len(),
                names == names_of(aliases@),
                first_related_any(self.name_view(), names) == first_related_any(self.name_view(), names.skip(i as int)),
            decreases aliases.len() - i,
        {
            proof {
                assert(names.skip(i as int)[0] == aliases@[i as int]@);
                assert(names.skip(i as int).drop_first() =~= names.skip(i + 1));
            }
            let key = to_chars(aliases[i].as_str());
            let found = self.related_entry(&key);
            if found.is_some() {
                return found;
            }
            i += 1;
        }
        None
    }
}

} // verus!

verus! {

/// The first index of `c` in `s`.
pub open spec fn first_index_of(s: Seq<char>, c: char) -> Option<int>
    decreases s.len(),
{
    if s.len() == 0 {
        None
    } else if s[0] == c {
        Some(0)
    } else {
        match first_index_of(s.drop_first(), c) {
            Some(i) => Some(i + 1),
            None => None,
        }
    }
}

/// The last index of `c` in `s`.
pub open spec fn last_index_of(s: Seq<char>, c: char) -> Option<int>
    decreases s.len(),
{
    if s.len() == 0 {
        None
    } else if s.last() == c {
        Some(s.len() - 1)
    } else {
        last_index_of(s.drop_last(), c)
    }
}

pub open spec fn strip_suffix_once(s: Seq<char>, suffix: Seq<char>) -> Seq<char> {
    if crate::text::has_suffix(s, suffix) { s.take(s.len() - suffix.len()) } else { s }
}

/// `s` without every leading repetition of `p`, as `trim_start_matches` gives it.
pub open spec fn trim_start_all(s: Seq<char>, p: Seq<char>) -> Seq<char>
    decreases s.len(),
{
    if p.len() > 0 && crate::text::has_prefix(s, p) {
        trim_start_all(s.skip(p.len() as int), p)
    } else {
        s
    }
}

pub proof fn lemma_first_index_in_range(s: Seq<char>, c: char)
    ensures
        first_index_of(s, c) matches Some(i) ==> 0 <= i < s.len() && s[i] == c,
    decreases s.len(),
{
    if s.len() > 0 && s[0] != c {
        lemma_first_index_in_range(s.drop_first(), c);
    }
}

/// The end of the first line of `s`: its first newline, or its end.
pub open spec fn line_end(s: Seq<char>) -> int {
    match first_index_of(s, '\n') {
        Some(i) => i,
        None => s.len() as int,
    }
}

/// The first line of `s` as `str::lines` yields it: without its newline and,
/// when it has one, without a carriage return before it.
pub open spec fn first_line(s: Seq<char>) -> Seq<char> {
    if line_end(s) < s.len() {
        strip_suffix_once(s.take(line_end(s)), seq!['\r'])
    } else {
        s
    }
}

/// The first line of `s` (as `str::lines` splits it) that begins with `p`.
pub open spec fn first_line_with_prefix(s: Seq<char>, p: Seq<char>) -> Option<Seq<char>>
    decreases s.len(),
{
    if s.len() == 0 {
        None
    } else if crate::text::has_prefix(first_line(s), p) {
        Some(first_line(s))
    } else if line_end(s) < s.len() {
        proof {
            lemma_first_index_in_range(s, '\n');
        }
        first_line_with_prefix(s.skip(line_end(s) + 1), p)
    } else {
        None
    }
}

/// The process name in `/proc/<pid>/stat`: between its first `(` and its last
/// `)`, in lowercase, without a `-bin` suffix; none when empty.
pub open spec fn comm_alias(stat: Seq<char>) -> Option<Seq<char>> {
    match (first_index_of(stat, '('), last_index_of(stat, ')')) {
        (Some(a), Some(b)) => {
            let comm = strip_suffix_once(lowercase(stat.subrange(a + 1, b)), "-bin"@);
            if comm.len() > 0 { Some(comm) } else { None }
        },
        _ => None,
    }
}

/// The name of the executable, in lowercase, without a `-bin` suffix; none when empty.
pub open spec fn exe_alias(exe_name: Seq<char>) -> Option<Seq<char>> {
    let n = strip_suffix_once(lowercase(exe_name), "-bin"@);
    if n.len() > 0 { Some(n) } else { None }
}

/// The Flatpak application id in `.flatpak-info`: the first `name=` line, in
/// lowercase and without the key; none when empty.
pub open spec fn flatpak_alias(info: Seq<char>) -> Option<Seq<char>> {
    match first_line_with_prefix(info, "name="@) {
        Some(line) => {
            let id = lowercase(trim_start_all(line, "name="@));
            if id.len() > 0 { Some(id) } else { None }
        },
        None => None,
    }
}

pub open spec fn add_new(names: Seq<Seq<char>>, n: Option<Seq<char>>) -> Seq<Seq<char>> {
    match n {
        Some(x) => if names.contains(x) { names } else { names.push(x) },
        None => names,
    }
}

/// The names under which a process may have filed its streams.
pub open spec fn spec_proc_aliases(stat: Option<Seq<char>>, exe_name: Option<Seq<char>>, flatpak: Option<Seq<char>>) -> Seq<Seq<char>> {
    let a = match stat {
        Some(s) => match comm_alias(s) {
            Some(c) => seq![c],
            None => Seq::empty(),
        },
        None => Seq::empty(),
    };
    let b = add_new(a, match exe_name { Some(e) => exe_alias(e), None => None });
    add_new(b, match flatpak { Some(f) => flatpak_alias(f), None => None })
}

/// A name added to a list without repetitions of non-empty names keeps it so.
proof fn lemma_add_new_distinct(names: Seq<Seq<char>>, n: Option<Seq<char>>)
    requires
        names.no_duplicates(),
        forall|i: int| 0 <= i < names.len() ==> #[trigger] names[i].len() > 0,
        n matches Some(x) ==> x.len() > 0,
    ensures
        add_new(names, n).no_duplicates(),
        forall|i: int| 0 <= i < add_new(names, n).len() ==> #[trigger] add_new(names, n)[i].len() > 0,
        add_new(names, n).len() <= names.len() + 1,
{
    if let Some(x) = n {
        if !names.contains(x) {
            let r = names.push(x);
            assert forall|a: int, b: int| 0 <= a < b < r.len() implies r[a] != r[b] by {
                if b == names.len() {
                    assert(names.contains(names[a]));
                }
            }
        }
    }
}

/// The other names of a process are at most three, none empty and none twice:
/// the command name, then the executable's name, then the Flatpak id, each
/// left out when empty or already there.
pub proof fn lemma_proc_aliases_distinct(stat: Option<Seq<char>>, exe_name: Option<Seq<char>>, flatpak: Option<Seq<char>>)
    ensures
        spec_proc_aliases(stat, exe_name, flatpak).no_duplicates(),
        forall|i: int| 0 <= i < spec_proc_aliases(stat, exe_name, flatpak).len() ==> #[trigger] spec_proc_aliases(stat, exe_name, flatpak)[i].len() > 0,
        spec_proc_aliases(stat, exe_name, flatpak).len() <= 3,
{
    let a = match stat {
        Some(s) => match comm_alias(s) {
            Some(c) => seq![c],
            None => Seq::empty(),
        },
        None => Seq::<Seq<char>>::empty(),
    };
    let e = match exe_name { Some(x) => exe_alias(x), None => None };
    let f = match flatpak { Some(x) => flatpak_alias(x), None => None };
    lemma_add_new_distinct(a, e);
    lemma_add_new_distinct(add_new(a, e), f);
}

/// A `/proc/<pid>/stat` whose last `)` does not come before its first `(`.
pub open spec fn stat_well_formed(stat: Seq<char>) -> bool {
    match (first_index_of(stat, '('), last_index_of(stat, ')')) {
        (Some(a), Some(b)) => a < b,
        _ => true,
    }
}

fn find_first(cs: &Vec<char>, from: usize, c: char) -> (r: Option<usize>)
    requires
        from <= cs.len(),
    ensures
        match r {
            Some(i) => from <= i < cs.len() && first_index_of(cs@.skip(from as int), c) == Some(i - from),
            None => first_index_of(cs@.skip(from as int), c) is None,
        },
{
    let mut i = from;
    proof {
        assert(cs@.skip(from as int).skip(0) =~= cs@.skip(from as int));
    }
    while i < cs.len()
        invariant
            from <= i <= cs.len(),
            first_index_of(cs@.skip(from as int), c) == (match first_index_of(cs@.skip(i as int), c) {
                Some(k) => Some(k + (i - from)),
                None => None,
            }),
        decreases cs.len() - i,
    {
        proof {
            assert(cs@.skip(i as int)[0] == cs@[i as int]);
            assert(cs@.skip(i as int).drop_first() =~= cs@.skip(i + 1));
        }
        if cs[i] == c {
            return Some(i);
        }
        i += 1;
    }
    None
}

fn find_last(cs: &Vec<char>, c: char) -> (r: Option<usize>)
    ensures
        match r {
            Some(i) => i < cs.len() && last_index_of(cs@, c) == Some(i as int),
            None => last_index_of(cs@, c) is None,
        },
{
    let mut i = cs.len();
    proof {
        assert(cs@.take(i as int) =~= cs@);
    }
    while i > 0
        invariant
            i <= cs.len(),
            last_index_of(cs@, c) == last_index_of(cs@.take(i as int), c),
        decreases i,
    {
        proof {
            assert(cs@.take(i as int).drop_last() =~= cs@.take(i - 1));
        }
        if cs[i - 1] == c {
            return Some(i - 1);
        }
        i -= 1;
    }
    None
}

fn strip_bin(s: String) -> (r: String)
    ensures
        r@ == strip_suffix_once(s@, "-bin"@),
{
    let cs = to_chars(s.as_str());
    let suffix = to_chars("-bin");
    if crate::text::ends_with(cs.as_slice(), suffix.as_slice()) {
        crate::text::substring(cs.as_slice(), 0, cs.len() - suffix.len())
    } else {
        s
    }
}

fn push_if_new(names: &mut Vec<String>, n: Option<String>)
    ensures
        names_of(final(names)@) == add_new(names_of(old(names)@), opt_view(n)),
{
    if let Some(x) = n {
        if !crate::models::media::contains_name(names, x.as_str()) {
            let ghost before = names@;
            names.push(x);
            proof {
                assert(names_of(names@) =~= names_of(before).push(names@.last()@));
            }
        }
    }
}

fn first_name_line(info: &str) -> (r: Option<Vec<char>>)
    ensures
        match r {
            Some(l) => first_line_with_prefix(info@, "name="@) == Some(l@),
            None => first_line_with_prefix(info@, "name="@) is None,
        },
{
    let cs = to_chars(info);
    let key = to_chars("name=");
    let mut pos: usize = 0;
    proof {
        assert(cs@.skip(0) =~= cs@);
    }
    while pos < cs.len()
        invariant
            pos <= cs.len(),
            cs@ == info@,
            key@ == "name="@,
            first_line_with_prefix(info@, "name="@) == first_line_with_prefix(cs@.skip(pos as int), "name="@),
        decreases cs.len() - pos,
    {
        let ghost rest = cs@.skip(pos as int);
        let end = match find_first(&cs, pos, '\n') {
            Some(e) => e,
            None => cs.len(),
        };
        proof {
            assert(line_end(rest) == end - pos);
        }
        let mut stop = end;
        if end < cs.len() && end > pos && cs[end - 1] == '\r' {
            stop = end - 1;
        }
        let line = crate::thumbnails::vec_range(&cs, pos, stop);
        proof {
            if end < cs.len() {
                assert(rest.take(end - pos) =~= cs@.subrange(pos as int, end as int));
                if end > pos && cs@[end - 1] == '\r' {
                    assert(rest.take(end - pos).subrange(end - pos - 1, end - pos) =~= seq!['\r']);
                    assert(crate::text::has_suffix(rest.take(end - pos), seq!['\r']));
                    assert(rest.take(end - pos).take(end - pos - 1) =~= line@);
                } else {
                    if crate::text::has_suffix(rest.take(end - pos), seq!['\r']) {
                        assert(rest.take(end - pos).subrange(end - pos - 1, end - pos)[0] == '\r');
                        assert(rest.take(end - pos)[end - pos - 1] == '\r');
                    }
                    assert(line@ =~= rest.take(end - pos));
                }
            } else {
                assert(line@ =~= rest);
            }
            assert(line@ == first_line(rest));
        }
        if crate::text::starts_with(line.as_slice(), key.as_slice()) {
            return Some(line);
        }
        if end == cs.len() {
            return None;
        }
        proof {
            assert(rest.skip(end - pos + 1) =~= cs@.skip(end + 1));
        }
        pos = end + 1;
    }
    None
}

fn trim_name_key(line: &Vec<char>) -> (r: Vec<char>)
    ensures
        r@ == trim_start_all(line@, "name="@),
{
    let key = to_chars("name=");
    let mut pos: usize = 0;
    proof {
        reveal_strlit("name=");
        assert(line@.skip(0) =~= line@);
    }
    while pos <= line.len() && crate::text::chars_match_at(line.as_slice(), pos, key.as_slice())
        invariant
            pos <= line.len(),
            key@ == "name="@,
            key.len() == 5,
            trim_start_all(line@, "name="@) == trim_start_all(line@.skip(pos as int), "name="@),
        decreases line.len() - pos,
    {
        proof {
            let rest = line@.skip(pos as int);
            assert(rest.subrange(0, 5) =~= line@.subrange(pos as int, pos + 5));
            assert(rest.skip(5) =~= line@.skip(pos + 5));
        }
        pos += key.len();
    }
    proof {
        let rest = line@.skip(pos as int);
        if rest.len() >= 5 {
            assert(rest.subrange(0, 5) =~= line@.subrange(pos as int, pos + 5));
        }
    }
    crate::thumbnails::vec_range(line, pos, line.len())
}

/// Whether a `/proc/<pid>/stat` can be read for its process name (see
/// `stat_well_formed`).
pub fn stat_well_formed_text(stat: &str) -> (r: bool)
    ensures
        r == stat_well_formed(stat@),
{
    let cs = to_chars(stat);
    proof {
        assert(cs@.skip(0) =~= cs@);
    }
    match (find_first(&cs, 0, '('), find_last(&cs, ')')) {
        (Some(a), Some(b)) => a < b,
        _ => true,
    }
}

/// The names under which a process may have filed its streams, from its
/// `/proc/<pid>/stat`, the file name of its first argument and its
/// `/.flatpak-info`, each when it could be read.
pub fn proc_aliases(stat: &Option<String>, exe_name: &Option<String>, flatpak_info: &Option<String>) -> (r: Vec<String>)
    requires
        stat is Some ==> stat_well_formed(stat.unwrap()@),
    ensures
        names_of(r@) == spec_proc_aliases(opt_view(*stat), opt_view(*exe_name), opt_view(*flatpak_info)),
{
    let mut names: Vec<String> = Vec::new();
    if let Some(s) = stat {
        let cs = to_chars(s.as_str());
        match (find_first(&cs, 0, '('), find_last(&cs, ')')) {
            (Some(a), Some(b)) => {
                proof {
                    assert(cs@.skip(0) =~= cs@);
                }
                let inner = crate::text::substring(cs.as_slice(), a + 1, b);
                let lowered = inner.as_str().to_lowercase();
                let comm = strip_bin(lowered);
                if !comm.as_str().is_empty() {
                    names.push(comm);
                }
            },
            _ => {
                proof {
                    assert(cs@.skip(0) =~= cs@);
                }
            },
        }
    }
    proof {
        let a = match opt_view(*stat) {
            Some(s) => match comm_alias(s) {
                Some(c) => seq![c],
                None => Seq::<Seq<char>>::empty(),
            },
            None => Seq::<Seq<char>>::empty(),
        };
        assert(names_of(names@) =~= a);
    }
    let exe = match exe_name {
        Some(e) => {
            let n = strip_bin(e.as_str().to_lowercase());
            if n.as_str().is_empty() { None } else { Some(n) }
        },
        None => None,
    };
    push_if_new(&mut names, exe);
    let flatpak = match flatpak_info {
        Some(f) => match first_name_line(f.as_str()) {
            Some(line) => {
                let id_chars = trim_name_key(&line);
                let id_text = crate::text::from_chars(id_chars.as_slice());
                let id = id_text.as_str().to_lowercase();
                if id.as_str().is_empty() { None } else { Some(id) }
            },
            None => None,
        },
        None => None,
    };
    push_if_new(&mut names, flatpak);
    names
}

} // verus!

verus! {

/// What a lookup by the cache gives: a device, the knowledge that there is
/// none, or the need of the process's other names, which only the system can
/// tell.
pub enum SinkLookup {
    Found(String, u64),
    NotFound,
    NeedAliases,
}

impl SinkLookup {
    /// `None` when the process's other names are needed, else the answer.
    pub open spec fn view(self) -> Option<Option<(Seq<char>, u64)>> {
        match self {
            SinkLookup::Found(d, v) => Some(Some((d@, v))),
            SinkLookup::NotFound => Some(None),
            SinkLookup::NeedAliases => None,
        }
    }
}

/// The names remembered for a process.
pub open spec fn alias_lookup(m: Map<u32, Seq<Seq<char>>>, pid: u32) -> Option<Seq<Seq<char>>> {
    if m.contains_key(pid) { Some(m[pid]) } else { None }
}

/// The remembered names after filing `names` under `pid`.
pub open spec fn alias_put(m: Map<u32, Seq<Seq<char>>>, pid: u32, names: Seq<Seq<char>>) -> Map<u32, Seq<Seq<char>>> {
    m.insert(pid, names)
}

/// The answer of a lookup by the process's cached streams, by the
/// application's base name, and then by the names remembered for the process.
pub open spec fn spec_lookup(
    pids: Map<u32, AppStreamInfo>,
    names: Seq<(Seq<char>, AppStreamInfo)>,
    aliases: Map<u32, Seq<Seq<char>>>,
    pid: u32,
    app_name: Seq<char>,
) -> Option<Option<(Seq<char>, u64)>> {
    let direct = as_pair(if pid > 0 && pid_lookup(pids, pid) is Some {
        pid_lookup(pids, pid)
    } else {
        first_related(names, base_app(app_name))
    });
    if direct is Some {
        Some(direct)
    } else if pid == 0 {
        Some(None)
    } else {
        match alias_lookup(aliases, pid) {
            Some(a) => Some(as_pair(first_related_any(names, a))),
            None => None,
        }
    }
}

fn clone_names(v: &Vec<String>) -> (r: Vec<String>)
    ensures
        names_of(r@) == names_of(v@),
{
    let mut out: Vec<String> = Vec::new();
    let mut i: usize = 0;
    while i < v.len()
        invariant
            i <= v.len(),
            out.len() == i,
            forall|k: int| 0 <= k < i ==> out@[k]@ == v@[k]@,
        decreases v.len() - i,
    {
        out.push(v[i].clone());
        i += 1;
    }
    proof {
        assert(names_of(out@) =~= names_of(v@));
    }
    out
}

/// The stream cache of the system, and the other names of the processes
/// looked up so far.
pub struct AudioSessionManager {
    cache: AudioStreamCache,
    alias_cache: HashMap<u32, Vec<String>>,
}

impl AudioSessionManager {
    pub closed spec fn pid_view(self) -> Map<u32, AppStreamInfo> {
        self.cache.pid_view()
    }

    pub closed spec fn name_view(self) -> Seq<(Seq<char>, AppStreamInfo)> {
        self.cache.name_view()
    }

    pub closed spec fn alias_view(self) -> Map<u32, Seq<Seq<char>>> {
        self.alias_cache@.map_values(|v: Vec<String>| names_of(v@))
    }

    pub fn new() -> (r: AudioSessionManager)
        ensures
            r.pid_view() == Map::<u32, AppStreamInfo>::empty(),
            r.name_view() == Seq::<(Seq<char>, AppStreamInfo)>::empty(),
            r.alias_view() == Map::<u32, Seq<Seq<char>>>::empty(),
    {
        let r = AudioSessionManager { cache: AudioStreamCache::new(), alias_cache: HashMap::new() };
        proof {
            assert(r.alias_view() =~= Map::<u32, Seq<Seq<char>>>::empty());
        }
        r
    }

    /// Rebuilds the stream cache from fresh listings; the remembered names stay.
    pub fn update_cache(&mut self, sinks: &Vec<SinkEntry>, clients: &Vec<ClientEntry>, inputs: &Vec<SinkInputEntry>)
        ensures
            final(self).pid_view() == build_by_pid(inputs@, sinks@, clients@),
            final(self).name_view() == build_by_name(inputs@, sinks@, clients@),
            final(self).alias_view() == old(self).alias_view(),
    {
        self.cache.update(sinks, clients, inputs);
    }

    /// The names remembered for a process, if any.
    pub fn cached_aliases(&self, target_pid: u32) -> (r: Option<Vec<String>>)
        ensures
            match r {
                Some(v) => alias_lookup(self.alias_view(), target_pid) == Some(names_of(v@)),
                None => alias_lookup(self.alias_view(), target_pid) is None,
            },
    {
        broadcast use vstd::std_specs::hash::group_hash_axioms;
        match self.alias_cache.get(&target_pid) {
            Some(v) => Some(clone_names(v)),
            None => None,
        }
    }

    /// Looks an application up by the cache and the remembered names (see
    /// `spec_lookup`); `NeedAliases` when only the process's other names can
    /// still tell.
    pub fn get_sink_info(&self, target_pid: u32, app_name: &str) -> (r: SinkLookup)
        ensures
            r.view() == spec_lookup(self.pid_view(), self.name_view(), self.alias_view(), target_pid, app_name@),
    {
        let direct = self.cache.get_sink_info(target_pid, app_name);
        if let Some((d, v)) = direct {
            return SinkLookup::Found(d, v);
        }
        if target_pid == 0 {
            return SinkLookup::NotFound;
        }
        match self.cached_aliases(target_pid) {
            Some(aliases) => match self.cache.get_sink_info_by_aliases(&aliases) {
                Some((d, v)) => SinkLookup::Found(d, v),
                None => SinkLookup::NotFound,
            },
            None => SinkLookup::NeedAliases,
        }
    }

    /// Remembers the other names of a process, read from the system, and looks
    /// its device up by them.
    pub fn finish_lookup(&mut self, target_pid: u32, aliases: Vec<String>) -> (r: Option<(String, u64)>)
        ensures
            final(self).pid_view() == old(self).pid_view(),
            final(self).name_view() == old(self).name_view(),
            final(self).alias_view() == alias_put(old(self).alias_view(), target_pid, names_of(aliases@)),
            opt_pair(r) == as_pair(first_related_any(old(self).name_view(), names_of(aliases@))),
    {
        let r = self.cache.get_sink_info_by_aliases(&aliases);
        broadcast use vstd::std_specs::hash::group_hash_axioms;
        let ghost before = self.alias_view();
        let ghost names = names_of(aliases@);
        self.alias_cache.insert(target_pid, aliases);
        proof {
            assert(self.alias_view() =~= before.insert(target_pid, names));
        }
        r
    }
}

/// Once the other names of a process are remembered, a lookup of that process
/// never asks for them again, and answers what the lookup by those names gave.
pub proof fn lemma_aliases_read_once(
    pids: Map<u32, AppStreamInfo>,
    names: Seq<(Seq<char>, AppStreamInfo)>,
    aliases: Map<u32, Seq<Seq<char>>>,
    pid: u32,
    app_name: Seq<char>,
    read: Seq<Seq<char>>,
)
    requires
        spec_lookup(pids, names, aliases, pid, app_name) is None,
    ensures
        spec_lookup(pids, names, alias_put(aliases, pid, read), pid, app_name) == Some(
            as_pair(first_related_any(names, read)),
        ),
{
    let m = alias_put(aliases, pid, read);
    assert(alias_lookup(m, pid) == Some(read));
}

/// The names of a process are read at most once, and only for a process
/// that has an id: a lookup for process 0 never asks for them; once the names
/// read from the system are remembered, they are the ones found again for that
/// process, at most three, none empty and none twice, and a later lookup
/// answers by them without asking again.
pub proof fn lemma_proc_aliases_read_once(
    pids: Map<u32, AppStreamInfo>,
    names: Seq<(Seq<char>, AppStreamInfo)>,
    aliases: Map<u32, Seq<Seq<char>>>,
    pid: u32,
    app_name: Seq<char>,
    stat: Option<Seq<char>>,
    exe_name: Option<Seq<char>>,
    flatpak: Option<Seq<char>>,
)
    ensures
        spec_lookup(pids, names, aliases, 0, app_name) is Some,
        ({
            let read = spec_proc_aliases(stat, exe_name, flatpak);
            let remembered = alias_put(aliases, pid, read);
            &&& alias_lookup(remembered, pid) == Some(read)
            &&& read.no_duplicates()
            &&& read.len() <= 3
            &&& forall|i: int| 0 <= i < read.len() ==> #[trigger] read[i].len() > 0
            &&& spec_lookup(pids, names, remembered, pid, app_name) is Some
            &&& (spec_lookup(pids, names, aliases, pid, app_name) is None ==> spec_lookup(pids, names, remembered, pid, app_name) == Some(
                as_pair(first_related_any(names, read)),
            ))
        }),
{
    let read = spec_proc_aliases(stat, exe_name, flatpak);
    let remembered = alias_put(aliases, pid, read);
    lemma_proc_aliases_distinct(stat, exe_name, flatpak);
    assert(alias_lookup(remembered, pid) == Some(read));
    if spec_lookup(pids, names, aliases, pid, app_name) is None {
        lemma_aliases_read_once(pids, names, aliases, pid, app_name, read);
    }
}

} // verus!
