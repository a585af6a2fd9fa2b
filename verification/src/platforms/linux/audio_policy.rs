//! Which PulseAudio streams belong to this application, where they are to be
//! moved when the user picks an output, and which output they play on.
use vstd::prelude::*;
use crate::error::NativeError;
use crate::models::media::{AudioSource, opt_view};
use crate::text::{lowercase, has_infix, str_eq, str_contains};

verus! {

/// Whether a process binary or application name is this application's: in
/// development the Electron binary, otherwise anything whose lowercase form
/// contains `streamq`.
pub open spec fn spec_is_streamq_app_name(value: Seq<char>, is_dev: bool) -> bool {
    if is_dev {
        lowercase(value) == "electron"@
    } else {
        has_infix(lowercase(value), "streamq"@)
    }
}

pub fn is_streamq_app_name(value: &str, is_dev: bool) -> (r: bool)
    ensures
        r == spec_is_streamq_app_name(value@, is_dev),
{
    let app = value.to_lowercase();
    if is_dev {
        str_eq(app.as_str(), "electron")
    } else {
        str_contains(app.as_str(), "streamq")
    }
}

pub open spec fn opt_str(s: Option<&str>) -> Option<Seq<char>> {
    match s {
        Some(t) => Some(t@),
        None => None,
    }
}

/// A stream is this application's when its process id is ours, or its binary or
/// application name names this application.
pub open spec fn spec_is_streamq_app_by_props(
    current_pid: Seq<char>,
    pid_prop: Option<Seq<char>>,
    binary_prop: Option<Seq<char>>,
    app_name_prop: Option<Seq<char>>,
    is_dev: bool,
) -> bool {
    (pid_prop == Some(current_pid)) || (binary_prop is Some && spec_is_streamq_app_name(binary_prop.unwrap(), is_dev))
        || (app_name_prop is Some && spec_is_streamq_app_name(app_name_prop.unwrap(), is_dev))
}

pub fn is_streamq_app_by_props(
    current_pid: &str,
    pid_prop: Option<&str>,
    binary_prop: Option<&str>,
    app_name_prop: Option<&str>,
    is_dev: bool,
) -> (r: bool)
    ensures
        r == spec_is_streamq_app_by_props(current_pid@, opt_str(pid_prop), opt_str(binary_prop), opt_str(app_name_prop), is_dev),
{
    if let Some(v) = pid_prop {
        if str_eq(v, current_pid) {
            return true;
        }
    }
    if let Some(v) = binary_prop {
        if is_streamq_app_name(v, is_dev) {
            return true;
        }
    }
    if let Some(v) = app_name_prop {
        if is_streamq_app_name(v, is_dev) {
            return true;
        }
    }
    false
}

/// What the sink-input listing says of one playback stream.
#[derive(Clone, Debug)]
pub struct SinkInputInfo {
    /// The index of the stream.
    pub index: u32,
    /// The index of the sink it plays on.
    pub sink: u32,
    /// `application.process.id`
    pub pid: Option<String>,
    /// `application.process.binary`
    pub binary: Option<String>,
    /// `application.name`
    pub app_name: Option<String>,
}

pub open spec fn input_is_ours(input: SinkInputInfo, current_pid: Seq<char>, is_dev: bool) -> bool {
    spec_is_streamq_app_by_props(current_pid, opt_view(input.pid), opt_view(input.binary), opt_view(input.app_name), is_dev)
}

fn opt_as_str(o: &Option<String>) -> (r: Option<&str>)
    ensures
        opt_str(r) == opt_view(*o),
{
    match o {
        Some(s) => Some(s.as_str()),
        None => None,
    }
}

fn input_matches(input: &SinkInputInfo, current_pid: &str, is_dev: bool) -> (r: bool)
    ensures
        r == input_is_ours(*input, current_pid@, is_dev),
{
    is_streamq_app_by_props(
        current_pid,
        opt_as_str(&input.pid),
        opt_as_str(&input.binary),
        opt_as_str(&input.app_name),
        is_dev,
    )
}

/// The indexes of this application's streams, in listing order.
pub open spec fn our_inputs(inputs: Seq<SinkInputInfo>, current_pid: Seq<char>, is_dev: bool) -> Seq<u32>
    decreases inputs.len(),
{
    if inputs.len() == 0 {
        Seq::empty()
    } else {
        let rest = our_inputs(inputs.drop_last(), current_pid, is_dev);
        if input_is_ours(inputs.last(), current_pid, is_dev) {
            rest.push(inputs.last().index)
        } else {
            rest
        }
    }
}

/// Some sink of the listing has the name `name`.
pub open spec fn has_sink_named(sink_names: Seq<Option<String>>, name: Seq<char>) -> bool {
    exists|i: int| 0 <= i < sink_names.len() && opt_view(#[trigger] sink_names[i]) == Some(name)
}

/// The streams to move to the sink named `source`: an error when no sink has
/// that name, or when this application has no stream; otherwise the indexes of
/// all of its streams, in listing order.
pub fn set_app_source(
    source: &str,
    sink_names: &Vec<Option<String>>,
    inputs: &Vec<SinkInputInfo>,
    current_pid: &str,
    is_dev: bool,
) -> (r: Result<Vec<u32>, NativeError>)
    ensures
        !has_sink_named(sink_names@, source@) ==> (r matches Err(NativeError::AudioSourceNotFound(s)) && s@ == source@),
        has_sink_named(sink_names@, source@) && our_inputs(inputs@, current_pid@, is_dev).len() == 0
            ==> r matches Err(NativeError::AppAudioStreamNotFound),
        has_sink_named(sink_names@, source@) && our_inputs(inputs@, current_pid@, is_dev).len() > 0
            ==> (r matches Ok(v) && v@ == our_inputs(inputs@, current_pid@, is_dev)),
{
    let mut exists = false;
    let mut i: usize = 0;
    while i < sink_names.len()
        invariant
            i <= sink_names.len(),
            exists == exists|k: int| 0 <= k < i && opt_view(#[trigger] sink_names@[k]) == Some(source@),
        decreases sink_names.len() - i,
    {
        if let Some(name) = &sink_names[i] {
            if str_eq(name.as_str(), source) {
                exists = true;
            }
        }
        i += 1;
    }
    if !exists {
        return Err(NativeError::AudioSourceNotFound(source.to_owned()));
    }
    let mut indexes: Vec<u32> = Vec::new();
    let mut j: usize = 0;
    while j < inputs.len()
        invariant
            j <= inputs.len(),
            indexes@ == our_inputs(inputs@.take(j as int), current_pid@, is_dev),
        decreases inputs.len() - j,
    {
        proof {
            assert(inputs@.take(j + 1).drop_last() =~= inputs@.take(j as int));
        }
        if input_matches(&inputs[j], current_pid, is_dev) {
            indexes.push(inputs[j].index);
        }
        j += 1;
    }
    proof {
        assert(inputs@.take(inputs.len() as int) =~= inputs@);
    }
    if indexes.len() == 0 {
        return Err(NativeError::AppAudioStreamNotFound);
    }
    Ok(indexes)
}

/// The sink of the first stream of this application, if it has one.
pub open spec fn first_app_sink(inputs: Seq<SinkInputInfo>, current_pid: Seq<char>, is_dev: bool) -> Option<u32>
    decreases inputs.len(),
{
    if inputs.len() == 0 {
        None
    } else if input_is_ours(inputs[0], current_pid, is_dev) {
        Some(inputs[0].sink)
    } else {
        first_app_sink(inputs.drop_first(), current_pid, is_dev)
    }
}

pub fn app_sink_index(inputs: &Vec<SinkInputInfo>, current_pid: &str, is_dev: bool) -> (r: Option<u32>)
    ensures
        r == first_app_sink(inputs@, current_pid@, is_dev),
{
    let mut i: usize = 0;
    proof {
        assert(inputs@.skip(0) =~= inputs@);
    }
    while i < inputs.len()
        invariant
            i <= inputs.len(),
            first_app_sink(inputs@, current_pid@, is_dev) == first_app_sink(inputs@.skip(i as int), current_pid@, is_dev),
        decreases inputs.len() - i,
    {
        proof {
            assert(inputs@.skip(i as int)[0] == inputs@[i as int]);
            assert(inputs@.skip(i as int).drop_first() =~= inputs@.skip(i + 1));
        }
        if input_matches(&inputs[i], current_pid, is_dev) {
            return Some(inputs[i].sink);
        }
        i += 1;
    }
    None
}

/// The first source whose id is `id`.
pub open spec fn first_source_with_id(sources: Seq<AudioSource>, id: Seq<char>) -> Option<AudioSource>
    decreases sources.len(),
{
    if sources.len() == 0 {
        None
    } else if sources[0].id@ == id {
        Some(sources[0])
    } else {
        first_source_with_id(sources.drop_first(), id)
    }
}

/// The output that this application plays on: the source named like the sink of
/// its first stream, when both are known.
pub fn get_app_source(sources: &Vec<AudioSource>, sink_name: &str) -> (r: Option<AudioSource>)
    ensures
        r == first_source_with_id(sources@, sink_name@),
{
    let mut i: usize = 0;
    proof {
        assert(sources@.skip(0) =~= sources@);
    }
    while i < sources.len()
        invariant
            i <= sources.len(),
            first_source_with_id(sources@, sink_name@) == first_source_with_id(sources@.skip(i as int), sink_name@),
        decreases sources.len() - i,
    {
        proof {
            assert(sources@.skip(i as int)[0] == sources@[i as int]);
            assert(sources@.skip(i as int).drop_first() =~= sources@.skip(i + 1));
        }
        if str_eq(sources[i].id.as_str(), sink_name) {
            return Some(sources[i].duplicate());
        }
        i += 1;
    }
    None
}

} // verus!
