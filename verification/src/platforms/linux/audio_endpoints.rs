//! The PulseAudio sinks, as the audio sources that the host application lists.
use vstd::prelude::*;
use crate::models::media::{AudioSource, opt_view, sort_audio_sources, sources_sorted, stable_permutation};
use crate::text::str_eq;

verus! {

/// What the sink listing says of one sink.
#[derive(Clone, Debug)]
pub struct SinkInfo {
    pub name: Option<String>,
    pub description: Option<String>,
    /// The bit pattern of the average linear volume of the sink.
    pub volume: u64,
}

/// The sources for a sink listing, before ordering: one per named sink, the first
/// listing of a name winning; each is named by its description (or by its name
/// when it has none) and is the default when its name is the default sink's.
pub open spec fn spec_sink_sources(sinks: Seq<SinkInfo>, default_sink: Seq<char>) -> Seq<AudioSource>
    decreases sinks.len(),
{
    if sinks.len() == 0 {
        Seq::empty()
    } else {
        let rest = spec_sink_sources(sinks.drop_last(), default_sink);
        let s = sinks.last();
        match s.name {
            Some(name) => if exists|k: int| 0 <= k < rest.len() && (#[trigger] rest[k]).id@ == name@ {
                rest
            } else {
                rest.push(AudioSource {
                    id: name,
                    name: match s.description {
                        Some(d) => d,
                        None => name,
                    },
                    is_default: name@ == default_sink,
                    volume: s.volume,
                })
            },
            None => rest,
        }
    }
}

fn has_source_id(sources: &Vec<AudioSource>, id: &String) -> (r: bool)
    ensures
        r == exists|k: int| 0 <= k < sources@.len() && (#[trigger] sources@[k]).id@ == id@,
{
    let mut i: usize = 0;
    while i < sources.len()
        invariant
            i <= sources.len(),
            forall|k: int| 0 <= k < i ==> sources@[k].id@ != id@,
        decreases sources.len() - i,
    {
        if sources[i].id == *id {
            return true;
        }
        i += 1;
    }
    false
}

/// The audio sources of a sink listing, the default first and then by name
/// without regard to case.
pub fn get_audio_sources(sinks: &Vec<SinkInfo>, default_sink: &str) -> (r: Vec<AudioSource>)
    ensures
        sources_sorted(r@),
        exists|p: Seq<int>| stable_permutation(p, spec_sink_sources(sinks@, default_sink@), r@),
{
    let mut out: Vec<AudioSource> = Vec::new();
    let mut i: usize = 0;
    while i < sinks.len()
        invariant
            i <= sinks.len(),
            out@ == spec_sink_sources(sinks@.take(i as int), default_sink@),
        decreases sinks.len() - i,
    {
        proof {
            assert(sinks@.take(i + 1).drop_last() =~= sinks@.take(i as int));
        }
        let s = &sinks[i];
        if let Some(name) = &s.name {
            if !has_source_id(&out, name) {
                let display = match &s.description {
                    Some(d) => d.clone(),
                    None => name.clone(),
                };
                let is_default = str_eq(name.as_str(), default_sink);
                out.push(AudioSource { id: name.clone(), name: display, is_default, volume: s.volume });
            }
        }
        i += 1;
    }
    proof {
        assert(sinks@.take(sinks.len() as int) =~= sinks@);
    }
    sort_audio_sources(out)
}

/// Among the sources, the volume of the first default one.
pub open spec fn default_source_volume(sources: Seq<AudioSource>) -> Option<u64>
    decreases sources.len(),
{
    if sources.len() == 0 {
        None
    } else if sources[0].is_default {
        Some(sources[0].volume)
    } else {
        default_source_volume(sources.drop_first())
    }
}

/// The volume of the default output, as the source listing gives it.
pub fn default_volume(sources: &Vec<AudioSource>) -> (r: Option<u64>)
    ensures
        r == default_source_volume(sources@),
{
    let mut i: usize = 0;
    proof {
        assert(sources@.skip(0) =~= sources@);
    }
    while i < sources.len()
        invariant
            i <= sources.len(),
            default_source_volume(sources@) == default_source_volume(sources@.skip(i as int)),
        decreases sources.len() - i,
    {
        proof {
            assert(sources@.skip(i as int)[0] == sources@[i as int]);
            assert(sources@.skip(i as int).drop_first() =~= sources@.skip(i + 1));
        }
        if sources[i].is_default {
            return Some(sources[i].volume);
        }
        i += 1;
    }
    None
}

} // verus!
