//! The active render endpoints, as the audio sources that the host application lists.
use vstd::prelude::*;
use crate::models::media::{AudioSource, sort_audio_sources, sources_sorted, stable_permutation};
use crate::text::{eq_ascii_nocase, eq_ignore_ascii_case};

verus! {

/// What the endpoint enumeration says of one endpoint.
#[derive(Clone, Debug)]
pub struct EndpointInfo {
    pub id: String,
    pub friendly_name: Option<String>,
    /// The bit pattern of the master volume of the endpoint.
    pub volume: u64,
}

/// The source of one endpoint: named by its friendly name (its id when it has
/// none), the default when its id matches the default endpoint's without regard
/// to ASCII case.
pub open spec fn endpoint_source(e: EndpointInfo, default_id: Seq<char>) -> AudioSource {
    AudioSource {
        id: e.id,
        name: match e.friendly_name {
            Some(n) => n,
            None => e.id,
        },
        is_default: eq_ascii_nocase(e.id@, default_id),
        volume: e.volume,
    }
}

/// The sources of the endpoints, in enumeration order.
pub open spec fn endpoint_sources(endpoints: Seq<EndpointInfo>, default_id: Seq<char>) -> Seq<AudioSource> {
    endpoints.map_values(|e: EndpointInfo| endpoint_source(e, default_id))
}

/// The audio sources of the endpoints, the default first and then by name
/// without regard to case.
pub fn get_audio_sources(endpoints: &Vec<EndpointInfo>, default_id: &str) -> (r: Vec<AudioSource>)
    ensures
        sources_sorted(r@),
        exists|p: Seq<int>| stable_permutation(p, endpoint_sources(endpoints@, default_id@), r@),
{
    let mut out: Vec<AudioSource> = Vec::new();
    let mut i: usize = 0;
    while i < endpoints.len()
        invariant
            i <= endpoints.len(),
            out@ =~= endpoints@.take(i as int).map_values(|e: EndpointInfo| endpoint_source(e, default_id@)),
        decreases endpoints.len() - i,
    {
        let e = &endpoints[i];
        let name = match &e.friendly_name {
            Some(n) => n.clone(),
            None => e.id.clone(),
        };
        out.push(AudioSource {
            id: e.id.clone(),
            name,
            is_default: eq_ignore_ascii_case(e.id.as_str(), default_id),
            volume: e.volume,
        });
        i += 1;
    }
    proof {
        assert(endpoints@.take(endpoints.len() as int) =~= endpoints@);
        assert(out@ =~= endpoint_sources(endpoints@, default_id@));
    }
    sort_audio_sources(out)
}

} // verus!
