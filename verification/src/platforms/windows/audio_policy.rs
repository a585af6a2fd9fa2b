//! Per-application output routing on Windows: the device identifiers that the
//! audio policy interface speaks, and which processes count as this application.
use vstd::prelude::*;
use crate::error::NativeError;
use crate::models::media::AudioSource;
use crate::text::{has_prefix, has_suffix, to_chars, starts_with, ends_with, from_chars, concat, str_is_blank, is_blank,
    eq_ascii_nocase, eq_ignore_ascii_case};

verus! {

pub const MMDEVAPI_TOKEN: &'static str = "\\\\?\\SWD#MMDEVAPI#";
pub const DEVINTERFACE_AUDIO_RENDER: &'static str = "#{e6327cad-dcec-4949-ae8a-991e976a79d2}";
pub const DEVINTERFACE_AUDIO_CAPTURE: &'static str = "#{2eef81be-33fa-4800-9670-1cd474972c3f}";

/// The policy device id of a render endpoint: the endpoint id between the
/// MMDevAPI software-device token and the render interface class.
pub open spec fn spec_to_policy_device_id(endpoint_id: Seq<char>) -> Seq<char> {
    MMDEVAPI_TOKEN@ + endpoint_id + DEVINTERFACE_AUDIO_RENDER@
}

pub open spec fn strip_prefix_if(s: Seq<char>, p: Seq<char>) -> Seq<char> {
    if has_prefix(s, p) { s.skip(p.len() as int) } else { s }
}

pub open spec fn strip_suffix_if(s: Seq<char>, p: Seq<char>) -> Seq<char> {
    if has_suffix(s, p) { s.take(s.len() - p.len()) } else { s }
}

/// The endpoint id inside a policy device id: without the token in front, and
/// without a render, then a capture, interface class at the end.
pub open spec fn spec_unpack_policy_device_id(device_id: Seq<char>) -> Seq<char> {
    strip_suffix_if(
        strip_suffix_if(strip_prefix_if(device_id, MMDEVAPI_TOKEN@), DEVINTERFACE_AUDIO_RENDER@),
        DEVINTERFACE_AUDIO_CAPTURE@,
    )
}

pub fn to_policy_device_id(endpoint_id: &str) -> (r: String)
    ensures
        r@ == spec_to_policy_device_id(endpoint_id@),
{
    let head = concat(MMDEVAPI_TOKEN, endpoint_id);
    let r = concat(head.as_str(), DEVINTERFACE_AUDIO_RENDER);
    proof {
        assert(r@ =~= spec_to_policy_device_id(endpoint_id@));
    }
    r
}

fn take_chars(v: &Vec<char>, n: usize) -> (r: Vec<char>)
    requires
        n <= v.len(),
    ensures
        r@ == v@.take(n as int),
{
    let mut out: Vec<char> = Vec::new();
    let mut i: usize = 0;
    while i < n
        invariant
            i <= n <= v.len(),
            out@ == v@.take(i as int),
        decreases n - i,
    {
        out.push(v[i]);
        proof {
            assert(v@.take(i as int).push(v@[i as int]) =~= v@.take(i + 1));
        }
        i += 1;
    }
    out
}

fn skip_chars(v: &Vec<char>, n: usize) -> (r: Vec<char>)
    requires
        n <= v.len(),
    ensures
        r@ == v@.skip(n as int),
{
    let mut out: Vec<char> = Vec::new();
    let mut i: usize = n;
    while i < v.len()
        invariant
            n <= i <= v.len(),
            out@ == v@.subrange(n as int, i as int),
        decreases v.len() - i,
    {
        out.push(v[i]);
        proof {
            assert(v@.subrange(n as int, i as int).push(v@[i as int]) =~= v@.subrange(n as int, i + 1));
        }
        i += 1;
    }
    proof {
        assert(v@.subrange(n as int, v.len() as int) =~= v@.skip(n as int));
    }
    out
}

pub fn unpack_policy_device_id(device_id: &str) -> (r: String)
    ensures
        r@ == spec_unpack_policy_device_id(device_id@),
{
    let mut out = to_chars(device_id);
    let token = to_chars(MMDEVAPI_TOKEN);
    let render = to_chars(DEVINTERFACE_AUDIO_RENDER);
    let capture = to_chars(DEVINTERFACE_AUDIO_CAPTURE);
    if starts_with(out.as_slice(), token.as_slice()) {
        out = skip_chars(&out, token.len());
    }
    if ends_with(out.as_slice(), render.as_slice()) {
        out = take_chars(&out, out.len() - render.len());
    }
    if ends_with(out.as_slice(), capture.as_slice()) {
        out = take_chars(&out, out.len() - capture.len());
    }
    from_chars(out.as_slice())
}

/// An endpoint id that does not itself end with the capture interface class
/// survives the trip through its policy device id.
pub proof fn lemma_policy_device_id_round_trip(endpoint_id: Seq<char>)
    requires
        !has_suffix(endpoint_id, DEVINTERFACE_AUDIO_CAPTURE@),
    ensures
        spec_unpack_policy_device_id(spec_to_policy_device_id(endpoint_id)) == endpoint_id,
{
    let t = MMDEVAPI_TOKEN@;
    let r = DEVINTERFACE_AUDIO_RENDER@;
    let full = spec_to_policy_device_id(endpoint_id);
    assert(full.subrange(0, t.len() as int) =~= t);
    let after = full.skip(t.len() as int);
    assert(after =~= endpoint_id + r);
    assert(after.subrange(after.len() - r.len(), after.len() as int) =~= r);
    assert(after.take(after.len() - r.len()) =~= endpoint_id);
}

/// The endpoint that a persisted policy value names: none when the value is
/// blank, otherwise the endpoint id inside it.
pub open spec fn spec_persisted_endpoint(value: Seq<char>) -> Option<Seq<char>> {
    if is_blank(value) {
        None
    } else {
        Some(spec_unpack_policy_device_id(value))
    }
}

pub fn persisted_endpoint(value: &str) -> (r: Option<String>)
    ensures
        crate::models::media::opt_view(r) == spec_persisted_endpoint(value@),
{
    if str_is_blank(value) {
        None
    } else {
        Some(unpack_policy_device_id(value))
    }
}

/// One audio session of the default endpoint: its process and that process's
/// image name, when it could be read.
#[derive(Clone, Debug)]
pub struct SessionProcess {
    pub pid: u32,
    pub name: Option<String>,
}

/// A session belongs to this application when it runs in this process, or in a
/// process with the same image name; sessions of the system (process 0) never do.
pub open spec fn is_related_session(s: SessionProcess, current_pid: u32, current_name: Option<Seq<char>>) -> bool {
    s.pid != 0 && (s.pid == current_pid || (current_name is Some && crate::models::media::opt_view(s.name) == current_name))
}

/// The processes gathered from `sessions`: this process first, then the
/// process of each related session in the order listed, each once.
pub open spec fn related_pids(current_pid: u32, current_name: Option<Seq<char>>, sessions: Seq<SessionProcess>) -> Seq<u32>
    decreases sessions.len(),
{
    if sessions.len() == 0 {
        seq![current_pid]
    } else {
        let rest = related_pids(current_pid, current_name, sessions.drop_last());
        let s = sessions.last();
        if is_related_session(s, current_pid, current_name) && !rest.contains(s.pid) { rest.push(s.pid) } else { rest }
    }
}

/// The processes whose audio follows this application's routing: this process
/// and the process of every related session, each once.
pub fn collect_related_app_audio_pids(current_pid: u32, current_name: &Option<String>, sessions: &Vec<SessionProcess>) -> (r: Vec<u32>)
    ensures
        r@ == related_pids(current_pid, crate::models::media::opt_view(*current_name), sessions@),
        r@.no_duplicates(),
        forall|pid: u32| r@.contains(pid) <==> (pid == current_pid || exists|k: int| 0 <= k < sessions@.len()
            && (#[trigger] sessions@[k]).pid == pid && is_related_session(sessions@[k], current_pid, crate::models::media::opt_view(*current_name))),
{
    let mut pids: Vec<u32> = Vec::new();
    pids.push(current_pid);
    let ghost cn = crate::models::media::opt_view(*current_name);
    proof {
        assert(sessions@.take(0) =~= Seq::<SessionProcess>::empty());
        assert(pids@ =~= seq![current_pid]);
        assert forall|pid: u32| pids@.contains(pid) <==> pid == current_pid by {
            if pid == current_pid {
                assert(pids@[0] == pid);
            }
        };
    }
    let mut i: usize = 0;
    while i < sessions.len()
        invariant
            i <= sessions.len(),
            cn == crate::models::media::opt_view(*current_name),
            pids@ == related_pids(current_pid, cn, sessions@.take(i as int)),
            pids@.no_duplicates(),
            forall|pid: u32| pids@.contains(pid) <==> (pid == current_pid || exists|k: int| 0 <= k < i
                && (#[trigger] sessions@[k]).pid == pid && is_related_session(sessions@[k], current_pid, cn)),
        decreases sessions.len() - i,
    {
        let s = &sessions[i];
        let related = s.pid != 0 && (s.pid == current_pid || match (current_name, &s.name) {
            (Some(c), Some(n)) => *c == *n,
            _ => false,
        });
        proof {
            assert(related == is_related_session(*s, current_pid, cn));
            assert(sessions@.take(i + 1).drop_last() =~= sessions@.take(i as int));
            assert(sessions@.take(i + 1).last() == sessions@[i as int]);
        }
        if related {
            let mut present = false;
            let mut j: usize = 0;
            while j < pids.len()
                invariant
                    j <= pids.len(),
                    present == exists|k: int| 0 <= k < j && pids@[k] == s.pid,
                decreases pids.len() - j,
            {
                if pids[j] == s.pid {
                    present = true;
                }
                j += 1;
            }
            proof {
                if pids@.contains(s.pid) {
                    let a = choose|a: int| 0 <= a < pids@.len() && pids@[a] == s.pid;
                    assert(exists|k: int| 0 <= k < j && pids@[k] == s.pid);
                }
                assert(present == pids@.contains(s.pid));
            }
            if !present {
                let ghost before = pids@;
                pids.push(s.pid);
                proof {
                    assert forall|a: int, b: int| 0 <= a < b < pids@.len() implies pids@[a] != pids@[b] by {
                        if b == before.len() {
                            assert(pids@[a] == before[a]);
                        }
                    };
                    assert forall|pid: u32| pids@.contains(pid) <==> (pid == current_pid || exists|k: int| 0 <= k < i + 1
                        && (#[trigger] sessions@[k]).pid == pid && is_related_session(sessions@[k], current_pid, cn)) by {
                        if pids@.contains(pid) {
                            let a = choose|a: int| 0 <= a < pids@.len() && pids@[a] == pid;
                            if a < before.len() {
                                assert(before.contains(pid));
                            }
                        }
                        if before.contains(pid) {
                            let a = choose|a: int| 0 <= a < before.len() && before[a] == pid;
                            assert(pids@[a] == pid);
                        }
                        if pid == s.pid {
                            assert(pids@[before.len() as int] == pid);
                        }
                    };
                }
            } else {
                proof {
                    assert forall|pid: u32| pids@.contains(pid) <==> (pid == current_pid || exists|k: int| 0 <= k < i + 1
                        && (#[trigger] sessions@[k]).pid == pid && is_related_session(sessions@[k], current_pid, cn)) by {
                        if pid == s.pid {
                            let a = choose|a: int| 0 <= a < pids@.len() && pids@[a] == s.pid;
                            assert(pids@.contains(pid));
                        }
                    };
                }
            }
        }
        i += 1;
    }
    proof {
        assert(sessions@.take(sessions@.len() as int) =~= sessions@);
    }
    pids
}

/// The first source whose id matches `endpoint_id` without regard to ASCII case.
pub open spec fn first_source_matching(sources: Seq<AudioSource>, endpoint_id: Seq<char>) -> Option<AudioSource>
    decreases sources.len(),
{
    if sources.len() == 0 {
        None
    } else if eq_ascii_nocase(sources[0].id@, endpoint_id) {
        Some(sources[0])
    } else {
        first_source_matching(sources.drop_first(), endpoint_id)
    }
}

/// The output that this application is routed to: the source of the endpoint
/// that its persisted routing names.
pub fn get_app_source(sources: &Vec<AudioSource>, endpoint_id: &str) -> (r: Option<AudioSource>)
    ensures
        r == first_source_matching(sources@, endpoint_id@),
{
    let mut i: usize = 0;
    proof {
        assert(sources@.skip(0) =~= sources@);
    }
    while i < sources.len()
        invariant
            i <= sources.len(),
            first_source_matching(sources@, endpoint_id@) == first_source_matching(sources@.skip(i as int), endpoint_id@),
        decreases sources.len() - i,
    {
        proof {
            assert(sources@.skip(i as int)[0] == sources@[i as int]);
            assert(sources@.skip(i as int).drop_first() =~= sources@.skip(i + 1));
        }
        if eq_ignore_ascii_case(sources[i].id.as_str(), endpoint_id) {
            return Some(sources[i].duplicate());
        }
        i += 1;
    }
    None
}

/// The policy device id to persist for the processes of this application
/// when routing them to `source`: refused when the endpoint does not exist or
/// no process of this application plays audio.
pub fn set_app_source(source: &str, exists: bool, target_pids: &Vec<u32>) -> (r: Result<String, NativeError>)
    ensures
        !exists ==> (r matches Err(NativeError::AudioSourceNotFound(s)) && s@ == source@),
        exists && target_pids@.len() == 0 ==> r matches Err(NativeError::AppAudioStreamNotFound),
        exists && target_pids@.len() > 0 ==> (r matches Ok(id) && id@ == spec_to_policy_device_id(source@)),
{
    if !exists {
        return Err(NativeError::AudioSourceNotFound(source.to_owned()));
    }
    if target_pids.len() == 0 {
        return Err(NativeError::AppAudioStreamNotFound);
    }
    Ok(to_policy_device_id(source))
}

/// The error when neither version of the audio policy factory can be had.
pub fn routing_unavailable() -> (e: NativeError)
    ensures
        e matches NativeError::OperationFailed(m) && m@ == "Failed to acquire AudioPolicyConfigFactory for per-process routing"@,
{
    NativeError::OperationFailed("Failed to acquire AudioPolicyConfigFactory for per-process routing".to_owned())
}

} // verus!
