//! Cover art of media sessions, kept as local files that the renderer loads
//! through the `streamq-local://thumbs/` scheme.
//!
//! The URL of a thumbnail is `streamq-local://thumbs/{id}{ext}` and its file is
//! `thumb_{id}{ext}` in the art directory, where `{id}` names the track.
use vstd::prelude::*;
use vstd::utf8::encode_utf8;
use crate::text::{lowercase, has_prefix, has_infix, to_chars, concat, push_chars, substring, starts_with, contains};
use crate::models::media::{AppMediaSession, opt_view};

verus! {

pub const ART_URL_PREFIX: &'static str = "streamq-local://thumbs/";
pub const ART_FILE_PREFIX: &'static str = "thumb_";
pub const ART_DIR_NAME: &'static str = "streamq";

/// The 32-byte BLAKE3 digest of some bytes.
pub uninterp spec fn blake3_digest(data: Seq<u8>) -> Seq<u8>;

pub open spec fn is_lower_hex_digit(c: char) -> bool {
    ('0' <= c && c <= '9') || ('a' <= c && c <= 'f')
}

/// The lowercase hexadecimal digit of a value below 16.
pub open spec fn hex_digit(n: u8) -> char {
    if n == 0 { '0' }
    else if n == 1 { '1' }
    else if n == 2 { '2' }
    else if n == 3 { '3' }
    else if n == 4 { '4' }
    else if n == 5 { '5' }
    else if n == 6 { '6' }
    else if n == 7 { '7' }
    else if n == 8 { '8' }
    else if n == 9 { '9' }
    else if n == 10 { 'a' }
    else if n == 11 { 'b' }
    else if n == 12 { 'c' }
    else if n == 13 { 'd' }
    else if n == 14 { 'e' }
    else { 'f' }
}

/// Bytes in lowercase hexadecimal, two digits each, the high one first.
pub open spec fn hex_of(bytes: Seq<u8>) -> Seq<char>
    decreases bytes.len(),
{
    if bytes.len() == 0 {
        Seq::empty()
    } else {
        hex_of(bytes.drop_last()) + seq![hex_digit(bytes.last() >> 4u8), hex_digit(bytes.last() & 0xfu8)]
    }
}

/// The BLAKE3 digest of some bytes, in lowercase hexadecimal.
pub open spec fn blake3_hex(data: Seq<u8>) -> Seq<char> {
    hex_of(blake3_digest(data))
}

proof fn lemma_hex_of(bytes: Seq<u8>)
    ensures
        hex_of(bytes).len() == 2 * bytes.len(),
        forall|i: int| 0 <= i < hex_of(bytes).len() ==> is_lower_hex_digit(#[trigger] hex_of(bytes)[i]),
    decreases bytes.len(),
{
    if bytes.len() > 0 {
        lemma_hex_of(bytes.drop_last());
        let rest = hex_of(bytes.drop_last());
        let two = seq![hex_digit(bytes.last() >> 4u8), hex_digit(bytes.last() & 0xfu8)];
        assert forall|i: int| 0 <= i < hex_of(bytes).len() implies is_lower_hex_digit(#[trigger] hex_of(bytes)[i]) by {
            if i < rest.len() {
                assert(hex_of(bytes)[i] == rest[i]);
            } else {
                assert(hex_of(bytes)[i] == two[i - rest.len()]);
            }
        }
    }
}

/// `blake3::hash` followed by `Hash::to_hex`: the 32-byte digest of `data`,
/// each byte written as two lowercase hexadecimal digits, the high one first.
/// The digest itself is not stated.
#[verifier::external_body]
fn blake3_hex_digest(data: &[u8]) -> (r: String)
    ensures
        r@ == hex_of(blake3_digest(data@)),
        r@.len() == 64,
{
    blake3::hash(data).to_hex().to_string()
}

/// The UTF-8 bytes of an optional string (none when it is absent).
pub open spec fn opt_utf8(s: Option<Seq<char>>) -> Seq<u8> {
    match s {
        Some(t) => encode_utf8(t),
        None => Seq::empty(),
    }
}

/// The bytes that identify a track: the lowercase application name, the title and
/// the artist, each as UTF-8 and separated by a zero byte.
pub open spec fn track_bytes(app: Seq<char>, title: Option<Seq<char>>, artist: Option<Seq<char>>) -> Seq<u8> {
    encode_utf8(lowercase(app)) + seq![0u8] + opt_utf8(title) + seq![0u8] + opt_utf8(artist)
}

/// The identifier of a track: the first 16 hexadecimal digits of the BLAKE3
/// digest of its identifying bytes.
pub open spec fn spec_track_id(app: Seq<char>, title: Option<Seq<char>>, artist: Option<Seq<char>>) -> Seq<char> {
    blake3_hex(track_bytes(app, title, artist)).take(16)
}

pub open spec fn opt_str_view(s: Option<&str>) -> Option<Seq<char>> {
    match s {
        Some(t) => Some(t@),
        None => None,
    }
}

fn push_bytes(out: &mut Vec<u8>, bytes: &[u8])
    ensures
        final(out)@ == old(out)@ + bytes@,
{
    let mut i: usize = 0;
    while i < bytes.len()
        invariant
            i <= bytes.len(),
            out@ == old(out)@ + bytes@.take(i as int),
        decreases bytes.len() - i,
    {
        out.push(bytes[i]);
        proof {
            assert(bytes@.take(i as int).push(bytes@[i as int]) =~= bytes@.take(i + 1));
        }
        i += 1;
    }
    proof {
        assert(bytes@.take(bytes.len() as int) =~= bytes@);
    }
}

fn track_id(app: &str, title: Option<&str>, artist: Option<&str>) -> (r: String)
    ensures
        r@ == spec_track_id(app@, opt_str_view(title), opt_str_view(artist)),
        r@.len() == 16,
        forall|i: int| 0 <= i < 16 ==> is_lower_hex_digit(#[trigger] r@[i]),
{
    let lowered = app.to_lowercase();
    let mut data: Vec<u8> = Vec::new();
    push_bytes(&mut data, lowered.as_str().as_bytes());
    data.push(0u8);
    match title {
        Some(t) => push_bytes(&mut data, t.as_bytes()),
        None => {},
    }
    data.push(0u8);
    match artist {
        Some(a) => push_bytes(&mut data, a.as_bytes()),
        None => {},
    }
    proof {
        assert(data@ =~= track_bytes(app@, opt_str_view(title), opt_str_view(artist)));
    }
    let digest = blake3_hex_digest(data.as_slice());
    proof {
        lemma_hex_of(blake3_digest(data@));
    }
    let cs = to_chars(digest.as_str());
    let r = substring(cs.as_slice(), 0, 16);
    proof {
        assert(r@ =~= digest@.take(16));
    }
    r
}

/// The URL of the thumbnail of a track.
pub open spec fn art_url(id: Seq<char>, ext: Seq<char>) -> Seq<char> {
    ART_URL_PREFIX@ + id + ext
}

/// The file name of the thumbnail of a track, in the art directory.
pub open spec fn art_file_name(id: Seq<char>, ext: Seq<char>) -> Seq<char> {
    ART_FILE_PREFIX@ + id + ext
}

/// `s` without the slashes at its end.
pub open spec fn trim_trailing_slashes(s: Seq<char>) -> Seq<char>
    decreases s.len(),
{
    if s.len() > 0 && s.last() == '/' {
        trim_trailing_slashes(s.drop_last())
    } else {
        s
    }
}

/// The file that a thumbnail URL stands for: the name after the prefix, with
/// trailing slashes removed, when it is not empty and can name no other
/// directory (no slash, no backslash, no `..`).
pub open spec fn art_file_for_url(url: Seq<char>) -> Option<Seq<char>> {
    if has_prefix(url, ART_URL_PREFIX@) {
        let name = trim_trailing_slashes(url.skip(ART_URL_PREFIX@.len() as int));
        if name.len() == 0 || name.contains('/') || name.contains('\\') || has_infix(name, ".."@) {
            None
        } else {
            Some(ART_FILE_PREFIX@ + name)
        }
    } else {
        None
    }
}

/// Whether the URL is one of the thumbnails that this module manages.
pub open spec fn spec_is_managed(url: Seq<char>) -> bool {
    has_prefix(url, ART_URL_PREFIX@)
}

/// The managed artwork of `previous` that no session of `live` still shows, in
/// the order of `previous`.
pub open spec fn unreferenced_arts(previous: Seq<AppMediaSession>, live: Seq<AppMediaSession>) -> Seq<Seq<char>>
    decreases previous.len(),
{
    if previous.len() == 0 {
        Seq::empty()
    } else {
        let rest = unreferenced_arts(previous.drop_last(), live);
        match previous.last().art {
            Some(art) => if spec_is_managed(art@) && !live_arts(live).contains(art@) {
                rest.push(art@)
            } else {
                rest
            },
            None => rest,
        }
    }
}

/// The artwork URLs shown by some sessions.
pub open spec fn live_arts(live: Seq<AppMediaSession>) -> Seq<Seq<char>>
    decreases live.len(),
{
    if live.len() == 0 {
        Seq::empty()
    } else {
        let rest = live_arts(live.drop_last());
        match live.last().art {
            Some(art) => rest.push(art@),
            None => rest,
        }
    }
}

/// 16 lowercase hexadecimal digits, as track identifiers are.
pub open spec fn is_track_id(id: Seq<char>) -> bool {
    id.len() == 16 && forall|i: int| 0 <= i < 16 ==> is_lower_hex_digit(#[trigger] id[i])
}

/// An extension that cannot lead out of the art directory.
pub open spec fn is_plain_extension(ext: Seq<char>) -> bool {
    !ext.contains('/') && !ext.contains('\\') && !has_infix(ext, ".."@)
}

/// The thumbnail URL of a track leads back to the thumbnail file of the same
/// track, and is one that the module manages.
pub proof fn lemma_art_url_round_trip(id: Seq<char>, ext: Seq<char>)
    requires
        is_track_id(id),
        is_plain_extension(ext),
    ensures
        art_file_for_url(art_url(id, ext)) == Some(art_file_name(id, ext)),
        spec_is_managed(art_url(id, ext)),
{
    let p = ART_URL_PREFIX@;
    let url = art_url(id, ext);
    let name = id + ext;
    assert(url.subrange(0, p.len() as int) =~= p);
    assert(url.skip(p.len() as int) =~= name);
    assert(name[name.len() - 1] != '/') by {
        if ext.len() > 0 {
            assert(ext[ext.len() - 1] == name[name.len() - 1]);
        } else {
            assert(name[name.len() - 1] == id[15]);
        }
    };
    assert(trim_trailing_slashes(name) == name);
    assert(!name.contains('/')) by {
        if name.contains('/') {
            let k = choose|k: int| 0 <= k < name.len() && name[k] == '/';
            if k < 16 {
                assert(is_lower_hex_digit(id[k]));
            } else {
                assert(ext[k - 16] == '/');
            }
        }
    };
    assert(!name.contains('\\')) by {
        if name.contains('\\') {
            let k = choose|k: int| 0 <= k < name.len() && name[k] == '\\';
            if k < 16 {
                assert(is_lower_hex_digit(id[k]));
            } else {
                assert(ext[k - 16] == '\\');
            }
        }
    };
    assert(!has_infix(name, ".."@)) by {
        reveal_strlit("..");
        assert(".."@.len() == 2);
        assert(".."@[0] == '.' && ".."@[1] == '.');
        if has_infix(name, ".."@) {
            let k = choose|k: int| 0 <= k <= name.len() - ".."@.len() && #[trigger] name.subrange(k, k + ".."@.len()) == ".."@;
            assert(name.subrange(k, k + 2)[0] == '.');
            assert(name.subrange(k, k + 2)[1] == '.');
            if k + 1 < 16 {
                assert(is_lower_hex_digit(id[k + 1]));
            } else if k < 16 {
                assert(is_lower_hex_digit(id[k]));
            } else {
                assert(ext.subrange(k - 16, k - 14) =~= name.subrange(k, k + 2));
                assert(ext.subrange(k - 16, k - 16 + ".."@.len()) == ".."@);
            }
        }
    };
    assert(ART_FILE_PREFIX@ + name =~= art_file_name(id, ext));
}

/// What is released is never shown by a live session, and is always one of the
/// managed thumbnails.
pub proof fn lemma_release_spares_live(previous: Seq<AppMediaSession>, live: Seq<AppMediaSession>)
    ensures
        forall|k: int| 0 <= k < unreferenced_arts(previous, live).len() ==> {
            &&& spec_is_managed(#[trigger] unreferenced_arts(previous, live)[k])
            &&& !live_arts(live).contains(unreferenced_arts(previous, live)[k])
        },
    decreases previous.len(),
{
    if previous.len() > 0 {
        lemma_release_spares_live(previous.drop_last(), live);
        let rest = unreferenced_arts(previous.drop_last(), live);
        let all = unreferenced_arts(previous, live);
        assert forall|k: int| 0 <= k < all.len() implies {
            &&& spec_is_managed(#[trigger] all[k])
            &&& !live_arts(live).contains(all[k])
        } by {
            if k < rest.len() {
                assert(all[k] == rest[k]);
            }
        };
    }
}

pub struct Thumbnails;

impl Thumbnails {
    /// The URL and the file name of the thumbnail of a track, whose file has the
    /// extension `ext` (with its dot, or empty).
    pub fn path_for(app: &str, title: Option<&str>, artist: Option<&str>, ext: &str) -> (r: (String, String))
        ensures
            r.0@ == art_url(spec_track_id(app@, opt_str_view(title), opt_str_view(artist)), ext@),
            r.1@ == art_file_name(spec_track_id(app@, opt_str_view(title), opt_str_view(artist)), ext@),
            is_track_id(spec_track_id(app@, opt_str_view(title), opt_str_view(artist))),
    {
        let id = track_id(app, title, artist);
        let name = concat(id.as_str(), ext);
        let url = concat(ART_URL_PREFIX, name.as_str());
        let file = concat(ART_FILE_PREFIX, name.as_str());
        proof {
            assert(url@ =~= art_url(id@, ext@));
            assert(file@ =~= art_file_name(id@, ext@));
        }
        (url, file)
    }

    /// The artwork URLs to delete once `live` replaces `previous`: each managed
    /// thumbnail of a previous session that no live session shows any more.
    pub fn release_unreferenced(previous: &Vec<AppMediaSession>, live: &Vec<AppMediaSession>) -> (r: Vec<String>)
        ensures
            r@.map_values(|s: String| s@) == unreferenced_arts(previous@, live@),
    {
        let shown = collect_live_arts(live);
        let mut out: Vec<String> = Vec::new();
        let mut i: usize = 0;
        while i < previous.len()
            invariant
                i <= previous.len(),
                shown@.map_values(|s: String| s@) == live_arts(live@),
                out@.map_values(|s: String| s@) == unreferenced_arts(previous@.take(i as int), live@),
            decreases previous.len() - i,
        {
            proof {
                assert(previous@.take(i + 1).drop_last() =~= previous@.take(i as int));
            }
            match &previous[i].art {
                Some(art) => {
                    if is_managed(art.as_str()) && !crate::models::media::contains_name(&shown, art.as_str()) {
                        out.push(art.clone());
                        proof {
                            assert(out@.map_values(|s: String| s@) =~= unreferenced_arts(previous@.take(i as int), live@).push(art@));
                        }
                    }
                },
                None => {},
            }
            i += 1;
        }
        proof {
            assert(previous@.take(previous.len() as int) =~= previous@);
        }
        out
    }
}

fn collect_live_arts(live: &Vec<AppMediaSession>) -> (r: Vec<String>)
    ensures
        r@.map_values(|s: String| s@) == live_arts(live@),
{
    let mut out: Vec<String> = Vec::new();
    let mut i: usize = 0;
    while i < live.len()
        invariant
            i <= live.len(),
            out@.map_values(|s: String| s@) == live_arts(live@.take(i as int)),
        decreases live.len() - i,
    {
        proof {
            assert(live@.take(i + 1).drop_last() =~= live@.take(i as int));
        }
        match &live[i].art {
            Some(art) => {
                out.push(art.clone());
                proof {
                    assert(out@.map_values(|s: String| s@) =~= live_arts(live@.take(i as int)).push(art@));
                }
            },
            None => {},
        }
        i += 1;
    }
    proof {
        assert(live@.take(live.len() as int) =~= live@);
    }
    out
}

/// Whether the URL is one of the thumbnails that this module manages.
pub fn is_managed(url: &str) -> (r: bool)
    ensures
        r == spec_is_managed(url@),
{
    let u = to_chars(url);
    let p = to_chars(ART_URL_PREFIX);
    starts_with(u.as_slice(), p.as_slice())
}

/// The file name, in the art directory, of the thumbnail that a URL stands for.
pub fn path_from_url(url: &str) -> (r: Option<String>)
    ensures
        opt_view(r) == art_file_for_url(url@),
{
    let u = to_chars(url);
    let p = to_chars(ART_URL_PREFIX);
    if !starts_with(u.as_slice(), p.as_slice()) {
        return None;
    }
    let mut end = u.len();
    proof {
        assert(u@.skip(p.len() as int).subrange(0, (end - p.len()) as int) =~= u@.skip(p.len() as int));
    }
    while end > p.len() && u[end - 1] == '/'
        invariant
            p.len() <= end <= u.len(),
            trim_trailing_slashes(u@.skip(p.len() as int)) == trim_trailing_slashes(u@.subrange(p.len() as int, end as int)),
        decreases end,
    {
        proof {
            assert(u@.subrange(p.len() as int, end as int).drop_last() =~= u@.subrange(p.len() as int, end - 1));
        }
        end -= 1;
    }
    let ghost name = u@.subrange(p.len() as int, end as int);
    proof {
        assert(trim_trailing_slashes(name) == name);
        assert(trim_trailing_slashes(url@.skip(ART_URL_PREFIX@.len() as int)) == name);
    }
    let name_chars = vec_range(&u, p.len(), end);
    if name_chars.len() == 0 {
        proof {
            assert(trim_trailing_slashes(url@.skip(ART_URL_PREFIX@.len() as int)) == name);
        }
        return None;
    }
    let mut i: usize = 0;
    while i < name_chars.len()
        invariant
            i <= name_chars.len(),
            name_chars@ == name,
            has_prefix(url@, ART_URL_PREFIX@),
            trim_trailing_slashes(url@.skip(ART_URL_PREFIX@.len() as int)) == name,
            forall|k: int| 0 <= k < i ==> name[k] != '/' && name[k] != '\\',
        decreases name_chars.len() - i,
    {
        if name_chars[i] == '/' || name_chars[i] == '\\' {
            proof {
                if name_chars[i as int] == '/' {
                    assert(name.contains('/'));
                } else {
                    assert(name.contains('\\'));
                }
            }
            return None;
        }
        i += 1;
    }
    let dots = to_chars("..");
    if contains(name_chars.as_slice(), dots.as_slice()) {
        return None;
    }
    let mut out = ART_FILE_PREFIX.to_owned();
    push_chars(&mut out, name_chars.as_slice());
    proof {
        assert(!name.contains('/'));
        assert(!name.contains('\\'));
        assert(!has_infix(name, ".."@));
        assert(has_prefix(url@, ART_URL_PREFIX@));
        assert(trim_trailing_slashes(url@.skip(ART_URL_PREFIX@.len() as int)) == name);
        assert(out@ == ART_FILE_PREFIX@ + name);
    }
    Some(out)
}

pub fn vec_range(v: &Vec<char>, from: usize, to: usize) -> (r: Vec<char>)
    requires
        from <= to <= v.len(),
    ensures
        r@ == v@.subrange(from as int, to as int),
{
    let mut out: Vec<char> = Vec::new();
    let mut i = from;
    while i < to
        invariant
            from <= i <= to <= v.len(),
            out@ == v@.subrange(from as int, i as int),
        decreases to - i,
    {
        out.push(v[i]);
        proof {
            assert(v@.subrange(from as int, i as int).push(v@[i as int]) =~= v@.subrange(from as int, i + 1));
        }
        i += 1;
    }
    out
}

} // verus!
