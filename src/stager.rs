use vstd::prelude::*;

use base64::Engine;

use crate::error::HostError;
use crate::text::chars_of;

verus! {

/// The bytes that `text` denotes in standard base64 (with padding), if it is
/// valid base64.
pub uninterp spec fn base64_decoded(text: Seq<char>) -> Option<Seq<u8>>;

/// The standard base64 text (with padding) of `bytes`.
pub uninterp spec fn base64_encoded(bytes: Seq<u8>) -> Seq<char>;

/// Relies on base64's standard engine `decode`: whether the text is valid,
/// and the bytes it denotes, depend on the text alone.
#[verifier::external_body]
fn decode_standard(text: &str) -> (r: Option<Vec<u8>>)
    ensures
        r is Some <==> base64_decoded(text@) is Some,
        r matches Some(b) ==> base64_decoded(text@) == Some(b@),
{
    match base64::engine::general_purpose::STANDARD.decode(text) {
        Ok(b) => Some(b),
        Err(_) => None,
    }
}

/// Relies on base64's standard engine `encode`: the text depends on the bytes
/// alone, and decoding it gives the bytes back.
#[verifier::external_body]
fn encode_standard(bytes: &[u8]) -> (r: String)
    ensures
        r@ == base64_encoded(bytes@),
        base64_decoded(r@) == Some(bytes@),
{
    base64::engine::general_purpose::STANDARD.encode(bytes)
}

/// The archive that an upload carries as base64 text; `InvalidEncoding`
/// where the text is not valid base64.
pub fn decode_archive(body: &str) -> (r: Result<Vec<u8>, HostError>)
    ensures
        base64_decoded(body@) is None ==> r == Err::<Vec<u8>, HostError>(HostError::InvalidEncoding),
        base64_decoded(body@) is Some ==> r is Ok && Some(r->Ok_0@) == base64_decoded(body@),
{
    match decode_standard(body) {
        Some(bytes) => Ok(bytes),
        None => Err(HostError::InvalidEncoding),
    }
}

/// The base64 text under which an archive is uploaded; the host decodes it
/// to the same bytes.
pub fn encode_archive(archive: &Vec<u8>) -> (r: String)
    ensures
        r@ == base64_encoded(archive@),
        base64_decoded(r@) == Some(archive@),
{
    encode_standard(archive.as_slice())
}

/// `entry` is the top-level entry of `path`: the part of the path before its
/// first `/`, or the whole path where it has none.
pub open spec fn is_top_entry(path: Seq<char>, entry: Seq<char>) -> bool {
    &&& entry.len() <= path.len()
    &&& entry == path.take(entry.len() as int)
    &&& !entry.contains('/')
    &&& (entry.len() == path.len() || path[entry.len() as int] == '/')
}

/// The top-level entries of an archive whose members have the paths
/// `paths`; an empty part (of a path that starts with `/`) is none.
pub open spec fn top_level_entries(paths: Seq<Seq<char>>) -> Set<Seq<char>> {
    Set::new(
        |e: Seq<char>|
            e.len() > 0 && exists|i: int| 0 <= i < paths.len() && is_top_entry(#[trigger] paths[i], e),
    )
}

/// A path has one top-level entry.
pub proof fn lemma_top_entry_unique(path: Seq<char>, a: Seq<char>, b: Seq<char>)
    requires
        is_top_entry(path, a),
        is_top_entry(path, b),
    ensures
        a == b,
{
    if a.len() < b.len() {
        assert(b[a.len() as int] == path[a.len() as int]);
        assert(b.contains('/'));
    } else if b.len() < a.len() {
        assert(a[b.len() as int] == path[b.len() as int]);
        assert(a.contains('/'));
    }
}

/// The top-level entry of `path`.
pub fn top_entry_of(path: &str) -> (r: String)
    ensures
        is_top_entry(path@, r@),
{
    let cs = chars_of(path);
    let mut out = String::new();
    let mut i: usize = 0;
    while i < cs.len() && cs[i] != '/'
        invariant
            cs@ == path@,
            i <= cs@.len(),
            out@ == path@.take(i as int),
            forall|k: int| 0 <= k < i ==> path@[k] != '/',
        decreases cs@.len() - i,
    {
        crate::text::push_char(&mut out, cs[i]);
        assert(path@.take(i + 1) =~= path@.take(i as int).push(path@[i as int]));
        i += 1;
    }
    assert(!out@.contains('/'));
    out
}

/// The source root of an unpacked archive whose members have the paths
/// `paths` (as the archive lists them, or as the top level of the unpacked
/// tree lists them): its one top-level entry. `MalformedLayout` where the
/// archive has no top-level entry or more than one.
pub fn source_root(paths: &Vec<String>) -> (r: Result<String, HostError>)
    ensures
        r matches Ok(root) ==> top_level_entries(paths@.map_values(|p: String| p@)) == set![root@],
        r is Err ==> r == Err::<String, HostError>(HostError::MalformedLayout) && forall|root: Seq<
            char,
        >| top_level_entries(paths@.map_values(|p: String| p@)) != set![root],
{
    let ghost v = paths@.map_values(|p: String| p@);
    let mut found: Option<String> = None;
    let mut i: usize = 0;
    while i < paths.len()
        invariant
            v == paths@.map_values(|p: String| p@),
            i <= paths@.len(),
            found is None ==> forall|k: int, e: Seq<char>|
                0 <= k < i && #[trigger] is_top_entry(v[k], e) ==> e.len() == 0,
            found matches Some(f) ==> {
                &&& f@.len() > 0
                &&& exists|k: int| 0 <= k < i && is_top_entry(#[trigger] v[k], f@)
                &&& forall|k: int, e: Seq<char>|
                    0 <= k < i && #[trigger] is_top_entry(v[k], e) && e.len() > 0 ==> e == f@
            },
        decreases paths@.len() - i,
    {
        let e = top_entry_of(paths[i].as_str());
        let ghost eg = e@;
        proof {
            assert(v[i as int] == paths@[i as int]@);
            assert(is_top_entry(v[i as int], eg));
            assert forall|x: Seq<char>| is_top_entry(v[i as int], x) implies x == eg by {
                lemma_top_entry_unique(v[i as int], x, eg);
            }
        }
        let empty = chars_of(e.as_str()).len() == 0;
        if !empty {
            assert(eg.len() > 0);
            match found {
                None => {
                    found = Some(e);
                    assert(is_top_entry(v[i as int], eg));
                },
                Some(f) => {
                    if !(f == e) {
                        proof {
                            let ghost fg = f@;
                            let kf = choose|k: int| 0 <= k < i && is_top_entry(#[trigger] v[k], fg);
                            assert forall|root: Seq<char>| top_level_entries(v) != set![root] by {
                                assert(top_level_entries(v).contains(fg));
                                assert(top_level_entries(v).contains(eg));
                                if top_level_entries(v) == set![root] {
                                    assert(set![root].contains(fg));
                                    assert(set![root].contains(eg));
                                }
                            }
                        }
                        return Err(HostError::MalformedLayout);
                    }
                    found = Some(f);
                },
            }
        }
        i += 1;
    }
    match found {
        Some(f) => {
            proof {
                assert(top_level_entries(v) =~= set![f@]);
            }
            Ok(f)
        },
        None => {
            proof {
                assert forall|root: Seq<char>| top_level_entries(v) != set![root] by {
                    assert(set![root].contains(root));
                    if top_level_entries(v).contains(root) {
                        let k = choose|k: int| 0 <= k < v.len() && is_top_entry(#[trigger] v[k], root);
                    }
                }
            }
            Err(HostError::MalformedLayout)
        },
    }
}

} // verus!
