use vstd::prelude::*;

use crate::error::HostError;
use crate::text::{
    append_decimal, append_text, chars_of, decimal, has_char, occurs, occurs_in, push_char,
};

verus! {

/// The port on which an image's service listens inside its container.
pub const SERVICE_PORT: u16 = 8080;

/// `name` with every space turned into a dash.
pub open spec fn dashed(name: Seq<char>) -> Seq<char> {
    name.map_values(|c: char| if c == ' ' { '-' } else { c })
}

/// The lowercase form of `s`, as Rust's standard library defines it.
pub uninterp spec fn lower_of(s: Seq<char>) -> Seq<char>;

/// Relies on str::to_lowercase: the lowercase form depends on the characters
/// alone.
#[verifier::external_body]
fn lowercase(s: &str) -> (r: String)
    ensures
        r@ == lower_of(s@),
{
    s.to_lowercase()
}

/// The ending of every image tag.
pub open spec fn tag_suffix() -> Seq<char> {
    seq!['-', 'c', 'o', 'n', 't', 'a', 'i', 'n', 'e', 'r']
}

/// The tag of the image built for the app named `name`: the name with spaces
/// turned into dashes, in lowercase, then `-container`. Builds of one app
/// therefore always replace the same image.
pub open spec fn container_tag(name: Seq<char>) -> Seq<char> {
    lower_of(dashed(name)) + tag_suffix()
}

/// `name` with every space turned into a dash.
pub fn dash_spaces(name: &str) -> (r: String)
    ensures
        r@ == dashed(name@),
{
    let cs = chars_of(name);
    let mut out = String::new();
    let mut i: usize = 0;
    while i < cs.len()
        invariant
            cs@ == name@,
            i <= cs@.len(),
            out@ == dashed(name@).take(i as int),
        decreases cs@.len() - i,
    {
        let c = cs[i];
        if c == ' ' {
            push_char(&mut out, '-');
        } else {
            push_char(&mut out, c);
        }
        assert(dashed(name@).take(i + 1) =~= dashed(name@).take(i as int).push(
            dashed(name@)[i as int],
        ));
        i += 1;
    }
    assert(dashed(name@).take(i as int) =~= dashed(name@));
    out
}

/// The image tag for an already lowercased name: `lowered` then `-container`.
pub fn tag_of_lowered(lowered: &str) -> (r: String)
    ensures
        r@ == lowered@ + tag_suffix(),
{
    let mut tag = String::from_str(lowered);
    append_text(&mut tag, "-container");
    proof {
        reveal_strlit("-container");
    }
    assert(tag@ =~= lowered@ + tag_suffix());
    tag
}

/// The tag of the image built for the app named `function_app_name`.
pub fn get_container_tag(function_app_name: &str) -> (r: String)
    ensures
        r@ == container_tag(function_app_name@),
{
    let dashed_name = dash_spaces(function_app_name);
    let lowered = lowercase(dashed_name.as_str());
    tag_of_lowered(lowered.as_str())
}

/// Some line of `listing` (lines end at `'\n'`) holds `tag`: the tag occurs
/// in the listing and spans no line break.
pub open spec fn mentioned_on_a_line(listing: Seq<char>, tag: Seq<char>) -> bool {
    !tag.contains('\n') && occurs_in(listing, tag)
}

/// Whether some line of the runtime's listing of running containers holds
/// `tag`.
pub fn listing_mentions(listing: &str, tag: &str) -> (r: bool)
    ensures
        r == mentioned_on_a_line(listing@, tag@),
{
    let t = chars_of(tag);
    if has_char(&t, '\n') {
        return false;
    }
    let l = chars_of(listing);
    occurs(&l, &t)
}

/// Whether the image of the app named `function_app_name` runs, read from
/// the runtime's listing of running containers: some line names its tag.
pub fn is_container_running(listing: &str, function_app_name: &str) -> (r: bool)
    ensures
        r == mentioned_on_a_line(listing@, container_tag(function_app_name@)),
{
    let tag = get_container_tag(function_app_name);
    listing_mentions(listing, tag.as_str())
}

/// The binding of host port `port` to the service port, as the runtime
/// takes it: `<port>:8080/tcp`.
pub open spec fn port_binding_text(port: u16) -> Seq<char> {
    decimal(port as nat) + seq![':'] + decimal(SERVICE_PORT as nat) + seq!['/', 't', 'c', 'p']
}

/// The binding of host port `port` to the image's service port.
pub fn port_binding(port: u16) -> (r: String)
    ensures
        r@ == port_binding_text(port),
{
    let mut s = String::new();
    append_decimal(&mut s, port);
    push_char(&mut s, ':');
    append_decimal(&mut s, SERVICE_PORT);
    push_char(&mut s, '/');
    push_char(&mut s, 't');
    push_char(&mut s, 'c');
    push_char(&mut s, 'p');
    assert(s@ =~= port_binding_text(port));
    s
}

/// The word by which the runtime's report says that a launch failed.
pub open spec fn error_word() -> Seq<char> {
    seq!['E', 'r', 'r', 'o', 'r']
}

/// What the runtime's report on launching an image on `port` means: where
/// it mentions `Error` the launch failed, with the report as its cause;
/// else the image runs on `port`.
pub fn launch_result(report: &str, port: u16) -> (r: Result<u16, HostError>)
    ensures
        !occurs_in(report@, error_word()) ==> r == Ok::<u16, HostError>(port),
        occurs_in(report@, error_word()) ==> (r matches Err(HostError::LaunchFailed(m)) && m@
            == report@),
{
    let word = chars_of("Error");
    proof {
        reveal_strlit("Error");
    }
    assert(word@ =~= error_word());
    let text = chars_of(report);
    if occurs(&text, &word) {
        Err(HostError::LaunchFailed(String::from_str(report)))
    } else {
        Ok(port)
    }
}

/// Relies on portpicker::pick_unused_port: a port that was free for TCP and
/// UDP when probed, or `None` where none was found. Nothing else is known of
/// the value.
#[verifier::external_body]
fn pick_unused_port() -> (r: Option<u16>) {
    portpicker::pick_unused_port()
}

/// A free host port for a launch; `NoFreePort` where none can be found.
pub fn get_next_free_port() -> (r: Result<u16, HostError>)
    ensures
        r matches Ok(p) ==> p != 0,
        r is Err ==> r == Err::<u16, HostError>(HostError::NoFreePort),
{
    match pick_unused_port() {
        Some(p) => {
            if p == 0 {
                Err(HostError::NoFreePort)
            } else {
                Ok(p)
            }
        },
        None => Err(HostError::NoFreePort),
    }
}

} // verus!
