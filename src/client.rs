use vstd::prelude::*;

use crate::app_id::{uuid_of_text, AppId};
use crate::status::FunctionAppStatus;
use crate::text::{append_decimal, append_text, decimal};

verus! {

/// What a host answers on `/hello`.
pub const GREETING: &'static str = "Hello from rustless!";

/// The host that the client talks to; the client keeps at most one.
#[derive(Clone, Debug)]
pub struct Server {
    pub hostname: String,
    pub port: u16,
}

/// The body of a request to register an app.
#[derive(Clone, Debug)]
pub struct FunctionAppNameRequest {
    pub name: String,
}

/// The body of an answer to a status query.
#[derive(Clone, Copy, Debug)]
pub struct FunctionAppStatusResult {
    pub id: AppId,
    pub status: FunctionAppStatus,
}

/// The address of `path` on the host `host` at port `port`, over HTTPS.
pub open spec fn endpoint_text(host: Seq<char>, port: u16, path: Seq<char>) -> Seq<char> {
    seq!['h', 't', 't', 'p', 's', ':', '/', '/'] + host + seq![':'] + decimal(port as nat) + path
}

impl Server {
    pub fn new(hostname: &str, port: u16) -> (r: Server)
        ensures
            r.hostname@ == hostname@,
            r.port == port,
    {
        Server { hostname: String::from_str(hostname), port }
    }

    /// The address of `path` (which starts with `/`) on this host.
    pub fn endpoint(&self, path: &str) -> (r: String)
        ensures
            r@ == endpoint_text(self.hostname@, self.port, path@),
    {
        let mut url = String::from_str("https://");
        append_text(&mut url, self.hostname.as_str());
        append_text(&mut url, ":");
        append_decimal(&mut url, self.port);
        append_text(&mut url, path);
        proof {
            reveal_strlit("https://");
            reveal_strlit(":");
        }
        assert(url@ =~= endpoint_text(self.hostname@, self.port, path@));
        url
    }
}

/// Why the client could not use a host's answer.
#[derive(Clone, Copy, Debug, PartialEq, Eq, Structural)]
pub enum ReplyError {
    /// The host answered with this unexpected HTTP status.
    Status(u16),
    /// The host is not a function app host: its greeting is not ours.
    UnexpectedGreeting,
    /// An app with this name already exists.
    NameTaken,
    /// No app with this name exists.
    UnknownApp,
    /// The host sent something that is not an app id.
    BadId,
}

/// Whether an answer on `/hello` comes from a function app host: status 200
/// and the greeting.
pub fn check_greeting(status: u16, body: &str) -> (r: Result<(), ReplyError>)
    ensures
        status != 200 ==> r == Err::<(), ReplyError>(ReplyError::Status(status)),
        status == 200 && body@ != GREETING@ ==> r == Err::<(), ReplyError>(
            ReplyError::UnexpectedGreeting,
        ),
        status == 200 && body@ == GREETING@ ==> r == Ok::<(), ReplyError>(()),
{
    if status != 200 {
        return Err(ReplyError::Status(status));
    }
    if String::from_str(body) == String::from_str(GREETING) {
        Ok(())
    } else {
        Err(ReplyError::UnexpectedGreeting)
    }
}

/// The id in an answer whose body is an app id.
fn id_in_body(body: &str) -> (r: Result<AppId, ReplyError>)
    ensures
        match uuid_of_text(body@) {
            Some(v) => r == Ok::<AppId, ReplyError>(AppId { value: v }),
            None => r == Err::<AppId, ReplyError>(ReplyError::BadId),
        },
{
    match AppId::parse(body) {
        Ok(id) => Ok(id),
        Err(_) => Err(ReplyError::BadId),
    }
}

/// The new app's id from the answer to a registration: status 200 carries
/// the id; 409 says that the name is taken.
pub fn registration_reply(status: u16, body: &str) -> (r: Result<AppId, ReplyError>)
    ensures
        status == 409 ==> r == Err::<AppId, ReplyError>(ReplyError::NameTaken),
        status != 200 && status != 409 ==> r == Err::<AppId, ReplyError>(ReplyError::Status(status)),
        status == 200 ==> match uuid_of_text(body@) {
            Some(v) => r == Ok::<AppId, ReplyError>(AppId { value: v }),
            None => r == Err::<AppId, ReplyError>(ReplyError::BadId),
        },
{
    if status == 409 {
        Err(ReplyError::NameTaken)
    } else if status != 200 {
        Err(ReplyError::Status(status))
    } else {
        id_in_body(body)
    }
}

/// An app's id from the answer to a lookup by name: status 200 carries the
/// id; 404 says that no app has the name.
pub fn id_reply(status: u16, body: &str) -> (r: Result<AppId, ReplyError>)
    ensures
        status == 404 ==> r == Err::<AppId, ReplyError>(ReplyError::UnknownApp),
        status != 200 && status != 404 ==> r == Err::<AppId, ReplyError>(ReplyError::Status(status)),
        status == 200 ==> match uuid_of_text(body@) {
            Some(v) => r == Ok::<AppId, ReplyError>(AppId { value: v }),
            None => r == Err::<AppId, ReplyError>(ReplyError::BadId),
        },
{
    if status == 404 {
        Err(ReplyError::UnknownApp)
    } else if status != 200 {
        Err(ReplyError::Status(status))
    } else {
        id_in_body(body)
    }
}

/// Whether an answer that carries nothing the client needs reports success.
pub fn plain_reply(status: u16) -> (r: Result<(), ReplyError>)
    ensures
        status == 200 ==> r == Ok::<(), ReplyError>(()),
        status != 200 ==> r == Err::<(), ReplyError>(ReplyError::Status(status)),
{
    if status == 200 {
        Ok(())
    } else {
        Err(ReplyError::Status(status))
    }
}

} // verus!
