use vstd::prelude::*;

use crate::app_id::AppId;
use crate::error::{error_class, ErrorClass, HostError};
use crate::registry::{
    apps_wf, has_id, index_of, lemma_index_of_unique, lemma_with_state_wf, name_in_use,
    register_outcome, stored_status, with_state, AppView, Registry,
};
use crate::status::FunctionAppStatus;

verus! {

/// Relies on std::time::SystemTime::elapsed, taken from the Unix epoch: the
/// whole seconds that the system clock reads, or 0 where it reads a time
/// before the epoch. Nothing is known of the value.
#[verifier::external_body]
fn now_seconds() -> (r: u64) {
    match std::time::UNIX_EPOCH.elapsed() {
        Ok(d) => d.as_secs(),
        Err(_) => 0,
    }
}

/// What `start` asks of the runtime.
#[derive(Clone, Copy, Debug, PartialEq, Eq, Structural)]
pub enum StartStep {
    /// The app is ready: its image is to be launched on a free port.
    Launch,
    /// The app already runs on this port; nothing is to be done.
    AlreadyRunning(u16),
}

/// The registry once the stored status of app `id` has been matched with
/// whether its image is active: an app stored as `Running` whose image is no
/// longer active is `Ready` again, without a port. Every other record stays
/// as it is; in particular an app stored as `Ready` whose image is found
/// active stays `Ready`, since no port is known for it and a record is
/// `Running` only together with its port.
pub open spec fn reconciled(apps: Seq<AppView>, id: u128, image_active: bool) -> Seq<AppView> {
    if stored_status(apps, id) == FunctionAppStatus::Running && !image_active {
        with_state(apps, id, FunctionAppStatus::Ready, 0)
    } else {
        apps
    }
}

/// The port stored for app `id`.
pub open spec fn stored_port(apps: Seq<AppView>, id: u128) -> u16 {
    if has_id(apps, id) {
        apps[index_of(apps, id)].port
    } else {
        0
    }
}

/// What `start` decides from the (reconciled) registry: launch a `Ready`
/// app, leave a `Running` one as it is, refuse every other status.
pub open spec fn start_decision(apps: Seq<AppView>, id: u128) -> Result<StartStep, HostError> {
    let s = stored_status(apps, id);
    if s == FunctionAppStatus::Ready {
        Ok(StartStep::Launch)
    } else if s == FunctionAppStatus::Running {
        Ok(StartStep::AlreadyRunning(stored_port(apps, id)))
    } else {
        Err(HostError::NotBuildable(s))
    }
}

/// The end of `start`, given what the launch gave: a `Ready` app that was
/// launched on a port runs there. A failed launch, or one without a port,
/// is reported and changes nothing; so does a launch for an app that is no
/// longer `Ready`.
pub open spec fn launch_outcome(
    apps: Seq<AppView>,
    id: u128,
    launched: Result<u16, HostError>,
) -> (Seq<AppView>, Result<u16, HostError>) {
    let s = stored_status(apps, id);
    match launched {
        Err(e) => (apps, Err(e)),
        Ok(port) => if s != FunctionAppStatus::Ready {
            (apps, Err(HostError::NotBuildable(s)))
        } else if port == 0 {
            (apps, Err(HostError::NoFreePort))
        } else {
            (with_state(apps, id, FunctionAppStatus::Running, port), Ok(port))
        },
    }
}

/// The start of an upload: an app that is not already `Building` becomes
/// `Building`, whatever it was before (`Registered`, `Ready`, `Error`, or
/// `Running`, whose image is left as it is). An upload while one is in
/// progress is refused as a state conflict; an unknown id is `NotFound`.
pub open spec fn upload_start(apps: Seq<AppView>, id: u128) -> (Seq<AppView>, Result<(), HostError>) {
    if !has_id(apps, id) {
        (apps, Err(HostError::NotFound))
    } else if stored_status(apps, id) == FunctionAppStatus::Building {
        (apps, Err(HostError::NotBuildable(FunctionAppStatus::Building)))
    } else {
        (with_state(apps, id, FunctionAppStatus::Building, 0), Ok(()))
    }
}

/// The end of an upload, given what staging and building gave: `Ready` on
/// success, `Error` on failure, whose cause is passed on. `NotFound` where
/// the app is gone.
pub open spec fn upload_outcome(
    apps: Seq<AppView>,
    id: u128,
    built: Result<(), HostError>,
) -> (Seq<AppView>, Result<(), HostError>) {
    if !has_id(apps, id) {
        (apps, Err(HostError::NotFound))
    } else {
        match built {
            Ok(()) => (with_state(apps, id, FunctionAppStatus::Ready, 0), Ok(())),
            Err(e) => (with_state(apps, id, FunctionAppStatus::Error, 0), Err(e)),
        }
    }
}

/// Registers a new app named `name` under a fresh random id, stamped with
/// the current time. `NameInUse` where the name is taken; `IdInUse` in the
/// unlikely case that the drawn id is taken. On failure nothing changes.
pub fn register(registry: &mut Registry, name: &str) -> (r: Result<AppId, HostError>)
    requires
        old(registry).wf(),
    ensures
        final(registry).wf(),
        exists|id: u128, created_at: u64|
            (final(registry)@, r) == register_outcome(old(registry)@, name@, id, created_at),
        name_in_use(old(registry)@, name@) ==> r == Err::<AppId, HostError>(HostError::NameInUse)
            && final(registry)@ == old(registry)@,
{
    let id = AppId::generate();
    let created_at = now_seconds();
    registry.add_new_function_app(name, id, created_at)
}

/// The status of app `id`, matched first with whether its image is active
/// (`image_active`, from probing the runtime): a `Running` app whose image
/// has stopped is stored and reported as `Ready`. An unknown id is
/// `NotRegistered`.
pub fn get_function_app_status(registry: &mut Registry, id: AppId, image_active: bool) -> (r:
    FunctionAppStatus)
    requires
        old(registry).wf(),
    ensures
        final(registry).wf(),
        final(registry)@ == reconciled(old(registry)@, id.value, image_active),
        r == stored_status(final(registry)@, id.value),
{
    proof {
        lemma_with_state_wf(registry@, id.value, FunctionAppStatus::Ready, 0);
    }
    match registry.get(id) {
        None => FunctionAppStatus::NotRegistered,
        Some(app) => {
            let status = app.status;
            if status == FunctionAppStatus::Running && !image_active {
                let _ = registry.set_function_app_status(id, FunctionAppStatus::Ready);
                proof {
                    let i = index_of(old(registry)@, id.value);
                    lemma_index_of_unique(registry@, id.value, i);
                }
                FunctionAppStatus::Ready
            } else {
                status
            }
        },
    }
}

/// The first half of `start`: reconciles the status of app `id` as
/// `get_function_app_status` does, then decides. A `Ready` app is to be
/// launched, a `Running` one is left as it is; every other status, and an
/// unknown id (`NotRegistered`), is refused with `NotBuildable` naming it.
pub fn begin_start(registry: &mut Registry, id: AppId, image_active: bool) -> (r: Result<
    StartStep,
    HostError,
>)
    requires
        old(registry).wf(),
    ensures
        final(registry).wf(),
        final(registry)@ == reconciled(old(registry)@, id.value, image_active),
        r == start_decision(final(registry)@, id.value),
{
    let status = get_function_app_status(registry, id, image_active);
    match status {
        FunctionAppStatus::Ready => Ok(StartStep::Launch),
        FunctionAppStatus::Running => {
            let port = match registry.get(id) {
                Some(app) => app.port,
                None => 0,
            };
            Ok(StartStep::AlreadyRunning(port))
        },
        other => Err(HostError::NotBuildable(other)),
    }
}

/// The second half of `start`: records what the launch of app `id` gave.
/// On a port the app is `Running` there; a failed launch is passed on and
/// changes nothing (see `launch_outcome`).
pub fn finish_start(registry: &mut Registry, id: AppId, launched: Result<u16, HostError>) -> (r:
    Result<u16, HostError>)
    requires
        old(registry).wf(),
    ensures
        final(registry).wf(),
        (final(registry)@, r) == launch_outcome(old(registry)@, id.value, launched),
{
    match launched {
        Err(e) => Err(e),
        Ok(port) => {
            let status = match registry.get(id) {
                Some(app) => app.status,
                None => FunctionAppStatus::NotRegistered,
            };
            if status != FunctionAppStatus::Ready {
                Err(HostError::NotBuildable(status))
            } else if port == 0 {
                Err(HostError::NoFreePort)
            } else {
                let _ = registry.set_function_app_running(id, port);
                Ok(port)
            }
        },
    }
}

/// The first half of an upload: app `id` is `Building`, and its name is
/// returned for the build. `NotFound` where there is no such app, and
/// `NotBuildable` while it is already `Building` (see `upload_start`); then
/// nothing changes.
pub fn begin_upload(registry: &mut Registry, id: AppId) -> (r: Result<String, HostError>)
    requires
        old(registry).wf(),
    ensures
        final(registry).wf(),
        final(registry)@ == upload_start(old(registry)@, id.value).0,
        match upload_start(old(registry)@, id.value).1 {
            Ok(()) => r is Ok && r->Ok_0@ == old(registry)@[index_of(old(registry)@, id.value)].name,
            Err(e) => r == Err::<String, HostError>(e),
        },
{
    proof {
        lemma_with_state_wf(registry@, id.value, FunctionAppStatus::Building, 0);
    }
    let name = match registry.get(id) {
        None => return Err(HostError::NotFound),
        Some(app) => {
            if app.status == FunctionAppStatus::Building {
                return Err(HostError::NotBuildable(FunctionAppStatus::Building));
            }
            app.name.clone()
        },
    };
    let _ = registry.set_function_app_status(id, FunctionAppStatus::Building);
    Ok(name)
}

/// The second half of an upload: records what staging and building gave
/// (see `upload_outcome`): `Ready` on success, `Error` on any failure, whose
/// cause is returned.
pub fn finish_upload(registry: &mut Registry, id: AppId, built: Result<(), HostError>) -> (r:
    Result<(), HostError>)
    requires
        old(registry).wf(),
    ensures
        final(registry).wf(),
        (final(registry)@, r) == upload_outcome(old(registry)@, id.value, built),
{
    match built {
        Ok(()) => registry.set_function_app_status(id, FunctionAppStatus::Ready),
        Err(e) => {
            proof {
                lemma_with_state_wf(registry@, id.value, FunctionAppStatus::Error, 0);
            }
            let _ = registry.set_function_app_status(id, FunctionAppStatus::Error);
            if registry.position(id).is_some() {
                Err(e)
            } else {
                Err(HostError::NotFound)
            }
        },
    }
}


/// Setting app `id` to a status and port that a record may hold is seen
/// through `stored_status` and `stored_port`.
pub proof fn lemma_with_state_reads(apps: Seq<AppView>, id: u128, status: FunctionAppStatus, port: u16)
    requires
        apps_wf(apps),
        has_id(apps, id),
        status != FunctionAppStatus::NotRegistered,
        port != 0 <==> status == FunctionAppStatus::Running,
    ensures
        apps_wf(with_state(apps, id, status, port)),
        has_id(with_state(apps, id, status, port), id),
        stored_status(with_state(apps, id, status, port), id) == status,
        stored_port(with_state(apps, id, status, port), id) == port,
{
    lemma_with_state_wf(apps, id, status, port);
    let i = index_of(apps, id);
    let after = with_state(apps, id, status, port);
    assert(after[i].id == id);
    lemma_index_of_unique(after, id, i);
}

/// `start` goes ahead only for an app that is `Ready` or `Running` once its
/// status is reconciled. Every other status, `NotRegistered` for an unknown
/// id included, is refused as a state conflict that names it; the registry
/// is then left as it was, and no launch result can change it.
pub proof fn lemma_start_only_when_ready_or_running(
    apps: Seq<AppView>,
    id: u128,
    image_active: bool,
    launched: Result<u16, HostError>,
)
    requires
        apps_wf(apps),
    ensures
        ({
            let a = reconciled(apps, id, image_active);
            let s = stored_status(a, id);
            &&& (start_decision(a, id) is Ok <==> (s == FunctionAppStatus::Ready || s
                == FunctionAppStatus::Running))
            &&& (s != FunctionAppStatus::Ready && s != FunctionAppStatus::Running) ==> {
                &&& start_decision(a, id) == Err::<StartStep, HostError>(HostError::NotBuildable(s))
                &&& error_class(HostError::NotBuildable(s)) == ErrorClass::StateConflict
                &&& a == apps
                &&& stored_status(apps, id) == s
                &&& launch_outcome(a, id, launched).0 == apps
                &&& launch_outcome(a, id, launched).1 is Err
            }
        }),
{
    if stored_status(apps, id) == FunctionAppStatus::Running && !image_active {
        lemma_with_state_reads(apps, id, FunctionAppStatus::Ready, 0);
    }
}

/// An upload that is let in ends in `Ready` when staging and building
/// succeed, and in `Error`, with the cause passed on, when either fails.
pub proof fn lemma_upload_ends_ready_or_error(
    apps: Seq<AppView>,
    id: u128,
    built: Result<(), HostError>,
)
    requires
        apps_wf(apps),
        has_id(apps, id),
        stored_status(apps, id) != FunctionAppStatus::Building,
    ensures
        ({
            let (building, started) = upload_start(apps, id);
            let (after, r) = upload_outcome(building, id, built);
            &&& started is Ok
            &&& stored_status(building, id) == FunctionAppStatus::Building
            &&& built is Ok ==> stored_status(after, id) == FunctionAppStatus::Ready && r is Ok
            &&& built is Err ==> stored_status(after, id) == FunctionAppStatus::Error && r == built
        }),
{
    let building = with_state(apps, id, FunctionAppStatus::Building, 0);
    lemma_with_state_reads(apps, id, FunctionAppStatus::Building, 0);
    lemma_with_state_reads(building, id, FunctionAppStatus::Ready, 0);
    lemma_with_state_reads(building, id, FunctionAppStatus::Error, 0);
}

/// Reading the status while the image is not active never reports
/// `Running`. An app that was `Ready` or `Running` reads `Ready`, and a
/// second read reports the same and changes nothing.
pub proof fn lemma_status_self_correcting(apps: Seq<AppView>, id: u128)
    requires
        apps_wf(apps),
    ensures
        stored_status(reconciled(apps, id, false), id) != FunctionAppStatus::Running,
        reconciled(reconciled(apps, id, false), id, false) == reconciled(apps, id, false),
        (stored_status(apps, id) == FunctionAppStatus::Ready || stored_status(apps, id)
            == FunctionAppStatus::Running) ==> stored_status(reconciled(apps, id, false), id)
            == FunctionAppStatus::Ready,
{
    if stored_status(apps, id) == FunctionAppStatus::Running {
        lemma_with_state_reads(apps, id, FunctionAppStatus::Ready, 0);
    }
}

/// Once `start` has launched a `Ready` app on a port, the app is `Running`
/// there, and reading its status while the image is active reports
/// `Running` on that port, as often as it is read.
pub proof fn lemma_started_app_reports_running(apps: Seq<AppView>, id: u128, port: u16)
    requires
        apps_wf(apps),
        stored_status(apps, id) == FunctionAppStatus::Ready,
        port != 0,
    ensures
        ({
            let (after, r) = launch_outcome(apps, id, Ok(port));
            &&& r == Ok::<u16, HostError>(port)
            &&& reconciled(after, id, true) == after
            &&& stored_status(after, id) == FunctionAppStatus::Running
            &&& stored_port(after, id) == port
        }),
{
    lemma_with_state_reads(apps, id, FunctionAppStatus::Running, port);
}

} // verus!
