use vstd::prelude::*;

use crate::app_id::{uuid_of_text, AppId};
use crate::error::HostError;
use crate::status::{status_of_code, FunctionAppStatus};

verus! {

/// One registered function app.
#[derive(Clone, Debug)]
pub struct FunctionApp {
    /// The app's name, unique among all apps.
    pub name: String,
    /// The app's id, assigned once at registration.
    pub id: AppId,
    pub status: FunctionAppStatus,
    /// Seconds since the Unix epoch at registration.
    pub created_at: u64,
    /// The host port of the running image; 0 unless the app runs.
    pub port: u16,
}

/// A function app as a mathematical value.
pub struct AppView {
    pub name: Seq<char>,
    pub id: u128,
    pub status: FunctionAppStatus,
    pub created_at: u64,
    pub port: u16,
}

impl View for FunctionApp {
    type V = AppView;

    open spec fn view(&self) -> AppView {
        AppView {
            name: self.name@,
            id: self.id.value,
            status: self.status,
            created_at: self.created_at,
            port: self.port,
        }
    }
}

/// A record that may be stored: it never says `NotRegistered`, and its port
/// is set exactly while it runs.
pub open spec fn record_wf(a: AppView) -> bool {
    &&& a.status != FunctionAppStatus::NotRegistered
    &&& (a.port != 0 <==> a.status == FunctionAppStatus::Running)
}

/// The rules of the registry: every record may be stored, and no two share
/// an id or a name.
pub open spec fn apps_wf(apps: Seq<AppView>) -> bool {
    &&& forall|i: int| 0 <= i < apps.len() ==> record_wf(#[trigger] apps[i])
    &&& forall|i: int, j: int|
        0 <= i < apps.len() && 0 <= j < apps.len() && i != j ==> (#[trigger] apps[i]).id
            != (#[trigger] apps[j]).id && apps[i].name != apps[j].name
}

pub open spec fn has_id(apps: Seq<AppView>, id: u128) -> bool {
    exists|i: int| 0 <= i < apps.len() && (#[trigger] apps[i]).id == id
}

/// The place of the record with `id`; meaningful where `has_id` holds.
pub open spec fn index_of(apps: Seq<AppView>, id: u128) -> int {
    choose|i: int| 0 <= i < apps.len() && (#[trigger] apps[i]).id == id
}

pub open spec fn name_in_use(apps: Seq<AppView>, name: Seq<char>) -> bool {
    exists|i: int| 0 <= i < apps.len() && (#[trigger] apps[i]).name == name
}

/// The stored status of the app with `id`, `NotRegistered` where there is none.
pub open spec fn stored_status(apps: Seq<AppView>, id: u128) -> FunctionAppStatus {
    if has_id(apps, id) {
        apps[index_of(apps, id)].status
    } else {
        FunctionAppStatus::NotRegistered
    }
}

/// The registry with the app `id` set to `status` and `port`; unchanged where
/// there is no such app.
pub open spec fn with_state(
    apps: Seq<AppView>,
    id: u128,
    status: FunctionAppStatus,
    port: u16,
) -> Seq<AppView> {
    if has_id(apps, id) {
        let a = apps[index_of(apps, id)];
        apps.update(
            index_of(apps, id),
            AppView { name: a.name, id: a.id, status, created_at: a.created_at, port },
        )
    } else {
        apps
    }
}

/// The record that registration adds.
pub open spec fn registered_record(name: Seq<char>, id: u128, created_at: u64) -> AppView {
    AppView { name, id, status: FunctionAppStatus::Registered, created_at, port: 0 }
}

/// Registering `name` under `id`: refused while the name or the id is taken,
/// else one new record in status `Registered`.
pub open spec fn register_outcome(apps: Seq<AppView>, name: Seq<char>, id: u128, created_at: u64) -> (
    Seq<AppView>,
    Result<AppId, HostError>,
) {
    if name_in_use(apps, name) {
        (apps, Err(HostError::NameInUse))
    } else if has_id(apps, id) {
        (apps, Err(HostError::IdInUse))
    } else {
        (apps.push(registered_record(name, id, created_at)), Ok(AppId { value: id }))
    }
}

/// The number of records named `name`.
pub open spec fn count_named(apps: Seq<AppView>, name: Seq<char>) -> nat {
    apps.filter(|a: AppView| a.name == name).len()
}

/// The registry of function apps: the single source of truth for which apps
/// exist and where each stands.
pub struct Registry {
    apps: Vec<FunctionApp>,
}

impl View for Registry {
    type V = Seq<AppView>;

    closed spec fn view(&self) -> Seq<AppView> {
        self.apps@.map_values(|a: FunctionApp| a@)
    }
}

impl Registry {
    pub open spec fn wf(&self) -> bool {
        apps_wf(self@)
    }

    /// A registry without apps.
    pub fn new() -> (r: Registry)
        ensures
            r.wf(),
            r@ == Seq::<AppView>::empty(),
    {
        let r = Registry { apps: Vec::new() };
        assert(r@ =~= Seq::<AppView>::empty());
        r
    }

    /// The apps in the order of registration.
    pub fn get_all_apps(&self) -> (r: &Vec<FunctionApp>)
        ensures
            r@.map_values(|a: FunctionApp| a@) == self@,
    {
        &self.apps
    }

    /// The number of apps.
    pub fn len(&self) -> (r: usize)
        ensures
            r == self@.len(),
    {
        self.apps.len()
    }

    /// The place of the app with `id`, if there is one.
    pub fn position(&self, id: AppId) -> (r: Option<usize>)
        requires
            self.wf(),
        ensures
            r is None <==> !has_id(self@, id.value),
            r matches Some(i) ==> i == index_of(self@, id.value) && i < self@.len(),
    {
        let mut i: usize = 0;
        while i < self.apps.len()
            invariant
                self.wf(),
                i <= self.apps@.len(),
                self@.len() == self.apps@.len(),
                forall|k: int| 0 <= k < i ==> (#[trigger] self@[k]).id != id.value,
            decreases self.apps@.len() - i,
        {
            if self.apps[i].id.value == id.value {
                proof {
                    lemma_index_of_unique(self@, id.value, i as int);
                }
                return Some(i);
            }
            i += 1;
        }
        None
    }

    /// The place of the app named `name`, if there is one.
    pub fn position_of_name(&self, name: &str) -> (r: Option<usize>)
        ensures
            r is None <==> !name_in_use(self@, name@),
            r matches Some(i) ==> i < self@.len() && self@[i as int].name == name@,
    {
        let target = String::from_str(name);
        let mut i: usize = 0;
        while i < self.apps.len()
            invariant
                i <= self.apps@.len(),
                self@.len() == self.apps@.len(),
                target@ == name@,
                forall|k: int| 0 <= k < i ==> (#[trigger] self@[k]).name != name@,
            decreases self.apps@.len() - i,
        {
            if self.apps[i].name == target {
                assert(self@[i as int].name == name@);
                return Some(i);
            }
            i += 1;
        }
        None
    }

    /// The app with `id`, if there is one.
    pub fn get(&self, id: AppId) -> (r: Option<&FunctionApp>)
        requires
            self.wf(),
        ensures
            r is None <==> !has_id(self@, id.value),
            r matches Some(a) ==> a@ == self@[index_of(self@, id.value)],
    {
        match self.position(id) {
            Some(i) => Some(&self.apps[i]),
            None => None,
        }
    }

    /// Whether an app is named `name`.
    pub fn is_name_in_use(&self, name: &str) -> (r: bool)
        ensures
            r == name_in_use(self@, name@),
    {
        self.position_of_name(name).is_some()
    }

    /// The id of the app named `name`; `NotFound` where there is none.
    pub fn get_function_id_from_name(&self, name: &str) -> (r: Result<AppId, HostError>)
        ensures
            !name_in_use(self@, name@) ==> r == Err::<AppId, HostError>(HostError::NotFound),
            name_in_use(self@, name@) ==> exists|i: int|
                0 <= i < self@.len() && (#[trigger] self@[i]).name == name@ && r == Ok::<
                    AppId,
                    HostError,
                >(AppId { value: self@[i].id }),
    {
        match self.position_of_name(name) {
            Some(i) => {
                let r = Ok(self.apps[i].id);
                assert(self@[i as int].name == name@);
                r
            },
            None => Err(HostError::NotFound),
        }
    }

    /// The name of the app with `id`; `NotFound` where there is none.
    pub fn get_function_app_name(&self, id: AppId) -> (r: Result<String, HostError>)
        requires
            self.wf(),
        ensures
            !has_id(self@, id.value) ==> r == Err::<String, HostError>(HostError::NotFound),
            has_id(self@, id.value) ==> r is Ok && r->Ok_0@ == self@[index_of(
                self@,
                id.value,
            )].name,
    {
        match self.position(id) {
            Some(i) => Ok(self.apps[i].name.clone()),
            None => Err(HostError::NotFound),
        }
    }
}


/// Setting an app's status and port, to values a stored record may hold,
/// keeps the registry's rules and its names and ids.
pub proof fn lemma_with_state_wf(apps: Seq<AppView>, id: u128, status: FunctionAppStatus, port: u16)
    requires
        apps_wf(apps),
        status != FunctionAppStatus::NotRegistered,
        port != 0 <==> status == FunctionAppStatus::Running,
    ensures
        apps_wf(with_state(apps, id, status, port)),
        with_state(apps, id, status, port).len() == apps.len(),
        forall|i: int|
            0 <= i < apps.len() ==> (#[trigger] with_state(apps, id, status, port)[i]).id
                == apps[i].id && with_state(apps, id, status, port)[i].name == apps[i].name,
        forall|n: Seq<char>| name_in_use(with_state(apps, id, status, port), n) == name_in_use(apps, n),
        forall|x: u128| has_id(with_state(apps, id, status, port), x) == has_id(apps, x),
{
    let after = with_state(apps, id, status, port);
    assert forall|n: Seq<char>| name_in_use(after, n) == name_in_use(apps, n) by {
        if name_in_use(apps, n) {
            let i = choose|i: int| 0 <= i < apps.len() && (#[trigger] apps[i]).name == n;
            assert(after[i].name == n);
        }
        if name_in_use(after, n) {
            let i = choose|i: int| 0 <= i < after.len() && (#[trigger] after[i]).name == n;
            assert(apps[i].name == n);
        }
    }
    assert forall|x: u128| has_id(after, x) == has_id(apps, x) by {
        if has_id(apps, x) {
            let i = choose|i: int| 0 <= i < apps.len() && (#[trigger] apps[i]).id == x;
            assert(after[i].id == x);
        }
        if has_id(after, x) {
            let i = choose|i: int| 0 <= i < after.len() && (#[trigger] after[i]).id == x;
            assert(apps[i].id == x);
        }
    }
}

/// The index that `index_of` picks is the only one with that id.
pub proof fn lemma_index_of_unique(apps: Seq<AppView>, id: u128, i: int)
    requires
        apps_wf(apps),
        0 <= i < apps.len(),
        apps[i].id == id,
    ensures
        has_id(apps, id),
        index_of(apps, id) == i,
{
    assert(has_id(apps, id));
    let j = index_of(apps, id);
    assert(0 <= j < apps.len() && apps[j].id == id);
    if j != i {
        assert(apps[i].id != apps[j].id);
    }
}

/// A name registers once: registering a name that is free under an id that
/// is free succeeds and leaves exactly one record with that name, and from
/// then on every registration of the same name, under any id, is refused
/// with `NameInUse` and changes nothing.
pub proof fn lemma_register_once(
    apps: Seq<AppView>,
    name: Seq<char>,
    id: u128,
    created_at: u64,
    later_id: u128,
    later_created_at: u64,
)
    requires
        apps_wf(apps),
        !name_in_use(apps, name),
        !has_id(apps, id),
    ensures
        register_outcome(apps, name, id, created_at).1 == Ok::<AppId, HostError>(AppId { value: id }),
        apps_wf(register_outcome(apps, name, id, created_at).0),
        count_named(register_outcome(apps, name, id, created_at).0, name) == 1,
        register_outcome(register_outcome(apps, name, id, created_at).0, name, later_id, later_created_at)
            == (register_outcome(apps, name, id, created_at).0, Err::<AppId, HostError>(
            HostError::NameInUse,
        )),
{
    let rec = registered_record(name, id, created_at);
    let after = apps.push(rec);
    lemma_register_keeps_wf(apps, name, id, created_at);
    let pred = |a: AppView| a.name == name;
    assert forall|i: int| 0 <= i < apps.len() implies !pred(#[trigger] apps[i]) by {
        assert(apps[i].name != name);
    }
    assert(apps.all(|a: AppView| !pred(a)));
    apps.lemma_all_neg_filter_empty(pred);
    apps.lemma_filter_len_push(pred, rec);
    assert(after[apps.len() as int].name == name);
    assert(name_in_use(after, name));
}

/// Adding a record under a free name and a free id keeps the registry's rules.
pub proof fn lemma_register_keeps_wf(apps: Seq<AppView>, name: Seq<char>, id: u128, created_at: u64)
    requires
        apps_wf(apps),
        !name_in_use(apps, name),
        !has_id(apps, id),
    ensures
        apps_wf(apps.push(registered_record(name, id, created_at))),
{
    let after = apps.push(registered_record(name, id, created_at));
    assert forall|i: int, j: int|
        0 <= i < after.len() && 0 <= j < after.len() && i != j implies (#[trigger] after[i]).id
        != (#[trigger] after[j]).id && after[i].name != after[j].name by {
        if i == apps.len() {
            assert(apps[j].id != id);
            assert(apps[j].name != name);
        } else if j == apps.len() {
            assert(apps[i].id != id);
            assert(apps[i].name != name);
        } else {
            assert(apps[i] == after[i] && apps[j] == after[j]);
        }
    }
}

impl FunctionApp {
    /// Reads a stored row: the name, the id as text, the status code, the
    /// creation time and the port. A row whose id is no UUID, whose status
    /// code names no status, or whose time or port is out of range is
    /// `CorruptRecord`.
    pub fn from_row(name: String, id: &str, status: i64, created_at: i64, port: i64) -> (r: Result<
        FunctionApp,
        HostError,
    >)
        ensures
            r is Ok <==> uuid_of_text(id@) is Some && status_of_code(status as int) is Some && 0
                <= created_at && 0 <= port <= u16::MAX,
            r is Err ==> r == Err::<FunctionApp, HostError>(HostError::CorruptRecord),
            r matches Ok(a) ==> a@ == (AppView {
                name: name@,
                id: uuid_of_text(id@)->Some_0,
                status: status_of_code(status as int)->Some_0,
                created_at: created_at as u64,
                port: port as u16,
            }),
    {
        let id = match AppId::parse(id) {
            Ok(id) => id,
            Err(_) => return Err(HostError::CorruptRecord),
        };
        let status = match FunctionAppStatus::from_code(status) {
            Some(s) => s,
            None => return Err(HostError::CorruptRecord),
        };
        if created_at < 0 || port < 0 || port > 65535 {
            return Err(HostError::CorruptRecord);
        }
        Ok(FunctionApp { name, id, status, created_at: created_at as u64, port: port as u16 })
    }
}

impl Registry {
    /// A registry over stored records; `CorruptRecord` where they break its
    /// rules (a record in status `NotRegistered`, a port set on an app that
    /// does not run or missing on one that does, two records with one id or
    /// one name).
    pub fn from_records(records: Vec<FunctionApp>) -> (r: Result<Registry, HostError>)
        ensures
            r is Ok <==> apps_wf(records@.map_values(|a: FunctionApp| a@)),
            r is Err ==> r == Err::<Registry, HostError>(HostError::CorruptRecord),
            r matches Ok(reg) ==> reg@ == records@.map_values(|a: FunctionApp| a@),
    {
        let ghost v = records@.map_values(|a: FunctionApp| a@);
        let n = records.len();
        let mut i: usize = 0;
        while i < n
            invariant
                n == records@.len(),
                v == records@.map_values(|a: FunctionApp| a@),
                i <= n,
                forall|k: int| 0 <= k < i ==> record_wf(#[trigger] v[k]),
                forall|k: int, l: int|
                    0 <= k < i && 0 <= l < n && k != l ==> (#[trigger] v[k]).id != (#[trigger] v[l]).id
                        && v[k].name != v[l].name,
            decreases n - i,
        {
            let running = records[i].status == FunctionAppStatus::Running;
            if records[i].status == FunctionAppStatus::NotRegistered || (records[i].port != 0)
                != running {
                assert(!record_wf(v[i as int]));
                return Err(HostError::CorruptRecord);
            }
            let mut j: usize = 0;
            while j < n
                invariant
                    n == records@.len(),
                    v == records@.map_values(|a: FunctionApp| a@),
                    i < n,
                    j <= n,
                    forall|l: int|
                        0 <= l < j && l != i ==> (#[trigger] v[l]).id != v[i as int].id && v[l].name
                            != v[i as int].name,
                decreases n - j,
            {
                if j != i && (records[j].id.value == records[i].id.value || records[j].name
                    == records[i].name) {
                    assert(v[j as int].id == v[i as int].id || v[j as int].name == v[i as int].name);
                    return Err(HostError::CorruptRecord);
                }
                j += 1;
            }
            assert forall|k: int, l: int|
                0 <= k < i + 1 && 0 <= l < n && k != l implies (#[trigger] v[k]).id != (
                #[trigger] v[l]).id && v[k].name != v[l].name by {
                if k == i {
                    assert(v[l].id != v[i as int].id && v[l].name != v[i as int].name);
                }
            }
            i += 1;
        }
        let reg = Registry { apps: records };
        Ok(reg)
    }

    /// Sets the app at place `i` to `status` and `port`.
    fn set_state(&mut self, i: usize, status: FunctionAppStatus, port: u16)
        requires
            i < old(self)@.len(),
        ensures
            final(self)@ == old(self)@.update(
                i as int,
                AppView {
                    name: old(self)@[i as int].name,
                    id: old(self)@[i as int].id,
                    status,
                    created_at: old(self)@[i as int].created_at,
                    port,
                },
            ),
    {
        let updated = FunctionApp {
            name: self.apps[i].name.clone(),
            id: self.apps[i].id,
            status,
            created_at: self.apps[i].created_at,
            port,
        };
        self.apps.set(i, updated);
        assert(self@ =~= old(self)@.update(i as int, updated@));
    }

    /// Registers `name` under `id`, created at `created_at` (seconds since the
    /// Unix epoch), in status `Registered` with no port. `NameInUse` where an
    /// app has the name, `IdInUse` where one has the id; then nothing changes.
    pub fn add_new_function_app(&mut self, name: &str, id: AppId, created_at: u64) -> (r: Result<
        AppId,
        HostError,
    >)
        requires
            old(self).wf(),
        ensures
            final(self).wf(),
            (final(self)@, r) == register_outcome(old(self)@, name@, id.value, created_at),
    {
        if self.is_name_in_use(name) {
            return Err(HostError::NameInUse);
        }
        if self.position(id).is_some() {
            return Err(HostError::IdInUse);
        }
        let app = FunctionApp {
            name: String::from_str(name),
            id,
            status: FunctionAppStatus::Registered,
            created_at,
            port: 0,
        };
        self.apps.push(app);
        proof {
            lemma_register_keeps_wf(old(self)@, name@, id.value, created_at);
        }
        assert(self@ =~= old(self)@.push(registered_record(name@, id.value, created_at)));
        Ok(id)
    }

    /// Sets the status of the app with `id`, which is not `Running` (see
    /// `set_function_app_running`), and clears its port. `NotFound` where
    /// there is no such app; then nothing changes.
    pub fn set_function_app_status(&mut self, id: AppId, status: FunctionAppStatus) -> (r: Result<
        (),
        HostError,
    >)
        requires
            old(self).wf(),
            status != FunctionAppStatus::Running,
            status != FunctionAppStatus::NotRegistered,
        ensures
            final(self).wf(),
            final(self)@ == with_state(old(self)@, id.value, status, 0),
            r == if has_id(old(self)@, id.value) {
                Ok::<(), HostError>(())
            } else {
                Err::<(), HostError>(HostError::NotFound)
            },
    {
        proof {
            lemma_with_state_wf(self@, id.value, status, 0);
        }
        match self.position(id) {
            Some(i) => {
                self.set_state(i, status, 0);
                Ok(())
            },
            None => Err(HostError::NotFound),
        }
    }

    /// Marks the app with `id` as running on host port `port`. `NotFound`
    /// where there is no such app; then nothing changes.
    pub fn set_function_app_running(&mut self, id: AppId, port: u16) -> (r: Result<(), HostError>)
        requires
            old(self).wf(),
            port != 0,
        ensures
            final(self).wf(),
            final(self)@ == with_state(old(self)@, id.value, FunctionAppStatus::Running, port),
            r == if has_id(old(self)@, id.value) {
                Ok::<(), HostError>(())
            } else {
                Err::<(), HostError>(HostError::NotFound)
            },
    {
        proof {
            lemma_with_state_wf(self@, id.value, FunctionAppStatus::Running, port);
        }
        match self.position(id) {
            Some(i) => {
                self.set_state(i, FunctionAppStatus::Running, port);
                Ok(())
            },
            None => Err(HostError::NotFound),
        }
    }
}

} // verus!
