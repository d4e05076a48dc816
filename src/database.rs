use vstd::prelude::*;

use crate::service_manager::{
    ConnectRequest, CreateServiceRequest, KeyNameRequest, OpenServiceRequest, SC_MANAGER_CONNECT,
    SC_MANAGER_CREATE_SERVICE,
};
use crate::wide::{c_wide, copy_until_nul, nul_free, same_units, until_nul};

verus! {

// Statuses the control authority reports.
pub const ERROR_ACCESS_DENIED: u32 = 5;
pub const ERROR_INVALID_HANDLE: u32 = 6;
pub const ERROR_NOT_ENOUGH_MEMORY: u32 = 8;
pub const ERROR_INSUFFICIENT_BUFFER: u32 = 122;
pub const ERROR_INVALID_NAME: u32 = 123;
pub const ERROR_SERVICE_DOES_NOT_EXIST: u32 = 1060;
pub const ERROR_DATABASE_DOES_NOT_EXIST: u32 = 1065;
pub const ERROR_SERVICE_EXISTS: u32 = 1073;
pub const ERROR_DUPLICATE_SERVICE_NAME: u32 = 1078;
pub const RPC_S_SERVER_UNAVAILABLE: u32 = 1722;

/// The most handles an in-memory database issues over its life.
pub const HANDLE_LIMIT: usize = 0x00FF_FFFF;

/// One issued handle: whether it is still open, whether it is a session (or a service), and
/// the rights it was opened with.
#[derive(Debug, Clone, Copy, PartialEq, Eq, Structural)]
pub struct HandleEntry {
    pub open: bool,
    pub manager: bool,
    pub access: u32,
}

/// One installed service: its name and display name, without terminators.
pub struct ServiceRecord {
    pub name: Vec<u16>,
    pub display_name: Vec<u16>,
}

/// How many of `handles` are still open.
pub open spec fn open_count(handles: Seq<HandleEntry>) -> nat
    decreases handles.len(),
{
    if handles.len() == 0 {
        0
    } else {
        open_count(handles.drop_last()) + if handles.last().open {
            1nat
        } else {
            0nat
        }
    }
}

pub proof fn lemma_open_count_bound(handles: Seq<HandleEntry>)
    ensures
        open_count(handles) <= handles.len(),
    decreases handles.len(),
{
    if handles.len() > 0 {
        lemma_open_count_bound(handles.drop_last());
    }
}

/// The state of an in-memory control authority: the installed services (name, display
/// name), every handle it issued (the handle at index `i` has token `i + 1`), and the number
/// of close calls it received.
pub ghost struct DatabaseModel {
    pub services: Seq<(Seq<u16>, Seq<u16>)>,
    pub handles: Seq<HandleEntry>,
    pub close_calls: u64,
}

impl DatabaseModel {
    /// Names and display names are unique, and the tokens fit the limit.
    pub open spec fn wf(self) -> bool {
        &&& self.handles.len() <= HANDLE_LIMIT
        &&& forall|i: int, j: int|
            0 <= i < j < self.services.len() ==> #[trigger] self.services[i].0
                != #[trigger] self.services[j].0
        &&& forall|i: int, j: int|
            0 <= i < j < self.services.len() ==> #[trigger] self.services[i].1
                != #[trigger] self.services[j].1
        &&& forall|i: int| 0 <= i < self.services.len() ==> nul_free(#[trigger] self.services[i].0)
    }

    /// `t` is an open session token.
    pub open spec fn valid_manager(self, t: usize) -> bool {
        &&& 1 <= t <= self.handles.len()
        &&& self.handles[t - 1].open
        &&& self.handles[t - 1].manager
    }

    pub open spec fn rights_of(self, t: usize) -> u32 {
        self.handles[t - 1].access
    }

    pub open spec fn has_name(self, n: Seq<u16>) -> bool {
        exists|i: int| 0 <= i < self.services.len() && #[trigger] self.services[i].0 == n
    }

    pub open spec fn has_display(self, d: Seq<u16>) -> bool {
        exists|i: int| 0 <= i < self.services.len() && #[trigger] self.services[i].1 == d
    }

    /// The name of the service whose display name is `d`.
    pub open spec fn name_of_display(self, d: Seq<u16>) -> Seq<u16> {
        self.services[choose|i: int| 0 <= i < self.services.len() && #[trigger] self.services[i].1 == d].0
    }

    /// The token the next issued handle gets.
    pub open spec fn next_token(self) -> usize {
        (self.handles.len() + 1) as usize
    }

    pub open spec fn issue(self, manager: bool, access: u32) -> DatabaseModel {
        DatabaseModel {
            handles: self.handles.push(HandleEntry { open: true, manager, access }),
            ..self
        }
    }

    /// Opening the database: only the local machine's active database can be had.
    pub open spec fn open_manager_spec(self, q: ConnectRequest) -> (DatabaseModel, Result<usize, u32>) {
        if q.machine_name is Some {
            (self, Err(RPC_S_SERVER_UNAVAILABLE))
        } else if q.database_name is Some {
            (self, Err(ERROR_DATABASE_DOES_NOT_EXIST))
        } else if self.handles.len() >= HANDLE_LIMIT {
            (self, Err(ERROR_NOT_ENOUGH_MEMORY))
        } else {
            (self.issue(true, q.access), Ok(self.next_token()))
        }
    }

    /// Creating a service: the session must hold the right to create, and the name and display
    /// name must be new.
    pub open spec fn create_service_spec(self, q: CreateServiceRequest) -> (DatabaseModel, Result<usize, u32>) {
        let n = until_nul(q.name@);
        let d = until_nul(q.display_name@);
        if !self.valid_manager(q.manager) {
            (self, Err(ERROR_INVALID_HANDLE))
        } else if self.rights_of(q.manager) & SC_MANAGER_CREATE_SERVICE == 0 {
            (self, Err(ERROR_ACCESS_DENIED))
        } else if n.len() == 0 {
            (self, Err(ERROR_INVALID_NAME))
        } else if self.has_name(n) {
            (self, Err(ERROR_SERVICE_EXISTS))
        } else if self.has_display(d) {
            (self, Err(ERROR_DUPLICATE_SERVICE_NAME))
        } else if self.handles.len() >= HANDLE_LIMIT {
            (self, Err(ERROR_NOT_ENOUGH_MEMORY))
        } else {
            (
                DatabaseModel { services: self.services.push((n, d)), ..self.issue(false, q.access) },
                Ok(self.next_token()),
            )
        }
    }

    /// Opening a service: the session must hold the right to connect, and the name must be
    /// installed.
    pub open spec fn open_service_spec(self, q: OpenServiceRequest) -> (DatabaseModel, Result<usize, u32>) {
        if !self.valid_manager(q.manager) {
            (self, Err(ERROR_INVALID_HANDLE))
        } else if self.rights_of(q.manager) & SC_MANAGER_CONNECT == 0 {
            (self, Err(ERROR_ACCESS_DENIED))
        } else if !self.has_name(until_nul(q.name@)) {
            (self, Err(ERROR_SERVICE_DOES_NOT_EXIST))
        } else if self.handles.len() >= HANDLE_LIMIT {
            (self, Err(ERROR_NOT_ENOUGH_MEMORY))
        } else {
            (self.issue(false, q.access), Ok(self.next_token()))
        }
    }

    /// Resolving a display name: the name and its terminator must fit the receive buffer.
    pub open spec fn key_name_spec(self, q: KeyNameRequest) -> Result<Seq<u16>, u32> {
        let d = until_nul(q.display_name@);
        if !self.valid_manager(q.manager) {
            Err(ERROR_INVALID_HANDLE)
        } else if !self.has_display(d) {
            Err(ERROR_SERVICE_DOES_NOT_EXIST)
        } else if self.name_of_display(d).len() + 1 > q.buffer_len {
            Err(ERROR_INSUFFICIENT_BUFFER)
        } else {
            Ok(c_wide(self.name_of_display(d)))
        }
    }

    /// Closing a handle: every call is counted; only an open token is closed.
    pub open spec fn close_spec(self, t: usize) -> (DatabaseModel, Result<(), u32>) {
        let counted = DatabaseModel {
            close_calls: if self.close_calls < u64::MAX {
                (self.close_calls + 1) as u64
            } else {
                self.close_calls
            },
            ..self
        };
        if 1 <= t <= self.handles.len() && self.handles[t - 1].open {
            (
                DatabaseModel {
                    handles: self.handles.update(t - 1, HandleEntry { open: false, ..self.handles[t - 1] }),
                    ..counted
                },
                Ok(()),
            )
        } else {
            (counted, Err(ERROR_INVALID_HANDLE))
        }
    }
}

/// An in-memory control authority: it answers the library's requests as the real one does,
/// and counts the close calls it receives.
pub struct ServiceDatabase {
    services: Vec<ServiceRecord>,
    handles: Vec<HandleEntry>,
    close_calls: u64,
}

impl View for ServiceDatabase {
    type V = DatabaseModel;

    closed spec fn view(&self) -> DatabaseModel {
        DatabaseModel {
            services: self.services@.map_values(|r: ServiceRecord| (r.name@, r.display_name@)),
            handles: self.handles@,
            close_calls: self.close_calls,
        }
    }
}

impl ServiceDatabase {
    /// A database with no services and no handles.
    pub fn new() -> (r: ServiceDatabase)
        ensures
            r@.services.len() == 0,
            r@.handles.len() == 0,
            r@.close_calls == 0,
            r@.wf(),
    {
        ServiceDatabase { services: Vec::new(), handles: Vec::new(), close_calls: 0 }
    }

    /// The number of close calls received.
    pub fn close_calls(&self) -> (r: u64)
        ensures
            r == self@.close_calls,
    {
        self.close_calls
    }

    /// The number of issued handles still open.
    pub fn open_handles(&self) -> (r: usize)
        ensures
            r == open_count(self@.handles),
    {
        let mut n: usize = 0;
        let mut i: usize = 0;
        while i < self.handles.len()
            invariant
                i <= self.handles@.len(),
                n == open_count(self.handles@.subrange(0, i as int)),
            decreases self.handles@.len() - i,
        {
            proof {
                let next = self.handles@.subrange(0, i + 1);
                assert(next.drop_last() =~= self.handles@.subrange(0, i as int));
                lemma_open_count_bound(self.handles@.subrange(0, i as int));
            }
            if self.handles[i].open {
                n = n + 1;
            }
            i = i + 1;
        }
        assert(self.handles@.subrange(0, i as int) =~= self.handles@);
        n
    }

    /// The index of the service whose name (or, with `display`, display name) is `key`.
    fn position(&self, key: &[u16], display: bool) -> (r: Option<usize>)
        ensures
            match r {
                Some(i) => i < self@.services.len() && (if display {
                    self@.services[i as int].1 == key@
                } else {
                    self@.services[i as int].0 == key@
                }),
                None => if display {
                    !self@.has_display(key@)
                } else {
                    !self@.has_name(key@)
                },
            },
    {
        let mut i: usize = 0;
        while i < self.services.len()
            invariant
                i <= self.services@.len(),
                display ==> forall|k: int| 0 <= k < i ==> #[trigger] self@.services[k].1 != key@,
                !display ==> forall|k: int| 0 <= k < i ==> #[trigger] self@.services[k].0 != key@,
            decreases self.services@.len() - i,
        {
            let r = &self.services[i];
            let found = if display {
                same_units(r.display_name.as_slice(), key)
            } else {
                same_units(r.name.as_slice(), key)
            };
            assert(self@.services[i as int] == (r.name@, r.display_name@));
            if found {
                return Some(i);
            }
            i = i + 1;
        }
        None
    }

    fn valid_manager(&self, t: usize) -> (r: bool)
        ensures
            r == self@.valid_manager(t),
    {
        t >= 1 && t <= self.handles.len() && self.handles[t - 1].open && self.handles[t - 1].manager
    }

    fn issue(&mut self, manager: bool, access: u32) -> (r: usize)
        requires
            old(self)@.handles.len() < HANDLE_LIMIT,
        ensures
            final(self)@ == old(self)@.issue(manager, access),
            r == old(self)@.next_token(),
    {
        self.handles.push(HandleEntry { open: true, manager, access });
        proof {
            assert(final(self)@.handles =~= old(self)@.issue(manager, access).handles);
        }
        self.handles.len()
    }

    /// Answers an open-database call.
    pub fn open_manager(&mut self, q: &ConnectRequest) -> (r: Result<usize, u32>)
        requires
            old(self)@.wf(),
        ensures
            (final(self)@, r) == old(self)@.open_manager_spec(*q),
            final(self)@.wf(),
    {
        if q.machine_name.is_some() {
            Err(RPC_S_SERVER_UNAVAILABLE)
        } else if q.database_name.is_some() {
            Err(ERROR_DATABASE_DOES_NOT_EXIST)
        } else if self.handles.len() >= HANDLE_LIMIT {
            Err(ERROR_NOT_ENOUGH_MEMORY)
        } else {
            Ok(self.issue(true, q.access))
        }
    }

    /// Answers a create-service call.
    pub fn create_service(&mut self, q: &CreateServiceRequest) -> (r: Result<usize, u32>)
        requires
            old(self)@.wf(),
        ensures
            (final(self)@, r) == old(self)@.create_service_spec(*q),
            final(self)@.wf(),
    {
        if !self.valid_manager(q.manager) {
            return Err(ERROR_INVALID_HANDLE);
        }
        if self.handles[q.manager - 1].access & SC_MANAGER_CREATE_SERVICE == 0 {
            return Err(ERROR_ACCESS_DENIED);
        }
        let n = copy_until_nul(q.name.as_slice());
        let d = copy_until_nul(q.display_name.as_slice());
        if n.len() == 0 {
            return Err(ERROR_INVALID_NAME);
        }
        if self.position(n.as_slice(), false).is_some() {
            return Err(ERROR_SERVICE_EXISTS);
        }
        if self.position(d.as_slice(), true).is_some() {
            return Err(ERROR_DUPLICATE_SERVICE_NAME);
        }
        if self.handles.len() >= HANDLE_LIMIT {
            return Err(ERROR_NOT_ENOUGH_MEMORY);
        }
        let ghost before = self@;
        self.services.push(ServiceRecord { name: n, display_name: d });
        let t = self.issue(false, q.access);
        proof {
            assert(self@.services =~= before.services.push((until_nul(q.name@), until_nul(q.display_name@))));
            assert(self@ == DatabaseModel {
                services: before.services.push((until_nul(q.name@), until_nul(q.display_name@))),
                ..before.issue(false, q.access)
            });
        }
        Ok(t)
    }

    /// Answers an open-service call.
    pub fn open_service(&mut self, q: &OpenServiceRequest) -> (r: Result<usize, u32>)
        requires
            old(self)@.wf(),
        ensures
            (final(self)@, r) == old(self)@.open_service_spec(*q),
            final(self)@.wf(),
    {
        if !self.valid_manager(q.manager) {
            return Err(ERROR_INVALID_HANDLE);
        }
        if self.handles[q.manager - 1].access & SC_MANAGER_CONNECT == 0 {
            return Err(ERROR_ACCESS_DENIED);
        }
        let n = copy_until_nul(q.name.as_slice());
        if self.position(n.as_slice(), false).is_none() {
            return Err(ERROR_SERVICE_DOES_NOT_EXIST);
        }
        if self.handles.len() >= HANDLE_LIMIT {
            return Err(ERROR_NOT_ENOUGH_MEMORY);
        }
        Ok(self.issue(false, q.access))
    }

    /// Answers a name lookup: what the call writes into the receive buffer.
    pub fn get_service_key_name(&self, q: &KeyNameRequest) -> (r: Result<Vec<u16>, u32>)
        requires
            self@.wf(),
        ensures
            match self@.key_name_spec(*q) {
                Ok(s) => r is Ok && r->Ok_0@ == s,
                Err(e) => r == Err::<Vec<u16>, u32>(e),
            },
    {
        if !self.valid_manager(q.manager) {
            return Err(ERROR_INVALID_HANDLE);
        }
        let d = copy_until_nul(q.display_name.as_slice());
        let i = match self.position(d.as_slice(), true) {
            None => {
                return Err(ERROR_SERVICE_DOES_NOT_EXIST);
            },
            Some(i) => i,
        };
        proof {
            let m = self@;
            let j = choose|j: int| 0 <= j < m.services.len() && #[trigger] m.services[j].1 == d@;
            if j != i as int {
                if j < i {
                    assert(m.services[j].1 != m.services[i as int].1);
                } else {
                    assert(m.services[i as int].1 != m.services[j].1);
                }
            }
            assert(m.name_of_display(d@) == m.services[i as int].0);
        }
        let name = &self.services[i].name;
        assert(name@ == self@.services[i as int].0);
        if name.len() >= q.buffer_len as usize {
            return Err(ERROR_INSUFFICIENT_BUFFER);
        }
        let mut out = copy_until_nul(name.as_slice());
        proof {
            assert(nul_free(self@.services[i as int].0));
            assert(name@.subrange(0, name@.len() as int) =~= name@);
            crate::wide::lemma_until_nul_of_prefix(name@, name@.len() as int);
        }
        out.push(0);
        Ok(out)
    }

    /// Answers a close call.
    pub fn close_service_handle(&mut self, t: usize) -> (r: Result<(), u32>)
        requires
            old(self)@.wf(),
        ensures
            (final(self)@, r) == old(self)@.close_spec(t),
            final(self)@.wf(),
    {
        if self.close_calls < u64::MAX {
            self.close_calls = self.close_calls + 1;
        }
        if t >= 1 && t <= self.handles.len() && self.handles[t - 1].open {
            let mut e = self.handles[t - 1];
            e.open = false;
            self.handles.set(t - 1, e);
            assert(self@.services == old(self)@.services);
            Ok(())
        } else {
            Err(ERROR_INVALID_HANDLE)
        }
    }
}

/// A nul-free name read back from its nul-terminated form is the name itself.
pub proof fn lemma_until_nul_c_wide(w: Seq<u16>)
    requires
        nul_free(w),
    ensures
        until_nul(c_wide(w)) == w,
{
    let s = c_wide(w);
    assert(s.subrange(0, w.len() as int) =~= w);
    crate::wide::lemma_until_nul_of_prefix(s, w.len() as int);
}

/// Once a service named `w` was created through a session that holds the right to connect,
/// opening it by that name through the same session succeeds, and twice in a row gives two
/// tokens that differ from each other and from every token issued before (those run from 1
/// to the number of handles issued).
pub proof fn lemma_open_after_create(
    m: DatabaseModel,
    c: CreateServiceRequest,
    o: OpenServiceRequest,
    w: Seq<u16>,
)
    requires
        m.wf(),
        w.len() > 0,
        nul_free(w),
        c.name@ == c_wide(w),
        o.name@ == c_wide(w),
        o.manager == c.manager,
        m.create_service_spec(c).1 is Ok,
        m.rights_of(c.manager) & SC_MANAGER_CONNECT != 0,
        m.handles.len() + 3 <= HANDLE_LIMIT,
    ensures
        ({
            let (m1, r1) = m.create_service_spec(c);
            let (m2, r2) = m1.open_service_spec(o);
            let (m3, r3) = m2.open_service_spec(o);
            &&& r2 is Ok
            &&& r3 is Ok
            &&& r2->Ok_0 != r3->Ok_0
            &&& r2->Ok_0 != r1->Ok_0
            &&& r3->Ok_0 != r1->Ok_0
            &&& r2->Ok_0 > m.handles.len()
            &&& r3->Ok_0 > m.handles.len()
        }),
{
    lemma_until_nul_c_wide(w);
    let (m1, r1) = m.create_service_spec(c);
    let d = until_nul(c.display_name@);
    assert(m1.services.last() == (w, d));
    assert(m1.services[m1.services.len() - 1].0 == w);
    assert(m1.has_name(w));
    assert(m1.handles[c.manager - 1] == m.handles[c.manager - 1]);
    let (m2, r2) = m1.open_service_spec(o);
    assert(m2.services == m1.services);
    assert(m2.handles[c.manager - 1] == m.handles[c.manager - 1]);
    assert(m2.has_name(w));
}

/// Opening a name that no service carries fails with a status, and changes nothing.
pub proof fn lemma_open_unknown_fails(m: DatabaseModel, o: OpenServiceRequest)
    requires
        !m.has_name(until_nul(o.name@)),
    ensures
        m.open_service_spec(o).1 is Err,
        m.open_service_spec(o).0 == m,
{
}

/// A resolved name is never cut: the lookup writes the whole name and its terminator, or
/// fails with a status where they do not fit the buffer.
pub proof fn lemma_key_name_never_cut(m: DatabaseModel, q: KeyNameRequest)
    requires
        m.valid_manager(q.manager),
        m.has_display(until_nul(q.display_name@)),
    ensures
        ({
            let n = m.name_of_display(until_nul(q.display_name@));
            &&& n.len() >= q.buffer_len ==> m.key_name_spec(q) == Err::<Seq<u16>, u32>(ERROR_INSUFFICIENT_BUFFER)
            &&& n.len() < q.buffer_len ==> m.key_name_spec(q) == Ok::<Seq<u16>, u32>(c_wide(n))
        }),
{
}

} // verus!
