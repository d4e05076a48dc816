use vstd::prelude::*;

use crate::error::{native_failure, Error, Result};
use crate::sc_handle::{release_state, HandleState, ScHandle};
use crate::service::{command_line, launch_command, ServiceAccess, ServiceInfo};
use crate::wide::{
    c_wide, contains_unit, copy_until_nul, double_nul_list, nul_free, to_c_wide, to_c_wide_opt,
    to_double_nul_list, until_nul, wide_all, wide_of,
};

verus! {

// Rights over the control authority's database, as the authority numbers them.
pub const SC_MANAGER_CONNECT: u32 = 0x0001;
pub const SC_MANAGER_CREATE_SERVICE: u32 = 0x0002;
pub const SC_MANAGER_ENUMERATE_SERVICE: u32 = 0x0004;
pub const SC_MANAGER_ALL_ACCESS: u32 = 0x000F_003F;

/// The size, in wide units, of the buffer that receives a service name: the largest the
/// control authority writes.
pub const KEY_NAME_BUFFER_LEN: u32 = 2048;

/// Rights requested over the control authority's database. The bits go to the authority
/// unchanged.
#[derive(Debug, Clone, Copy, PartialEq, Eq, Structural)]
pub struct ServiceManagerAccess {
    pub bits: u32,
}

impl ServiceManagerAccess {
    pub fn from_bits(bits: u32) -> (r: ServiceManagerAccess)
        ensures
            r.bits == bits,
    {
        ServiceManagerAccess { bits }
    }

    pub fn bits(&self) -> (r: u32)
        ensures
            r == self.bits,
    {
        self.bits
    }

    /// The rights of both sets.
    pub fn union(self, other: ServiceManagerAccess) -> (r: ServiceManagerAccess)
        ensures
            r.bits == self.bits | other.bits,
    {
        ServiceManagerAccess { bits: self.bits | other.bits }
    }
}

/// The arguments of the call that opens the database. `None` goes as a null pointer: the
/// local machine, and its active database.
pub struct ConnectRequest {
    pub machine_name: Option<Vec<u16>>,
    pub database_name: Option<Vec<u16>>,
    pub access: u32,
}

/// The arguments of the call that creates a service. The load-order group and tag are always
/// null; `None` goes as a null pointer.
pub struct CreateServiceRequest {
    pub manager: usize,
    pub name: Vec<u16>,
    pub display_name: Vec<u16>,
    pub access: u32,
    pub service_type: u32,
    pub start_type: u32,
    pub error_control: u32,
    pub binary_path: Vec<u16>,
    pub dependencies: Option<Vec<u16>>,
    pub account_name: Option<Vec<u16>>,
    pub account_password: Option<Vec<u16>>,
}

/// The arguments of the call that opens a service.
pub struct OpenServiceRequest {
    pub manager: usize,
    pub name: Vec<u16>,
    pub access: u32,
}

/// The arguments of the call that resolves a display name to a service name.
pub struct KeyNameRequest {
    pub manager: usize,
    pub display_name: Vec<u16>,
    pub buffer_len: u32,
}

/// An optional string as it goes to the control authority.
pub open spec fn wide_opt(s: Option<String>) -> Option<Seq<u16>> {
    match s {
        Some(t) => Some(c_wide(wide_of(t@))),
        None => None,
    }
}

pub open spec fn opt_view(v: Option<Vec<u16>>) -> Option<Seq<u16>> {
    match v {
        Some(t) => Some(t@),
        None => None,
    }
}

/// Whether an optional string can be handed over: absent, or free of nuls.
pub open spec fn opt_nul_free(s: Option<String>) -> bool {
    match s {
        Some(t) => nul_free(wide_of(t@)),
        None => true,
    }
}

pub open spec fn all_nul_free(items: Seq<String>) -> bool {
    forall|i: int| 0 <= i < items.len() ==> nul_free(#[trigger] wide_of(items[i]@))
}

/// Every string of the descriptor can be handed over.
pub open spec fn info_encodable(info: &ServiceInfo) -> bool {
    &&& nul_free(wide_of(info.name@))
    &&& nul_free(wide_of(info.display_name@))
    &&& nul_free(wide_of(info.executable_path@))
    &&& all_nul_free(info.launch_arguments@)
    &&& all_nul_free(info.dependencies@)
    &&& opt_nul_free(info.account_name)
    &&& opt_nul_free(info.account_password)
}

/// The dependency block of a descriptor: none for an empty list.
pub open spec fn dependency_block(deps: Seq<String>) -> Option<Seq<u16>> {
    if deps.len() == 0 {
        None
    } else {
        Some(double_nul_list(wide_all(deps)))
    }
}

/// The request that `create_service` owes for `info`.
pub open spec fn create_request_matches(
    q: CreateServiceRequest,
    manager: usize,
    info: &ServiceInfo,
    access: ServiceAccess,
) -> bool {
    &&& q.manager == manager
    &&& q.name@ == c_wide(wide_of(info.name@))
    &&& q.display_name@ == c_wide(wide_of(info.display_name@))
    &&& q.access == access.bits
    &&& q.service_type == info.service_type
    &&& q.start_type == info.start_type
    &&& q.error_control == info.error_control
    &&& q.binary_path@ == c_wide(
        command_line(wide_of(info.executable_path@), wide_all(info.launch_arguments@)),
    )
    &&& opt_view(q.dependencies) == dependency_block(info.dependencies@)
    &&& opt_view(q.account_name) == wide_opt(info.account_name)
    &&& opt_view(q.account_password) == wide_opt(info.account_password)
}

/// A session with the control authority's database: the handle that the open call issued.
pub struct ServiceManager {
    manager_handle: ScHandle,
}

impl View for ServiceManager {
    type V = HandleState;

    closed spec fn view(&self) -> HandleState {
        self.manager_handle@
    }
}

impl ServiceManager {
    /// The open call's arguments for a target machine (`None`: this one) and a database
    /// (`None`: the active one).
    fn new(machine: Option<&str>, database: Option<&str>, request_access: ServiceManagerAccess)
        -> (r: Result<ConnectRequest>)
        ensures
            match r {
                Ok(q) => {
                    &&& opt_view(q.machine_name) == wide_opt_str(machine)
                    &&& opt_view(q.database_name) == wide_opt_str(database)
                    &&& q.access == request_access.bits
                },
                Err(e) => e == Error::ArgumentHasNulByte && !(opt_str_nul_free(machine)
                    && opt_str_nul_free(database)),
            },
            r is Ok <==> opt_str_nul_free(machine) && opt_str_nul_free(database),
    {
        let machine_name = match to_c_wide_opt(machine) {
            Ok(m) => m,
            Err(e) => {
                return Err(e);
            },
        };
        let database_name = match to_c_wide_opt(database) {
            Ok(d) => d,
            Err(e) => {
                return Err(e);
            },
        };
        Ok(ConnectRequest { machine_name, database_name, access: request_access.bits })
    }

    /// The open call's arguments for the local machine: a null machine name.
    pub fn local_computer(database: Option<&str>, request_access: ServiceManagerAccess) -> (r:
        Result<ConnectRequest>)
        ensures
            match r {
                Ok(q) => {
                    &&& q.machine_name is None
                    &&& opt_view(q.database_name) == wide_opt_str(database)
                    &&& q.access == request_access.bits
                },
                Err(e) => e == Error::ArgumentHasNulByte,
            },
            r is Ok <==> opt_str_nul_free(database),
    {
        ServiceManager::new(None, database, request_access)
    }

    /// The open call's arguments for a remote machine, addressed by name.
    pub fn remote_computer(
        machine: &str,
        database: Option<&str>,
        request_access: ServiceManagerAccess,
    ) -> (r: Result<ConnectRequest>)
        ensures
            match r {
                Ok(q) => {
                    &&& opt_view(q.machine_name) == Some(c_wide(wide_of(machine@)))
                    &&& opt_view(q.database_name) == wide_opt_str(database)
                    &&& q.access == request_access.bits
                },
                Err(e) => e == Error::ArgumentHasNulByte,
            },
            r is Ok <==> nul_free(wide_of(machine@)) && opt_str_nul_free(database),
    {
        ServiceManager::new(Some(machine), database, request_access)
    }

    /// Maps what the open call returned: a token becomes a session, a status the native-call
    /// error.
    pub fn from_native(outcome: core::result::Result<usize, u32>) -> (r: Result<ServiceManager>)
        ensures
            match outcome {
                Ok(t) => r is Ok && r->Ok_0@ == (HandleState { token: t, open: true }),
                Err(status) => r is Err && r->Err_0 == Error::Winapi(status),
            },
    {
        match outcome {
            Ok(t) => Ok(ServiceManager { manager_handle: ScHandle::new(t) }),
            Err(status) => Err(native_failure(status)),
        }
    }

    /// The session's token, lent for one native call.
    pub fn raw_handle(&self) -> (r: usize)
        ensures
            r == self@.token,
    {
        self.manager_handle.raw_handle()
    }

    /// Hands out the session's token to close, the first time only.
    pub fn release(&mut self) -> (r: Option<usize>)
        ensures
            (final(self)@, r) == release_state(old(self)@),
    {
        self.manager_handle.release()
    }

    /// The create call's arguments for `service_info`. Fails, before any call, where one of
    /// the descriptor's strings holds a nul.
    pub fn create_service(&self, service_info: &ServiceInfo, service_access: ServiceAccess) -> (r:
        Result<CreateServiceRequest>)
        ensures
            r is Ok <==> info_encodable(service_info),
            match r {
                Ok(q) => create_request_matches(q, self@.token, service_info, service_access),
                Err(e) => e == Error::ArgumentHasNulByte,
            },
    {
        let name = match to_c_wide(service_info.name.as_str()) {
            Ok(v) => v,
            Err(e) => {
                return Err(e);
            },
        };
        let display_name = match to_c_wide(service_info.display_name.as_str()) {
            Ok(v) => v,
            Err(e) => {
                return Err(e);
            },
        };
        let mut binary_path = match launch_command(
            service_info.executable_path.as_str(),
            service_info.launch_arguments.as_slice(),
        ) {
            Ok(v) => v,
            Err(e) => {
                return Err(e);
            },
        };
        binary_path.push(0);
        let dependencies = match to_double_nul_list(service_info.dependencies.as_slice()) {
            Ok(v) => v,
            Err(e) => {
                return Err(e);
            },
        };
        let account_name = match &service_info.account_name {
            None => None,
            Some(s) => match to_c_wide(s.as_str()) {
                Ok(v) => Some(v),
                Err(e) => {
                    return Err(e);
                },
            },
        };
        let account_password = match &service_info.account_password {
            None => None,
            Some(s) => match to_c_wide(s.as_str()) {
                Ok(v) => Some(v),
                Err(e) => {
                    return Err(e);
                },
            },
        };
        Ok(CreateServiceRequest {
            manager: self.manager_handle.raw_handle(),
            name,
            display_name,
            access: service_access.bits,
            service_type: service_info.service_type,
            start_type: service_info.start_type,
            error_control: service_info.error_control,
            binary_path,
            dependencies,
            account_name,
            account_password,
        })
    }

    /// The open call's arguments for the service named `name`.
    pub fn open_service(&self, name: &str, request_access: ServiceAccess) -> (r: Result<
        OpenServiceRequest,
    >)
        ensures
            r is Ok <==> nul_free(wide_of(name@)),
            match r {
                Ok(q) => q.manager == self@.token && q.name@ == c_wide(wide_of(name@)) && q.access
                    == request_access.bits,
                Err(e) => e == Error::ArgumentHasNulByte,
            },
    {
        let name = match to_c_wide(name) {
            Ok(v) => v,
            Err(e) => {
                return Err(e);
            },
        };
        Ok(OpenServiceRequest {
            manager: self.manager_handle.raw_handle(),
            name,
            access: request_access.bits,
        })
    }

    /// The lookup call's arguments for `display_name`, with a receive buffer of
    /// `KEY_NAME_BUFFER_LEN` units.
    pub fn service_name_from_display_name(&self, display_name: &str) -> (r: Result<
        KeyNameRequest,
    >)
        ensures
            r is Ok <==> nul_free(wide_of(display_name@)),
            match r {
                Ok(q) => q.manager == self@.token && q.display_name@ == c_wide(
                    wide_of(display_name@),
                ) && q.buffer_len == KEY_NAME_BUFFER_LEN,
                Err(e) => e == Error::ArgumentHasNulByte,
            },
    {
        let display_name = match to_c_wide(display_name) {
            Ok(v) => v,
            Err(e) => {
                return Err(e);
            },
        };
        Ok(KeyNameRequest {
            manager: self.manager_handle.raw_handle(),
            display_name,
            buffer_len: KEY_NAME_BUFFER_LEN,
        })
    }
}

pub open spec fn opt_str_nul_free(s: Option<&str>) -> bool {
    match s {
        Some(t) => nul_free(wide_of(t@)),
        None => true,
    }
}

pub open spec fn wide_opt_str(s: Option<&str>) -> Option<Seq<u16>> {
    match s {
        Some(t) => Some(c_wide(wide_of(t@))),
        None => None,
    }
}

/// Reads the service name out of what the lookup call wrote: a status becomes the native-call
/// error, and a buffer without a terminator is refused rather than read as a cut name.
pub fn key_name_result(outcome: core::result::Result<Vec<u16>, u32>) -> (r: Result<Vec<u16>>)
    ensures
        match outcome {
            Ok(buffer) => if nul_free(buffer@) {
                r == Err::<Vec<u16>, Error>(Error::MissingNulTerminator)
            } else {
                r is Ok && r->Ok_0@ == until_nul(buffer@)
            },
            Err(status) => r == Err::<Vec<u16>, Error>(Error::Winapi(status)),
        },
{
    match outcome {
        Ok(buffer) => {
            if !contains_unit(buffer.as_slice(), 0) {
                Err(Error::MissingNulTerminator)
            } else {
                Ok(copy_until_nul(buffer.as_slice()))
            }
        },
        Err(status) => Err(native_failure(status)),
    }
}

} // verus!
