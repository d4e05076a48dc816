use vstd::prelude::*;

use crate::error::{native_failure, Error, Result};
use crate::sc_handle::{HandleState, ScHandle};
use crate::wide::{contains_unit, encode_wide, nul_free, wide_of};

verus! {

// Rights over one service, as the control authority numbers them.
pub const SERVICE_QUERY_CONFIG: u32 = 0x0001;
pub const SERVICE_CHANGE_CONFIG: u32 = 0x0002;
pub const SERVICE_QUERY_STATUS: u32 = 0x0004;
pub const SERVICE_START: u32 = 0x0010;
pub const SERVICE_STOP: u32 = 0x0020;
pub const SERVICE_PAUSE_CONTINUE: u32 = 0x0040;
pub const SERVICE_INTERROGATE: u32 = 0x0080;
pub const SERVICE_DELETE: u32 = 0x0001_0000;
pub const SERVICE_ALL_ACCESS: u32 = 0x000F_01FF;

/// Rights requested over one service. The bits go to the control authority unchanged.
#[derive(Debug, Clone, Copy, PartialEq, Eq, Structural)]
pub struct ServiceAccess {
    pub bits: u32,
}

impl ServiceAccess {
    pub fn from_bits(bits: u32) -> (r: ServiceAccess)
        ensures
            r.bits == bits,
    {
        ServiceAccess { bits }
    }

    pub fn bits(&self) -> (r: u32)
        ensures
            r == self.bits,
    {
        self.bits
    }

    /// The rights of both sets.
    pub fn union(self, other: ServiceAccess) -> (r: ServiceAccess)
        ensures
            r.bits == self.bits | other.bits,
    {
        ServiceAccess { bits: self.bits | other.bits }
    }
}

/// How a service is to be installed. The `u32` codes (service type, start type, error
/// control) go to the control authority unchanged.
pub struct ServiceInfo {
    pub name: String,
    pub display_name: String,
    pub service_type: u32,
    pub start_type: u32,
    pub error_control: u32,
    pub executable_path: String,
    pub launch_arguments: Vec<String>,
    pub dependencies: Vec<String>,
    pub account_name: Option<String>,
    pub account_password: Option<String>,
}

pub open spec fn space() -> u16 {
    0x20u16
}

pub open spec fn quote() -> u16 {
    0x22u16
}

/// The executable path as it opens a command line: in double quotes where it holds a space.
pub open spec fn quoted_path(p: Seq<u16>) -> Seq<u16> {
    if p.contains(space()) {
        seq![quote()] + p + seq![quote()]
    } else {
        p
    }
}

/// A command line: the executable path, then each argument after one space.
pub open spec fn command_line(path: Seq<u16>, args: Seq<Seq<u16>>) -> Seq<u16>
    decreases args.len(),
{
    if args.len() == 0 {
        quoted_path(path)
    } else {
        command_line(path, args.drop_last()) + seq![space()] + args.last()
    }
}

/// Builds the command line the control authority runs, without its terminator. A path or an
/// argument that holds a nul is refused.
pub fn launch_command(path: &str, arguments: &[String]) -> (r: Result<Vec<u16>>)
    ensures
        match r {
            Ok(v) => {
                &&& nul_free(wide_of(path@))
                &&& forall|i: int| 0 <= i < arguments@.len() ==> nul_free(#[trigger] wide_of(arguments@[i]@))
                &&& v@ == command_line(wide_of(path@), crate::wide::wide_all(arguments@))
            },
            Err(e) => {
                &&& e == Error::ArgumentHasNulByte
                &&& (!nul_free(wide_of(path@)) || exists|i: int| 0 <= i < arguments@.len() && !nul_free(#[trigger] wide_of(arguments@[i]@)))
            },
        },
{
    let p = encode_wide(path);
    if contains_unit(p.as_slice(), 0) {
        return Err(Error::ArgumentHasNulByte);
    }
    let mut v: Vec<u16> = Vec::new();
    let quoted = contains_unit(p.as_slice(), 0x20);
    if quoted {
        v.push(0x22);
    }
    let mut j: usize = 0;
    let ghost start = v@;
    while j < p.len()
        invariant
            j <= p@.len(),
            v@ == start + p@.subrange(0, j as int),
        decreases p@.len() - j,
    {
        v.push(p[j]);
        j = j + 1;
        assert(v@ =~= start + p@.subrange(0, j as int));
    }
    assert(p@.subrange(0, j as int) =~= p@);
    if quoted {
        v.push(0x22);
    }
    assert(v@ =~= quoted_path(p@));
    let mut i: usize = 0;
    while i < arguments.len()
        invariant
            i <= arguments@.len(),
            nul_free(wide_of(path@)),
            p@ == wide_of(path@),
            forall|k: int| 0 <= k < i ==> nul_free(#[trigger] wide_of(arguments@[k]@)),
            v@ == command_line(p@, crate::wide::wide_all(arguments@.subrange(0, i as int))),
        decreases arguments@.len() - i,
    {
        let w = encode_wide(arguments[i].as_str());
        if contains_unit(w.as_slice(), 0) {
            return Err(Error::ArgumentHasNulByte);
        }
        v.push(0x20);
        let ghost before = v@;
        let mut j: usize = 0;
        while j < w.len()
            invariant
                j <= w@.len(),
                v@ == before + w@.subrange(0, j as int),
            decreases w@.len() - j,
        {
            v.push(w[j]);
            j = j + 1;
            assert(v@ =~= before + w@.subrange(0, j as int));
        }
        proof {
            let done = crate::wide::wide_all(arguments@.subrange(0, i + 1));
            assert(done.drop_last() =~= crate::wide::wide_all(arguments@.subrange(0, i as int)));
            assert(done.last() == wide_of(arguments@[i as int]@));
            assert(w@.subrange(0, j as int) =~= w@);
            assert(v@ =~= command_line(p@, done));
        }
        i = i + 1;
    }
    assert(arguments@.subrange(0, i as int) =~= arguments@);
    Ok(v)
}

/// An open service: the handle the control authority issued for it.
pub struct Service {
    handle: ScHandle,
}

impl View for Service {
    type V = HandleState;

    closed spec fn view(&self) -> HandleState {
        self.handle@
    }
}

impl Service {
    /// Takes ownership of a service handle.
    pub fn new(handle: ScHandle) -> (r: Service)
        ensures
            r@ == handle@,
    {
        Service { handle }
    }

    /// Maps what an open or create call returned: a token becomes an open service, a status
    /// the native-call error.
    pub fn from_native(outcome: core::result::Result<usize, u32>) -> (r: Result<Service>)
        ensures
            match outcome {
                Ok(t) => r is Ok && r->Ok_0@ == (HandleState { token: t, open: true }),
                Err(status) => r is Err && r->Err_0 == Error::Winapi(status),
            },
    {
        match outcome {
            Ok(t) => Ok(Service::new(ScHandle::new(t))),
            Err(status) => Err(native_failure(status)),
        }
    }

    /// The service's token, lent for one native call.
    pub fn raw_handle(&self) -> (r: usize)
        ensures
            r == self@.token,
    {
        self.handle.raw_handle()
    }

    /// Hands out the token to close, the first time only.
    pub fn release(&mut self) -> (r: Option<usize>)
        ensures
            (final(self)@, r) == crate::sc_handle::release_state(old(self)@),
    {
        self.handle.release()
    }
}

} // verus!
