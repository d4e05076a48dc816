use vstd::prelude::*;

use crate::error::{native_failure, Error, Result};
use crate::wide::{c_wide, copy_until_nul, nul_free, to_c_wide, until_nul, wide_of};

verus! {

/// One entry of the table handed to the registration call: a nul-terminated service name and
/// the entry point the control authority calls for it.
pub struct ServiceTableEntry<F> {
    pub service_name: Option<Vec<u16>>,
    pub service_proc: Option<F>,
}

/// The closing `{ null, null }` entry.
pub open spec fn is_terminator<F>(e: ServiceTableEntry<F>) -> bool {
    e.service_name is None && e.service_proc is None
}

/// An entry that names a service and its entry point.
pub open spec fn is_service_entry<F>(e: ServiceTableEntry<F>) -> bool {
    &&& e.service_name is Some
    &&& e.service_proc is Some
    &&& e.service_name->0@.len() > 0
    &&& e.service_name->0@.last() == 0u16
    &&& nul_free(e.service_name->0@.drop_last())
}

/// A table the registration call may read: at least one service entry, and the terminator
/// last.
pub open spec fn well_formed_table<F>(t: Seq<ServiceTableEntry<F>>) -> bool {
    &&& t.len() >= 2
    &&& is_terminator(t.last())
    &&& forall|i: int| 0 <= i < t.len() - 1 ==> is_service_entry(#[trigger] t[i])
}

/// Checks a dispatch table before it goes to the control authority.
pub fn check_service_table<F>(table: &[ServiceTableEntry<F>]) -> (r: Result<()>)
    ensures
        r is Ok <==> well_formed_table(table@),
        r is Err ==> r == Err::<(), Error>(Error::InvalidServiceTable),
{
    let n = table.len();
    if n < 2 {
        return Err(Error::InvalidServiceTable);
    }
    if table[n - 1].service_name.is_some() || table[n - 1].service_proc.is_some() {
        return Err(Error::InvalidServiceTable);
    }
    let mut i: usize = 0;
    while i < n - 1
        invariant
            n == table@.len(),
            n >= 2,
            i <= n - 1,
            forall|k: int| 0 <= k < i ==> is_service_entry(#[trigger] table@[k]),
        decreases n - 1 - i,
    {
        let e = &table[i];
        if e.service_proc.is_none() {
            return Err(Error::InvalidServiceTable);
        }
        match &e.service_name {
            None => {
                return Err(Error::InvalidServiceTable);
            },
            Some(name) => {
                let len = name.len();
                if len == 0 || name[len - 1] != 0 {
                    return Err(Error::InvalidServiceTable);
                }
                let mut j: usize = 0;
                while j < len - 1
                    invariant
                        len == name@.len(),
                        len > 0,
                        n == table@.len(),
                        i < n - 1,
                        table@[i as int].service_name == Some(*name),
                        j <= len - 1,
                        forall|k: int| 0 <= k < j ==> name@[k] != 0u16,
                    decreases len - 1 - j,
                {
                    if name[j] == 0 {
                        assert(name@.drop_last()[j as int] == 0u16);
                        assert(!is_service_entry(table@[i as int]));
                        return Err(Error::InvalidServiceTable);
                    }
                    j = j + 1;
                }
                assert(nul_free(name@.drop_last()));
            },
        }
        i = i + 1;
    }
    Ok(())
}

/// Builds the table for the registration call: one entry naming `service_name` and
/// `service_main`, then the terminator. A name holding a nul is refused.
pub fn start<F>(service_name: &str, service_main: F) -> (r: Result<Vec<ServiceTableEntry<F>>>)
    ensures
        match r {
            Ok(t) => {
                &&& nul_free(wide_of(service_name@))
                &&& t@.len() == 2
                &&& t@[0].service_name is Some
                &&& t@[0].service_name->0@ == c_wide(wide_of(service_name@))
                &&& t@[0].service_proc == Some(service_main)
                &&& is_terminator(t@[1])
                &&& well_formed_table(t@)
            },
            Err(e) => !nul_free(wide_of(service_name@)) && e == Error::ArgumentHasNulByte,
        },
{
    let name = match to_c_wide(service_name) {
        Ok(v) => v,
        Err(e) => {
            return Err(e);
        },
    };
    let mut t: Vec<ServiceTableEntry<F>> = Vec::new();
    t.push(ServiceTableEntry { service_name: Some(name), service_proc: Some(service_main) });
    t.push(ServiceTableEntry { service_name: None, service_proc: None });
    proof {
        let w = wide_of(service_name@);
        let s = t@[0].service_name->0@;
        assert(s.drop_last() =~= w);
    }
    Ok(t)
}

/// Maps what the registration call returned: it fails only where the control authority
/// refused the table.
pub fn registration_result(outcome: core::result::Result<(), u32>) -> (r: Result<()>)
    ensures
        match outcome {
            Ok(()) => r is Ok,
            Err(status) => r == Err::<(), Error>(Error::Winapi(status)),
        },
{
    match outcome {
        Ok(()) => Ok(()),
        Err(status) => Err(native_failure(status)),
    }
}

/// Copies the arguments that the control authority passed to a service entry point into owned
/// wide strings, each without its terminator. `argv` holds the `argc` strings as they were
/// read from the authority's array.
pub fn parse_service_arguments(argc: u32, argv: &[Vec<u16>]) -> (r: Vec<Vec<u16>>)
    requires
        argc <= argv@.len(),
    ensures
        r@.len() == argc,
        forall|i: int| 0 <= i < argc ==> #[trigger] r@[i]@ == until_nul(argv@[i]@),
{
    let mut r: Vec<Vec<u16>> = Vec::new();
    let mut i: u32 = 0;
    while i < argc
        invariant
            i <= argc,
            argc <= argv@.len(),
            r@.len() == i,
            forall|k: int| 0 <= k < i ==> #[trigger] r@[k]@ == until_nul(argv@[k]@),
        decreases argc - i,
    {
        r.push(copy_until_nul(argv[i as usize].as_slice()));
        i = i + 1;
    }
    r
}

} // verus!
