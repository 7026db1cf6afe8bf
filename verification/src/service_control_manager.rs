//! Decisions of the client-side service-control-manager component: the
//! access level it opens the manager with, the command line it registers for
//! the service, and the poll-loop decisions it takes while waiting for a
//! service to start or stop. The calls into the operating system that carry
//! these decisions out live with the host plumbing.

use vstd::prelude::*;

verus! {

/// Error code reported when a service being waited on settles in an
/// unexpected state.
pub const ERROR_GEN_FAILURE: u32 = 31;

/// Raw access mask asked of the service control manager for `Access::All`.
pub const SC_MANAGER_ALL_ACCESS: u32 = 0xF003F;

/// Account name a service may run under: the local service account.
pub const LOCAL_SERVICE: &'static str = "NT AUTHORITY\\LocalService";

/// Account name a service may run under: the network service account.
pub const NETWORK_SERVICE: &'static str = "NT AUTHORITY\\NetworkService";

/// The access asked for when opening the service control manager.
#[derive(Copy, Clone, PartialEq, Eq, Structural, Debug)]
pub enum Access {
    All,
}

impl Access {
    /// The raw access mask this access level stands for.
    pub fn into_raw(self) -> (r: u32)
        ensures
            r == SC_MANAGER_ALL_ACCESS,
    {
        match self {
            Access::All => SC_MANAGER_ALL_ACCESS,
        }
    }
}

/// What one observation of a polled service status calls for, while waiting
/// for the service to reach a target state.
#[derive(Clone, Copy, PartialEq, Eq, Structural, Debug)]
pub enum ServicePollStep {
    /// The target state was observed; the wait is over.
    Complete,
    /// The transition is still pending; sleep for the service's wait hint
    /// and poll again.
    Wait,
    /// On the first observation, the service is neither at the target nor
    /// pending: it was never asked to transition, and the caller should
    /// issue the transition request.
    Absent,
    /// After the transition was under way, the service settled somewhere
    /// other than the target: the wait has failed.
    Failed,
}

/// The decision one status observation calls for. `initial` says whether
/// this is the first observation, before any transition request was issued;
/// only then may the caller conclude the transition is absent rather than
/// failed.
pub fn poll_step(observed_state: u32, target_state: u32, pending_state: u32, initial: bool) -> (r:
    ServicePollStep)
    requires
        target_state != pending_state,
    ensures
        r is Complete <==> observed_state == target_state,
        r is Wait <==> observed_state == pending_state,
        r is Absent <==> observed_state != target_state && observed_state != pending_state
            && initial,
        r is Failed <==> observed_state != target_state && observed_state != pending_state
            && !initial,
{
    if observed_state == target_state {
        ServicePollStep::Complete
    } else if observed_state == pending_state {
        ServicePollStep::Wait
    } else if initial {
        ServicePollStep::Absent
    } else {
        ServicePollStep::Failed
    }
}

/// One argument as it stands in the registered command line: preceded by a
/// separating space and, where the argument itself holds a space, wrapped in
/// quotes.
pub open spec fn spec_arg_field(arg: Vec<u16>) -> Seq<u16> {
    seq![32u16] + (if arg@.contains(32u16) {
        seq![34u16] + arg@ + seq![34u16]
    } else {
        arg@
    })
}

/// All arguments as they stand in the registered command line, in order.
pub open spec fn spec_formatted_args(args: Seq<Vec<u16>>) -> Seq<u16>
    decreases args.len(),
{
    if args.len() == 0 {
        Seq::empty()
    } else {
        spec_formatted_args(args.drop_last()) + spec_arg_field(args.last())
    }
}

fn contains_unit(v: &Vec<u16>, x: u16) -> (r: bool)
    ensures
        r == v@.contains(x),
{
    let mut i: usize = 0;
    while i < v.len()
        invariant
            0 <= i <= v@.len(),
            forall|k: int| 0 <= k < i ==> v@[k] != x,
        decreases v@.len() - i,
    {
        if v[i] == x {
            assert(v@[i as int] == x);
            return true;
        }
        i = i + 1;
    }
    false
}

/// Assemble the command line registered for a service that starts this
/// binary with the given arguments: the binary's path, then each argument
/// separated by a space — quoted when it contains one — and a terminating
/// nul. Arguments may not themselves contain a quote.
pub fn build_service_command_line(binary_path: &Vec<u16>, arguments: &Vec<Vec<u16>>) -> (r: Vec<
    u16,
>)
    requires
        forall|i: int| 0 <= i < arguments@.len() ==> !(#[trigger] arguments@[i])@.contains(34u16),
    ensures
        r@ == binary_path@ + spec_formatted_args(arguments@) + seq![0u16],
{
    let mut r: Vec<u16> = Vec::new();
    let mut i: usize = 0;
    while i < binary_path.len()
        invariant
            0 <= i <= binary_path@.len(),
            r@ == binary_path@.take(i as int),
        decreases binary_path@.len() - i,
    {
        r.push(binary_path[i]);
        i = i + 1;
    }
    assert(r@ =~= binary_path@ + spec_formatted_args(arguments@.take(0)));
    let mut j: usize = 0;
    while j < arguments.len()
        invariant
            0 <= j <= arguments@.len(),
            r@ == binary_path@ + spec_formatted_args(arguments@.take(j as int)),
        decreases arguments@.len() - j,
    {
        let ghost base = r@;
        r.push(32);
        let quoted = contains_unit(&arguments[j], 32);
        if quoted {
            r.push(34);
        }
        let mut k: usize = 0;
        let ghost mid = r@;
        while k < arguments[j].len()
            invariant
                0 <= j < arguments@.len(),
                0 <= k <= arguments@[j as int]@.len(),
                r@ == mid + arguments@[j as int]@.take(k as int),
            decreases arguments@[j as int]@.len() - k,
        {
            r.push(arguments[j][k]);
            k = k + 1;
        }
        if quoted {
            r.push(34);
        }
        proof {
            assert(arguments@.take(j + 1).drop_last() =~= arguments@.take(j as int));
            assert(arguments@.take(j + 1).last() == arguments@[j as int]);
            assert(r@ =~= base + spec_arg_field(arguments@[j as int]));
            assert(r@ =~= binary_path@ + spec_formatted_args(arguments@.take(j + 1)));
        }
        j = j + 1;
    }
    r.push(0);
    proof {
        assert(arguments@.take(arguments@.len() as int) =~= arguments@);
        assert(r@ =~= binary_path@ + spec_formatted_args(arguments@) + seq![0u16]);
    }
    r
}

} // verus!
