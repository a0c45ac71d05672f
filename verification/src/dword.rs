//! The numbers of the service control interface, each kind in a type of its
//! own: access rights to the service control manager and to a service, service
//! types, start types, error control levels, control codes, status codes and
//! error codes. A value of one kind cannot stand where another is expected.

use vstd::prelude::*;
use vstd::std_specs::convert::FromSpecImpl;
use vstd::std_specs::ops::BitOrSpecImpl;

verus! {

/// Right to connect to the service control manager.
pub const SC_MANAGER_CONNECT: u32 = 0x0001;

/// Right to create a service and add it to the database.
pub const SC_MANAGER_CREATE_SERVICE: u32 = 0x0002;

/// Right to enumerate the services of the database.
pub const SC_MANAGER_ENUMERATE_SERVICE: u32 = 0x0004;

/// Right to acquire a lock on the database.
pub const SC_MANAGER_LOCK: u32 = 0x0008;

/// Right to query the lock status of the database.
pub const SC_MANAGER_QUERY_LOCK_STATUS: u32 = 0x0010;

/// Right to mark the running configuration as the last known good one.
pub const SC_MANAGER_MODIFY_BOOT_CONFIG: u32 = 0x0020;

/// Every right to the service control manager, the standard rights included.
pub const SC_MANAGER_ALL_ACCESS: u32 = 0xF003F;

/// Right to query the configuration of a service.
pub const SERVICE_QUERY_CONFIG: u32 = 0x0001;

/// Right to change the configuration of a service.
pub const SERVICE_CHANGE_CONFIG: u32 = 0x0002;

/// Right to ask the service control manager for the status of a service.
pub const SERVICE_QUERY_STATUS: u32 = 0x0004;

/// Right to enumerate the services that depend on a service.
pub const SERVICE_ENUMERATE_DEPENDENTS: u32 = 0x0008;

/// Right to start a service.
pub const SERVICE_START: u32 = 0x0010;

/// Right to stop a service.
pub const SERVICE_STOP: u32 = 0x0020;

/// Right to pause and to continue a service.
pub const SERVICE_PAUSE_CONTINUE: u32 = 0x0040;

/// Right to ask a service to report its status at once.
pub const SERVICE_INTERROGATE: u32 = 0x0080;

/// Right to send a user-defined control code to a service.
pub const SERVICE_USER_DEFINED_CONTROL: u32 = 0x0100;

/// Right to delete a service.
pub const DELETE: u32 = 0x10000;

/// Right to read the security descriptor of a service.
pub const READ_CONTROL: u32 = 0x20000;

/// Right to modify the discretionary access control list of a service.
pub const WRITE_DAC: u32 = 0x40000;

/// Right to change the owner of a service.
pub const WRITE_OWNER: u32 = 0x80000;

/// Every right to a service, the standard rights included.
pub const SERVICE_ALL_ACCESS: u32 = 0xF01FF;

/// A driver service.
pub const SERVICE_KERNEL_DRIVER: u32 = 0x0001;

/// A file system driver service.
pub const SERVICE_FILE_SYSTEM_DRIVER: u32 = 0x0002;

/// An adapter service.
pub const SERVICE_ADAPTER: u32 = 0x0004;

/// A file system recognizer driver service.
pub const SERVICE_RECOGNIZER_DRIVER: u32 = 0x0008;

/// A service that runs in a process of its own.
pub const SERVICE_WIN32_OWN_PROCESS: u32 = 0x0010;

/// A service that shares a process with other services.
pub const SERVICE_WIN32_SHARE_PROCESS: u32 = 0x0020;

/// A device driver started by the system loader.
pub const SERVICE_BOOT_START: u32 = 0;

/// A device driver started when the system initialises.
pub const SERVICE_SYSTEM_START: u32 = 1;

/// A service started by the service control manager at system startup.
pub const SERVICE_AUTO_START: u32 = 2;

/// A service started on request.
pub const SERVICE_DEMAND_START: u32 = 3;

/// A service that cannot be started.
pub const SERVICE_DISABLED: u32 = 4;

/// The startup program ignores the error and continues.
pub const SERVICE_ERROR_IGNORE: u32 = 0;

/// The startup program logs the error and continues.
pub const SERVICE_ERROR_NORMAL: u32 = 1;

/// The startup program logs the error and restarts with the last known good
/// configuration, or continues if that one is already running.
pub const SERVICE_ERROR_SEVERE: u32 = 2;

/// The startup program logs the error and restarts with the last known good
/// configuration, or fails if that one is already running.
pub const SERVICE_ERROR_CRITICAL: u32 = 3;

/// Asks the service to stop.
pub const SERVICE_CONTROL_STOP: u32 = 1;

/// Asks the service to pause.
pub const SERVICE_CONTROL_PAUSE: u32 = 2;

/// Asks a paused service to resume.
pub const SERVICE_CONTROL_CONTINUE: u32 = 3;

/// Asks the service to report its status.
pub const SERVICE_CONTROL_INTERROGATE: u32 = 4;

/// Tells the service that its startup parameters have changed.
pub const SERVICE_CONTROL_PARAMCHANGE: u32 = 6;

/// Tells a network service that there is a new component to bind to.
pub const SERVICE_CONTROL_NETBINDADD: u32 = 7;

/// Tells a network service that a component it binds to has been removed.
pub const SERVICE_CONTROL_NETBINDREMOVE: u32 = 8;

/// Tells a network service that a disabled binding has been enabled.
pub const SERVICE_CONTROL_NETBINDENABLE: u32 = 9;

/// Tells a network service that one of its bindings has been disabled.
pub const SERVICE_CONTROL_NETBINDDISABLE: u32 = 10;

/// The service is not running.
pub const SERVICE_STOPPED: u32 = 1;

/// The service is starting.
pub const SERVICE_START_PENDING: u32 = 2;

/// The service is stopping.
pub const SERVICE_STOP_PENDING: u32 = 3;

/// The service is running.
pub const SERVICE_RUNNING: u32 = 4;

/// The service is about to continue.
pub const SERVICE_CONTINUE_PENDING: u32 = 5;

/// The service is about to pause.
pub const SERVICE_PAUSE_PENDING: u32 = 6;

/// The service is paused.
pub const SERVICE_PAUSED: u32 = 7;

/// The binary file of the service was not found.
pub const ERROR_PATH_NOT_FOUND: u32 = 3;

/// The handle lacks the access right that the request needs.
pub const ERROR_ACCESS_DENIED: u32 = 5;

/// The handle is not valid.
pub const ERROR_INVALID_HANDLE: u32 = 6;

/// A parameter of the request is not valid.
pub const ERROR_INVALID_PARAMETER: u32 = 87;

/// The service name is not valid.
pub const ERROR_INVALID_NAME: u32 = 123;

/// The service did not answer the start request in time.
pub const ERROR_SERVICE_REQUEST_TIMEOUT: u32 = 1053;

/// No thread could be created for the service.
pub const ERROR_SERVICE_NO_THREAD: u32 = 1054;

/// The service database is locked.
pub const ERROR_SERVICE_DATABASE_LOCKED: u32 = 1055;

/// An instance of the service is already running.
pub const ERROR_SERVICE_ALREADY_RUNNING: u32 = 1056;

/// The account that the service is to run under does not exist.
pub const ERROR_INVALID_SERVICE_ACCOUNT: u32 = 1057;

/// The service is disabled.
pub const ERROR_SERVICE_DISABLED: u32 = 1058;

/// The dependencies of the service form a cycle.
pub const ERROR_CIRCULAR_DEPENDENCY: u32 = 1059;

/// A service that this one depends on failed to start.
pub const ERROR_SERVICE_DEPENDENCY_FAIL: u32 = 1068;

/// The service could not log on.
pub const ERROR_SERVICE_LOGON_FAILED: u32 = 1069;

/// The service is marked for deletion.
pub const ERROR_SERVICE_MARKED_FOR_DELETE: u32 = 1072;

/// A service of that name exists already.
pub const ERROR_SERVICE_EXISTS: u32 = 1073;

/// A service that this one depends on does not exist or is marked for
/// deletion.
pub const ERROR_SERVICE_DEPENDENCY_DELETED: u32 = 1075;

/// The display name is already in use as a service name or display name.
pub const ERROR_DUPLICATE_SERVICE_NAME: u32 = 1078;

/// The buffer handed to the platform was too small for what it had to write.
/// The platform reports it together with the size that would do; it is no
/// failure of a service, and has no description of its own.
pub const ERROR_INSUFFICIENT_BUFFER: u32 = 122;

/// Whether `bits` is one of the named rights to the service control manager.
pub open spec fn sc_manager_right(bits: u32) -> bool {
    ||| bits == SC_MANAGER_CONNECT
    ||| bits == SC_MANAGER_CREATE_SERVICE
    ||| bits == SC_MANAGER_ENUMERATE_SERVICE
    ||| bits == SC_MANAGER_LOCK
    ||| bits == SC_MANAGER_QUERY_LOCK_STATUS
    ||| bits == SC_MANAGER_MODIFY_BOOT_CONFIG
    ||| bits == SC_MANAGER_ALL_ACCESS
}

/// Whether `bits` is one of the named rights to a service.
pub open spec fn service_right(bits: u32) -> bool {
    ||| bits == SERVICE_QUERY_CONFIG
    ||| bits == SERVICE_CHANGE_CONFIG
    ||| bits == SERVICE_QUERY_STATUS
    ||| bits == SERVICE_ENUMERATE_DEPENDENTS
    ||| bits == SERVICE_START
    ||| bits == SERVICE_STOP
    ||| bits == SERVICE_PAUSE_CONTINUE
    ||| bits == SERVICE_INTERROGATE
    ||| bits == SERVICE_USER_DEFINED_CONTROL
    ||| bits == DELETE
    ||| bits == READ_CONTROL
    ||| bits == WRITE_DAC
    ||| bits == WRITE_OWNER
    ||| bits == SERVICE_ALL_ACCESS
}

/// The bitwise OR of all the masks of a sequence; 0 for the empty sequence.
pub open spec fn union_of(masks: Seq<u32>) -> u32
    decreases masks.len(),
{
    if masks.len() == 0 {
        0
    } else {
        union_of(masks.drop_last()) | masks.last()
    }
}

/// Whether `bits` is the bitwise OR of zero or more masks that `named` holds
/// of.
pub open spec fn composed_of(bits: u32, named: spec_fn(u32) -> bool) -> bool {
    exists|rights: Seq<u32>|
        (forall|i: int| 0 <= i < rights.len() ==> named(#[trigger] rights[i]))
            && #[trigger] union_of(rights) == bits
}

/// Whether `bits` is the bitwise OR of zero or more named rights to the
/// service control manager.
pub open spec fn sc_manager_composed(bits: u32) -> bool {
    composed_of(bits, |right: u32| sc_manager_right(right))
}

/// Whether `bits` is the bitwise OR of zero or more named rights to a service.
pub open spec fn service_composed(bits: u32) -> bool {
    composed_of(bits, |right: u32| service_right(right))
}

/// The masks within the six single rights to the service control manager, and
/// all access.
pub open spec fn sc_manager_mask(bits: u32) -> bool {
    bits <= 0x3F || bits == SC_MANAGER_ALL_ACCESS
}

/// The masks within the nine service rights and the four standard rights.
pub open spec fn service_mask(bits: u32) -> bool {
    bits <= SERVICE_ALL_ACCESS && bits % 0x10000 <= 0x1FF
}

/// Whether bit `i` of `bits` is set.
pub open spec fn bit_set(bits: u32, i: u32) -> bool {
    (bits >> i) & 1 == 1
}

proof fn lemma_composed_of_nothing(named: spec_fn(u32) -> bool)
    ensures
        composed_of(0, named),
{
    assert(union_of(Seq::<u32>::empty()) == 0);
}

proof fn lemma_composed_of_one(right: u32, named: spec_fn(u32) -> bool)
    requires
        named(right),
    ensures
        composed_of(right, named),
{
    let rights = seq![right];
    assert(rights.drop_last() =~= Seq::<u32>::empty());
    assert(union_of(rights.drop_last()) == 0);
    assert(rights.last() == right);
    assert(0u32 | right == right) by (bit_vector);
    assert(union_of(rights) == right);
}

/// A composition stays one when a single named right is added to it, where
/// `bits` holds that right, and is unchanged where it does not.
proof fn lemma_composed_of_more(so_far: u32, bits: u32, right: u32, named: spec_fn(u32) -> bool)
    requires
        composed_of(so_far, named),
        named(right),
        bits & right == 0 || bits & right == right,
    ensures
        composed_of(so_far | (bits & right), named),
{
    if bits & right == 0 {
        assert(so_far | 0u32 == so_far) by (bit_vector);
    } else {
        let rights = choose|rights: Seq<u32>|
            (forall|i: int| 0 <= i < rights.len() ==> named(#[trigger] rights[i]))
                && #[trigger] union_of(rights) == so_far;
        let more = rights.push(right);
        assert(more.drop_last() =~= rights);
        assert(union_of(more) == so_far | right);
    }
}

proof fn lemma_sc_manager_mask_union(a: u32, b: u32)
    requires
        sc_manager_mask(a),
        sc_manager_mask(b),
    ensures
        sc_manager_mask(a | b),
{
    assert((a | b) <= 0x3F || (a | b) == 0xF003F) by (bit_vector)
        requires
            a <= 0x3F || a == 0xF003F,
            b <= 0x3F || b == 0xF003F,
    ;
}

proof fn lemma_service_mask_union(a: u32, b: u32)
    requires
        service_mask(a),
        service_mask(b),
    ensures
        service_mask(a | b),
{
    assert((a | b) <= 0xF01FF && (a | b) % 0x10000 <= 0x1FF) by (bit_vector)
        requires
            a <= 0xF01FF && a % 0x10000 <= 0x1FF,
            b <= 0xF01FF && b % 0x10000 <= 0x1FF,
    ;
}

proof fn lemma_sc_manager_rights_within_mask(rights: Seq<u32>)
    requires
        forall|i: int| 0 <= i < rights.len() ==> sc_manager_right(#[trigger] rights[i]),
    ensures
        sc_manager_mask(union_of(rights)),
    decreases rights.len(),
{
    if rights.len() > 0 {
        lemma_sc_manager_rights_within_mask(rights.drop_last());
        assert(sc_manager_right(rights[rights.len() - 1]));
        lemma_sc_manager_mask_union(union_of(rights.drop_last()), rights.last());
    }
}

proof fn lemma_service_rights_within_mask(rights: Seq<u32>)
    requires
        forall|i: int| 0 <= i < rights.len() ==> service_right(#[trigger] rights[i]),
    ensures
        service_mask(union_of(rights)),
    decreases rights.len(),
{
    if rights.len() > 0 {
        lemma_service_rights_within_mask(rights.drop_last());
        assert(service_right(rights[rights.len() - 1]));
        lemma_service_mask_union(union_of(rights.drop_last()), rights.last());
    }
}

/// Of a right that is a single bit, a mask holds all or nothing.
proof fn lemma_single_bits(bits: u32)
    ensures
        bits & 0x1 == 0 || bits & 0x1 == 0x1,
        bits & 0x2 == 0 || bits & 0x2 == 0x2,
        bits & 0x4 == 0 || bits & 0x4 == 0x4,
        bits & 0x8 == 0 || bits & 0x8 == 0x8,
        bits & 0x10 == 0 || bits & 0x10 == 0x10,
        bits & 0x20 == 0 || bits & 0x20 == 0x20,
        bits & 0x40 == 0 || bits & 0x40 == 0x40,
        bits & 0x80 == 0 || bits & 0x80 == 0x80,
        bits & 0x100 == 0 || bits & 0x100 == 0x100,
        bits & 0x10000 == 0 || bits & 0x10000 == 0x10000,
        bits & 0x20000 == 0 || bits & 0x20000 == 0x20000,
        bits & 0x40000 == 0 || bits & 0x40000 == 0x40000,
        bits & 0x80000 == 0 || bits & 0x80000 == 0x80000,
{
    assert({
        &&& bits & 0x1 == 0 || bits & 0x1 == 0x1
        &&& bits & 0x2 == 0 || bits & 0x2 == 0x2
        &&& bits & 0x4 == 0 || bits & 0x4 == 0x4
        &&& bits & 0x8 == 0 || bits & 0x8 == 0x8
        &&& bits & 0x10 == 0 || bits & 0x10 == 0x10
        &&& bits & 0x20 == 0 || bits & 0x20 == 0x20
        &&& bits & 0x40 == 0 || bits & 0x40 == 0x40
        &&& bits & 0x80 == 0 || bits & 0x80 == 0x80
        &&& bits & 0x100 == 0 || bits & 0x100 == 0x100
        &&& bits & 0x10000 == 0 || bits & 0x10000 == 0x10000
        &&& bits & 0x20000 == 0 || bits & 0x20000 == 0x20000
        &&& bits & 0x40000 == 0 || bits & 0x40000 == 0x40000
        &&& bits & 0x80000 == 0 || bits & 0x80000 == 0x80000
    }) by (bit_vector);
}

/// A mask is a composition of named rights to the service control manager
/// exactly when it lies within the six single rights or is all access.
pub proof fn lemma_sc_manager_composed(bits: u32)
    ensures
        sc_manager_composed(bits) <==> sc_manager_mask(bits),
{
    let named = |right: u32| sc_manager_right(right);
    if sc_manager_composed(bits) {
        let rights = choose|rights: Seq<u32>|
            (forall|i: int| 0 <= i < rights.len() ==> named(#[trigger] rights[i]))
                && #[trigger] union_of(rights) == bits;
        lemma_sc_manager_rights_within_mask(rights);
    }
    if sc_manager_mask(bits) {
        if bits == SC_MANAGER_ALL_ACCESS {
            lemma_composed_of_one(SC_MANAGER_ALL_ACCESS, named);
        } else {
            lemma_single_bits(bits);
            lemma_composed_of_nothing(named);
            let b0: u32 = 0u32 | (bits & SC_MANAGER_CONNECT);
            lemma_composed_of_more(0, bits, SC_MANAGER_CONNECT, named);
            let b1: u32 = b0 | (bits & SC_MANAGER_CREATE_SERVICE);
            lemma_composed_of_more(b0, bits, SC_MANAGER_CREATE_SERVICE, named);
            let b2: u32 = b1 | (bits & SC_MANAGER_ENUMERATE_SERVICE);
            lemma_composed_of_more(b1, bits, SC_MANAGER_ENUMERATE_SERVICE, named);
            let b3: u32 = b2 | (bits & SC_MANAGER_LOCK);
            lemma_composed_of_more(b2, bits, SC_MANAGER_LOCK, named);
            let b4: u32 = b3 | (bits & SC_MANAGER_QUERY_LOCK_STATUS);
            lemma_composed_of_more(b3, bits, SC_MANAGER_QUERY_LOCK_STATUS, named);
            let b5: u32 = b4 | (bits & SC_MANAGER_MODIFY_BOOT_CONFIG);
            lemma_composed_of_more(b4, bits, SC_MANAGER_MODIFY_BOOT_CONFIG, named);
            assert(b5 == bits) by (bit_vector)
                requires
                    bits <= 0x3F,
                    b5 == 0u32 | (bits & 0x1) | (bits & 0x2) | (bits & 0x4) | (bits & 0x8) | (bits
                        & 0x10) | (bits & 0x20),
            ;
        }
    }
}

/// A mask is a composition of named rights to a service exactly when it lies
/// within the nine service rights and the four standard rights.
pub proof fn lemma_service_composed(bits: u32)
    ensures
        service_composed(bits) <==> service_mask(bits),
{
    let named = |right: u32| service_right(right);
    if service_composed(bits) {
        let rights = choose|rights: Seq<u32>|
            (forall|i: int| 0 <= i < rights.len() ==> named(#[trigger] rights[i]))
                && #[trigger] union_of(rights) == bits;
        lemma_service_rights_within_mask(rights);
    }
    if service_mask(bits) {
        lemma_single_bits(bits);
        lemma_composed_of_nothing(named);
        let b0: u32 = 0u32 | (bits & SERVICE_QUERY_CONFIG);
        lemma_composed_of_more(0, bits, SERVICE_QUERY_CONFIG, named);
        let b1: u32 = b0 | (bits & SERVICE_CHANGE_CONFIG);
        lemma_composed_of_more(b0, bits, SERVICE_CHANGE_CONFIG, named);
        let b2: u32 = b1 | (bits & SERVICE_QUERY_STATUS);
        lemma_composed_of_more(b1, bits, SERVICE_QUERY_STATUS, named);
        let b3: u32 = b2 | (bits & SERVICE_ENUMERATE_DEPENDENTS);
        lemma_composed_of_more(b2, bits, SERVICE_ENUMERATE_DEPENDENTS, named);
        let b4: u32 = b3 | (bits & SERVICE_START);
        lemma_composed_of_more(b3, bits, SERVICE_START, named);
        let b5: u32 = b4 | (bits & SERVICE_STOP);
        lemma_composed_of_more(b4, bits, SERVICE_STOP, named);
        let b6: u32 = b5 | (bits & SERVICE_PAUSE_CONTINUE);
        lemma_composed_of_more(b5, bits, SERVICE_PAUSE_CONTINUE, named);
        let b7: u32 = b6 | (bits & SERVICE_INTERROGATE);
        lemma_composed_of_more(b6, bits, SERVICE_INTERROGATE, named);
        let b8: u32 = b7 | (bits & SERVICE_USER_DEFINED_CONTROL);
        lemma_composed_of_more(b7, bits, SERVICE_USER_DEFINED_CONTROL, named);
        let b9: u32 = b8 | (bits & DELETE);
        lemma_composed_of_more(b8, bits, DELETE, named);
        let b10: u32 = b9 | (bits & READ_CONTROL);
        lemma_composed_of_more(b9, bits, READ_CONTROL, named);
        let b11: u32 = b10 | (bits & WRITE_DAC);
        lemma_composed_of_more(b10, bits, WRITE_DAC, named);
        let b12: u32 = b11 | (bits & WRITE_OWNER);
        lemma_composed_of_more(b11, bits, WRITE_OWNER, named);
        assert(b12 == bits) by (bit_vector)
            requires
                bits <= 0xF01FF && bits % 0x10000 <= 0x1FF,
                b12 == 0u32 | (bits & 0x1) | (bits & 0x2) | (bits & 0x4) | (bits & 0x8) | (bits
                    & 0x10) | (bits & 0x20) | (bits & 0x40) | (bits & 0x80) | (bits & 0x100) | (bits
                    & 0x10000) | (bits & 0x20000) | (bits & 0x40000) | (bits & 0x80000),
        ;
    }
}

/// Composing one set of rights with itself changes nothing; the order and the
/// grouping of a composition do not matter; and a composition holds exactly
/// the bits that one of its parts holds.
pub proof fn lemma_sc_manager_union(a: ScManagerAccess, b: ScManagerAccess, c: ScManagerAccess)
    ensures
        a.union(a) == a,
        a.union(b) == b.union(a),
        a.union(b).union(c) == a.union(b.union(c)),
        a.union(b).bits() == a.bits() | b.bits(),
        forall|i: u32|
            i < 32 ==> (#[trigger] bit_set(a.union(b).bits(), i) <==> bit_set(a.bits(), i)
                || bit_set(b.bits(), i)),
{
    lemma_union_bits(a.bits(), b.bits(), c.bits());
}

/// Composing one set of rights with itself changes nothing; the order and the
/// grouping of a composition do not matter; and a composition holds exactly
/// the bits that one of its parts holds.
pub proof fn lemma_service_union(a: ServiceAccess, b: ServiceAccess, c: ServiceAccess)
    ensures
        a.union(a) == a,
        a.union(b) == b.union(a),
        a.union(b).union(c) == a.union(b.union(c)),
        a.union(b).bits() == a.bits() | b.bits(),
        forall|i: u32|
            i < 32 ==> (#[trigger] bit_set(a.union(b).bits(), i) <==> bit_set(a.bits(), i)
                || bit_set(b.bits(), i)),
{
    lemma_union_bits(a.bits(), b.bits(), c.bits());
}

proof fn lemma_union_bits(a: u32, b: u32, c: u32)
    ensures
        a | a == a,
        a | b == b | a,
        (a | b) | c == a | (b | c),
        forall|i: u32|
            i < 32 ==> (#[trigger] bit_set(a | b, i) <==> bit_set(a, i) || bit_set(b, i)),
{
    assert(a | a == a) by (bit_vector);
    assert(a | b == b | a) by (bit_vector);
    assert((a | b) | c == a | (b | c)) by (bit_vector);
    assert forall|i: u32| i < 32 implies (#[trigger] bit_set(a | b, i) <==> bit_set(a, i)
        || bit_set(b, i)) by {
        assert((((a | b) >> i) & 1 == 1) <==> ((a >> i) & 1 == 1) || ((b >> i) & 1 == 1))
            by (bit_vector)
            requires
                i < 32,
        ;
    }
}

/// A set of access rights to the service control manager.
#[derive(Clone, Copy, Debug, PartialEq, Eq, Hash, Structural)]
pub struct ScManagerAccess(u32);

#[allow(non_snake_case)]
impl ScManagerAccess {
    #[verifier::type_invariant]
    closed spec fn within_mask(self) -> bool {
        sc_manager_mask(self.0)
    }

    /// The mask, as the platform takes it.
    pub closed spec fn spec_bits(self) -> u32 {
        self.0
    }

    /// The mask, as the platform takes it: always a composition of named
    /// rights to the service control manager.
    #[verifier::when_used_as_spec(spec_bits)]
    pub fn bits(self) -> (r: u32)
        ensures
            r == self.bits(),
            sc_manager_composed(r),
    {
        proof {
            use_type_invariant(self);
            lemma_sc_manager_composed(self.0);
        }
        self.0
    }

    /// The rights of a raw mask, where the mask is a composition of named
    /// rights to the service control manager; no value else.
    pub fn from_bits(bits: u32) -> (r: Option<ScManagerAccess>)
        ensures
            match r {
                Some(access) => access.bits() == bits && sc_manager_composed(bits),
                None => !sc_manager_composed(bits),
            },
    {
        proof {
            lemma_sc_manager_composed(bits);
        }
        if bits <= 0x3F || bits == SC_MANAGER_ALL_ACCESS {
            Some(ScManagerAccess(bits))
        } else {
            None
        }
    }

    /// The rights of `self` and those of `other` together.
    pub closed spec fn spec_union(self, other: ScManagerAccess) -> ScManagerAccess {
        ScManagerAccess(self.0 | other.0)
    }

    /// The rights of `self` and those of `other` together.
    #[verifier::when_used_as_spec(spec_union)]
    pub fn union(self, other: ScManagerAccess) -> (r: ScManagerAccess)
        ensures
            r == self.union(other),
            r.bits() == self.bits() | other.bits(),
    {
        proof {
            use_type_invariant(self);
            use_type_invariant(other);
            lemma_sc_manager_mask_union(self.0, other.0);
        }
        ScManagerAccess(self.0 | other.0)
    }

    /// Whether every right of `other` is among the rights of `self`.
    pub fn contains(self, other: ScManagerAccess) -> (r: bool)
        ensures
            r == (self.bits() & other.bits() == other.bits()),
    {
        self.0 & other.0 == other.0
    }

    /// Right to connect to the service control manager.
    pub fn SC_MANAGER_CONNECT() -> (r: ScManagerAccess)
        ensures
            r.bits() == SC_MANAGER_CONNECT,
    {
        ScManagerAccess(SC_MANAGER_CONNECT)
    }

    /// Right to create a service and add it to the database.
    pub fn SC_MANAGER_CREATE_SERVICE() -> (r: ScManagerAccess)
        ensures
            r.bits() == SC_MANAGER_CREATE_SERVICE,
    {
        ScManagerAccess(SC_MANAGER_CREATE_SERVICE)
    }

    /// Right to enumerate the services of the database.
    pub fn SC_MANAGER_ENUMERATE_SERVICE() -> (r: ScManagerAccess)
        ensures
            r.bits() == SC_MANAGER_ENUMERATE_SERVICE,
    {
        ScManagerAccess(SC_MANAGER_ENUMERATE_SERVICE)
    }

    /// Right to acquire a lock on the database.
    pub fn SC_MANAGER_LOCK() -> (r: ScManagerAccess)
        ensures
            r.bits() == SC_MANAGER_LOCK,
    {
        ScManagerAccess(SC_MANAGER_LOCK)
    }

    /// Right to query the lock status of the database.
    pub fn SC_MANAGER_QUERY_LOCK_STATUS() -> (r: ScManagerAccess)
        ensures
            r.bits() == SC_MANAGER_QUERY_LOCK_STATUS,
    {
        ScManagerAccess(SC_MANAGER_QUERY_LOCK_STATUS)
    }

    /// Right to mark the running configuration as the last known good one.
    pub fn SC_MANAGER_MODIFY_BOOT_CONFIG() -> (r: ScManagerAccess)
        ensures
            r.bits() == SC_MANAGER_MODIFY_BOOT_CONFIG,
    {
        ScManagerAccess(SC_MANAGER_MODIFY_BOOT_CONFIG)
    }

    /// Every right to the service control manager, the standard rights
    /// included.
    pub fn SC_MANAGER_ALL_ACCESS() -> (r: ScManagerAccess)
        ensures
            r.bits() == SC_MANAGER_ALL_ACCESS,
    {
        ScManagerAccess(SC_MANAGER_ALL_ACCESS)
    }

    /// The rights to read: to enumerate the services and to query the lock
    /// status.
    pub fn GENERIC_READ() -> (r: ScManagerAccess)
        ensures
            r.bits() == SC_MANAGER_ENUMERATE_SERVICE | SC_MANAGER_QUERY_LOCK_STATUS,
    {
        ScManagerAccess::SC_MANAGER_ENUMERATE_SERVICE()
            .union(ScManagerAccess::SC_MANAGER_QUERY_LOCK_STATUS())
    }

    /// The rights to write: to create a service and to modify the boot
    /// configuration.
    pub fn GENERIC_WRITE() -> (r: ScManagerAccess)
        ensures
            r.bits() == SC_MANAGER_CREATE_SERVICE | SC_MANAGER_MODIFY_BOOT_CONFIG,
    {
        ScManagerAccess::SC_MANAGER_CREATE_SERVICE()
            .union(ScManagerAccess::SC_MANAGER_MODIFY_BOOT_CONFIG())
    }

    /// The rights to execute: to connect and to lock the database.
    pub fn GENERIC_EXECUTE() -> (r: ScManagerAccess)
        ensures
            r.bits() == SC_MANAGER_CONNECT | SC_MANAGER_LOCK,
    {
        ScManagerAccess::SC_MANAGER_CONNECT()
            .union(ScManagerAccess::SC_MANAGER_LOCK())
    }

    /// Every right to the service control manager.
    pub fn GENERIC_ALL() -> (r: ScManagerAccess)
        ensures
            r.bits() == SC_MANAGER_ALL_ACCESS,
    {
        ScManagerAccess::SC_MANAGER_ALL_ACCESS()
    }
}

impl core::ops::BitOr for ScManagerAccess {
    type Output = ScManagerAccess;

    fn bitor(self, other: ScManagerAccess) -> (r: ScManagerAccess)
        ensures
            r == self.union(other),
            r.bits() == self.bits() | other.bits(),
    {
        self.union(other)
    }
}

impl BitOrSpecImpl for ScManagerAccess {
    open spec fn obeys_bitor_spec() -> bool {
        true
    }

    open spec fn bitor_req(self, other: ScManagerAccess) -> bool {
        true
    }

    open spec fn bitor_spec(self, other: ScManagerAccess) -> ScManagerAccess {
        self.union(other)
    }
}

/// Two sets of rights with the same mask are the same set.
pub proof fn lemma_sc_manager_access_by_bits(a: ScManagerAccess, b: ScManagerAccess)
    ensures
        a.bits() == b.bits() <==> a == b,
{
}

/// A set of access rights to one service.
#[derive(Clone, Copy, Debug, PartialEq, Eq, Hash, Structural)]
pub struct ServiceAccess(u32);

#[allow(non_snake_case)]
impl ServiceAccess {
    #[verifier::type_invariant]
    closed spec fn within_mask(self) -> bool {
        service_mask(self.0)
    }

    /// The mask, as the platform takes it.
    pub closed spec fn spec_bits(self) -> u32 {
        self.0
    }

    /// The mask, as the platform takes it: always a composition of named
    /// rights to a service.
    #[verifier::when_used_as_spec(spec_bits)]
    pub fn bits(self) -> (r: u32)
        ensures
            r == self.bits(),
            service_composed(r),
    {
        proof {
            use_type_invariant(self);
            lemma_service_composed(self.0);
        }
        self.0
    }

    /// The rights of a raw mask, where the mask is a composition of named
    /// rights to a service; no value else.
    pub fn from_bits(bits: u32) -> (r: Option<ServiceAccess>)
        ensures
            match r {
                Some(access) => access.bits() == bits && service_composed(bits),
                None => !service_composed(bits),
            },
    {
        proof {
            lemma_service_composed(bits);
        }
        if bits <= SERVICE_ALL_ACCESS && bits % 0x10000 <= 0x1FF {
            Some(ServiceAccess(bits))
        } else {
            None
        }
    }

    /// The rights of `self` and those of `other` together.
    pub closed spec fn spec_union(self, other: ServiceAccess) -> ServiceAccess {
        ServiceAccess(self.0 | other.0)
    }

    /// The rights of `self` and those of `other` together.
    #[verifier::when_used_as_spec(spec_union)]
    pub fn union(self, other: ServiceAccess) -> (r: ServiceAccess)
        ensures
            r == self.union(other),
            r.bits() == self.bits() | other.bits(),
    {
        proof {
            use_type_invariant(self);
            use_type_invariant(other);
            lemma_service_mask_union(self.0, other.0);
        }
        ServiceAccess(self.0 | other.0)
    }

    /// Whether every right of `other` is among the rights of `self`.
    pub fn contains(self, other: ServiceAccess) -> (r: bool)
        ensures
            r == (self.bits() & other.bits() == other.bits()),
    {
        self.0 & other.0 == other.0
    }

    /// Right to query the configuration of a service.
    pub fn SERVICE_QUERY_CONFIG() -> (r: ServiceAccess)
        ensures
            r.bits() == SERVICE_QUERY_CONFIG,
    {
        ServiceAccess(SERVICE_QUERY_CONFIG)
    }

    /// Right to change the configuration of a service.
    pub fn SERVICE_CHANGE_CONFIG() -> (r: ServiceAccess)
        ensures
            r.bits() == SERVICE_CHANGE_CONFIG,
    {
        ServiceAccess(SERVICE_CHANGE_CONFIG)
    }

    /// Right to ask the service control manager for the status of a service.
    pub fn SERVICE_QUERY_STATUS() -> (r: ServiceAccess)
        ensures
            r.bits() == SERVICE_QUERY_STATUS,
    {
        ServiceAccess(SERVICE_QUERY_STATUS)
    }

    /// Right to enumerate the services that depend on a service.
    pub fn SERVICE_ENUMERATE_DEPENDENTS() -> (r: ServiceAccess)
        ensures
            r.bits() == SERVICE_ENUMERATE_DEPENDENTS,
    {
        ServiceAccess(SERVICE_ENUMERATE_DEPENDENTS)
    }

    /// Right to start a service.
    pub fn SERVICE_START() -> (r: ServiceAccess)
        ensures
            r.bits() == SERVICE_START,
    {
        ServiceAccess(SERVICE_START)
    }

    /// Right to stop a service.
    pub fn SERVICE_STOP() -> (r: ServiceAccess)
        ensures
            r.bits() == SERVICE_STOP,
    {
        ServiceAccess(SERVICE_STOP)
    }

    /// Right to pause and to continue a service.
    pub fn SERVICE_PAUSE_CONTINUE() -> (r: ServiceAccess)
        ensures
            r.bits() == SERVICE_PAUSE_CONTINUE,
    {
        ServiceAccess(SERVICE_PAUSE_CONTINUE)
    }

    /// Right to ask a service to report its status at once.
    pub fn SERVICE_INTERROGATE() -> (r: ServiceAccess)
        ensures
            r.bits() == SERVICE_INTERROGATE,
    {
        ServiceAccess(SERVICE_INTERROGATE)
    }

    /// Right to send a user-defined control code to a service.
    pub fn SERVICE_USER_DEFINED_CONTROL() -> (r: ServiceAccess)
        ensures
            r.bits() == SERVICE_USER_DEFINED_CONTROL,
    {
        ServiceAccess(SERVICE_USER_DEFINED_CONTROL)
    }

    /// Right to delete a service.
    pub fn DELETE() -> (r: ServiceAccess)
        ensures
            r.bits() == DELETE,
    {
        ServiceAccess(DELETE)
    }

    /// Right to read the security descriptor of a service.
    pub fn READ_CONTROL() -> (r: ServiceAccess)
        ensures
            r.bits() == READ_CONTROL,
    {
        ServiceAccess(READ_CONTROL)
    }

    /// Right to modify the discretionary access control list of a service.
    pub fn WRITE_DAC() -> (r: ServiceAccess)
        ensures
            r.bits() == WRITE_DAC,
    {
        ServiceAccess(WRITE_DAC)
    }

    /// Right to change the owner of a service.
    pub fn WRITE_OWNER() -> (r: ServiceAccess)
        ensures
            r.bits() == WRITE_OWNER,
    {
        ServiceAccess(WRITE_OWNER)
    }

    /// Every right to a service, the standard rights included.
    pub fn SERVICE_ALL_ACCESS() -> (r: ServiceAccess)
        ensures
            r.bits() == SERVICE_ALL_ACCESS,
    {
        ServiceAccess(SERVICE_ALL_ACCESS)
    }

    /// The rights to read: to query configuration and status, to interrogate,
    /// and to enumerate dependents.
    pub fn GENERIC_READ() -> (r: ServiceAccess)
        ensures
            r.bits() == SERVICE_QUERY_CONFIG
                | SERVICE_QUERY_STATUS
                | SERVICE_INTERROGATE
                | SERVICE_ENUMERATE_DEPENDENTS,
    {
        ServiceAccess::SERVICE_QUERY_CONFIG()
            .union(ServiceAccess::SERVICE_QUERY_STATUS())
            .union(ServiceAccess::SERVICE_INTERROGATE())
            .union(ServiceAccess::SERVICE_ENUMERATE_DEPENDENTS())
    }

    /// The right to write: to change the configuration.
    pub fn GENERIC_WRITE() -> (r: ServiceAccess)
        ensures
            r.bits() == SERVICE_CHANGE_CONFIG,
    {
        ServiceAccess::SERVICE_CHANGE_CONFIG()
    }

    /// The rights to execute: to start, stop, pause and continue, and to send
    /// user-defined control codes.
    pub fn GENERIC_EXECUTE() -> (r: ServiceAccess)
        ensures
            r.bits() == SERVICE_START
                | SERVICE_STOP
                | SERVICE_PAUSE_CONTINUE
                | SERVICE_USER_DEFINED_CONTROL,
    {
        ServiceAccess::SERVICE_START()
            .union(ServiceAccess::SERVICE_STOP())
            .union(ServiceAccess::SERVICE_PAUSE_CONTINUE())
            .union(ServiceAccess::SERVICE_USER_DEFINED_CONTROL())
    }
}

impl core::ops::BitOr for ServiceAccess {
    type Output = ServiceAccess;

    fn bitor(self, other: ServiceAccess) -> (r: ServiceAccess)
        ensures
            r == self.union(other),
            r.bits() == self.bits() | other.bits(),
    {
        self.union(other)
    }
}

impl BitOrSpecImpl for ServiceAccess {
    open spec fn obeys_bitor_spec() -> bool {
        true
    }

    open spec fn bitor_req(self, other: ServiceAccess) -> bool {
        true
    }

    open spec fn bitor_spec(self, other: ServiceAccess) -> ServiceAccess {
        self.union(other)
    }
}

/// Two sets of rights with the same mask are the same set.
pub proof fn lemma_service_access_by_bits(a: ServiceAccess, b: ServiceAccess)
    ensures
        a.bits() == b.bits() <==> a == b,
{
}

/// Whether `code` is one of the named service types.
pub open spec fn known_service_type(code: u32) -> bool {
    ||| code == SERVICE_KERNEL_DRIVER
    ||| code == SERVICE_FILE_SYSTEM_DRIVER
    ||| code == SERVICE_ADAPTER
    ||| code == SERVICE_RECOGNIZER_DRIVER
    ||| code == SERVICE_WIN32_OWN_PROCESS
    ||| code == SERVICE_WIN32_SHARE_PROCESS
}

/// The kind of a service.
#[derive(Clone, Copy, Debug, PartialEq, Eq, Hash, Structural)]
pub struct ServiceType(u32);

#[allow(non_snake_case)]
impl ServiceType {
    /// The raw value that the platform knows this by.
    pub closed spec fn spec_code(self) -> u32 {
        self.0
    }

    /// The raw value that the platform knows this by.
    #[verifier::when_used_as_spec(spec_code)]
    pub fn code(self) -> (r: u32)
        ensures
            r == self.code(),
    {
        self.0
    }

    /// Whether this is one of the named values. The platform decides what it
    /// accepts; nothing here rejects a value that has no name.
    pub fn is_known(self) -> (r: bool)
        ensures
            r == known_service_type(self.code()),
    {
        let c: u32 = self.0;
        c == SERVICE_KERNEL_DRIVER
            || c == SERVICE_FILE_SYSTEM_DRIVER
            || c == SERVICE_ADAPTER
            || c == SERVICE_RECOGNIZER_DRIVER
            || c == SERVICE_WIN32_OWN_PROCESS
            || c == SERVICE_WIN32_SHARE_PROCESS
    }

    /// A driver service.
    pub fn SERVICE_KERNEL_DRIVER() -> (r: ServiceType)
        ensures
            r.code() == SERVICE_KERNEL_DRIVER,
    {
        ServiceType(SERVICE_KERNEL_DRIVER)
    }

    /// A file system driver service.
    pub fn SERVICE_FILE_SYSTEM_DRIVER() -> (r: ServiceType)
        ensures
            r.code() == SERVICE_FILE_SYSTEM_DRIVER,
    {
        ServiceType(SERVICE_FILE_SYSTEM_DRIVER)
    }

    /// An adapter service.
    pub fn SERVICE_ADAPTER() -> (r: ServiceType)
        ensures
            r.code() == SERVICE_ADAPTER,
    {
        ServiceType(SERVICE_ADAPTER)
    }

    /// A file system recognizer driver service.
    pub fn SERVICE_RECOGNIZER_DRIVER() -> (r: ServiceType)
        ensures
            r.code() == SERVICE_RECOGNIZER_DRIVER,
    {
        ServiceType(SERVICE_RECOGNIZER_DRIVER)
    }

    /// A service that runs in a process of its own.
    pub fn SERVICE_WIN32_OWN_PROCESS() -> (r: ServiceType)
        ensures
            r.code() == SERVICE_WIN32_OWN_PROCESS,
    {
        ServiceType(SERVICE_WIN32_OWN_PROCESS)
    }

    /// A service that shares a process with other services.
    pub fn SERVICE_WIN32_SHARE_PROCESS() -> (r: ServiceType)
        ensures
            r.code() == SERVICE_WIN32_SHARE_PROCESS,
    {
        ServiceType(SERVICE_WIN32_SHARE_PROCESS)
    }
}

impl From<u32> for ServiceType {
    fn from(code: u32) -> (r: ServiceType)
        ensures
            r.code() == code,
    {
        ServiceType(code)
    }
}

impl FromSpecImpl<u32> for ServiceType {
    open spec fn obeys_from_spec() -> bool {
        true
    }

    closed spec fn from_spec(code: u32) -> ServiceType {
        ServiceType(code)
    }
}

impl From<ServiceType> for u32 {
    fn from(value: ServiceType) -> (r: u32)
        ensures
            r == value.code(),
    {
        value.0
    }
}

impl FromSpecImpl<ServiceType> for u32 {
    open spec fn obeys_from_spec() -> bool {
        true
    }

    closed spec fn from_spec(value: ServiceType) -> u32 {
        value.0
    }
}

/// Two values of this type with the same raw value are the same value.
pub proof fn lemma_service_type_by_code(a: ServiceType, b: ServiceType)
    ensures
        a.code() == b.code() <==> a == b,
{
}

/// Whether `code` is one of the named start types.
pub open spec fn known_start_type(code: u32) -> bool {
    ||| code == SERVICE_BOOT_START
    ||| code == SERVICE_SYSTEM_START
    ||| code == SERVICE_AUTO_START
    ||| code == SERVICE_DEMAND_START
    ||| code == SERVICE_DISABLED
}

/// When a service is started.
#[derive(Clone, Copy, Debug, PartialEq, Eq, Hash, Structural)]
pub struct ServiceStartType(u32);

#[allow(non_snake_case)]
impl ServiceStartType {
    /// The raw value that the platform knows this by.
    pub closed spec fn spec_code(self) -> u32 {
        self.0
    }

    /// The raw value that the platform knows this by.
    #[verifier::when_used_as_spec(spec_code)]
    pub fn code(self) -> (r: u32)
        ensures
            r == self.code(),
    {
        self.0
    }

    /// Whether this is one of the named values. The platform decides what it
    /// accepts; nothing here rejects a value that has no name.
    pub fn is_known(self) -> (r: bool)
        ensures
            r == known_start_type(self.code()),
    {
        let c: u32 = self.0;
        c == SERVICE_BOOT_START
            || c == SERVICE_SYSTEM_START
            || c == SERVICE_AUTO_START
            || c == SERVICE_DEMAND_START
            || c == SERVICE_DISABLED
    }

    /// A device driver started by the system loader.
    pub fn SERVICE_BOOT_START() -> (r: ServiceStartType)
        ensures
            r.code() == SERVICE_BOOT_START,
    {
        ServiceStartType(SERVICE_BOOT_START)
    }

    /// A device driver started when the system initialises.
    pub fn SERVICE_SYSTEM_START() -> (r: ServiceStartType)
        ensures
            r.code() == SERVICE_SYSTEM_START,
    {
        ServiceStartType(SERVICE_SYSTEM_START)
    }

    /// A service started by the service control manager at system startup.
    pub fn SERVICE_AUTO_START() -> (r: ServiceStartType)
        ensures
            r.code() == SERVICE_AUTO_START,
    {
        ServiceStartType(SERVICE_AUTO_START)
    }

    /// A service started on request.
    pub fn SERVICE_DEMAND_START() -> (r: ServiceStartType)
        ensures
            r.code() == SERVICE_DEMAND_START,
    {
        ServiceStartType(SERVICE_DEMAND_START)
    }

    /// A service that cannot be started.
    pub fn SERVICE_DISABLED() -> (r: ServiceStartType)
        ensures
            r.code() == SERVICE_DISABLED,
    {
        ServiceStartType(SERVICE_DISABLED)
    }
}

impl From<u32> for ServiceStartType {
    fn from(code: u32) -> (r: ServiceStartType)
        ensures
            r.code() == code,
    {
        ServiceStartType(code)
    }
}

impl FromSpecImpl<u32> for ServiceStartType {
    open spec fn obeys_from_spec() -> bool {
        true
    }

    closed spec fn from_spec(code: u32) -> ServiceStartType {
        ServiceStartType(code)
    }
}

impl From<ServiceStartType> for u32 {
    fn from(value: ServiceStartType) -> (r: u32)
        ensures
            r == value.code(),
    {
        value.0
    }
}

impl FromSpecImpl<ServiceStartType> for u32 {
    open spec fn obeys_from_spec() -> bool {
        true
    }

    closed spec fn from_spec(value: ServiceStartType) -> u32 {
        value.0
    }
}

/// Two values of this type with the same raw value are the same value.
pub proof fn lemma_service_start_type_by_code(a: ServiceStartType, b: ServiceStartType)
    ensures
        a.code() == b.code() <==> a == b,
{
}

/// Whether `code` is one of the named error control levels.
pub open spec fn known_error_control(code: u32) -> bool {
    ||| code == SERVICE_ERROR_IGNORE
    ||| code == SERVICE_ERROR_NORMAL
    ||| code == SERVICE_ERROR_SEVERE
    ||| code == SERVICE_ERROR_CRITICAL
}

/// What the startup program does when a service fails to start.
#[derive(Clone, Copy, Debug, PartialEq, Eq, Hash, Structural)]
pub struct ServiceErrorControl(u32);

#[allow(non_snake_case)]
impl ServiceErrorControl {
    /// The raw value that the platform knows this by.
    pub closed spec fn spec_code(self) -> u32 {
        self.0
    }

    /// The raw value that the platform knows this by.
    #[verifier::when_used_as_spec(spec_code)]
    pub fn code(self) -> (r: u32)
        ensures
            r == self.code(),
    {
        self.0
    }

    /// Whether this is one of the named values. The platform decides what it
    /// accepts; nothing here rejects a value that has no name.
    pub fn is_known(self) -> (r: bool)
        ensures
            r == known_error_control(self.code()),
    {
        let c: u32 = self.0;
        c == SERVICE_ERROR_IGNORE
            || c == SERVICE_ERROR_NORMAL
            || c == SERVICE_ERROR_SEVERE
            || c == SERVICE_ERROR_CRITICAL
    }

    /// The startup program ignores the error and continues.
    pub fn SERVICE_ERROR_IGNORE() -> (r: ServiceErrorControl)
        ensures
            r.code() == SERVICE_ERROR_IGNORE,
    {
        ServiceErrorControl(SERVICE_ERROR_IGNORE)
    }

    /// The startup program logs the error and continues.
    pub fn SERVICE_ERROR_NORMAL() -> (r: ServiceErrorControl)
        ensures
            r.code() == SERVICE_ERROR_NORMAL,
    {
        ServiceErrorControl(SERVICE_ERROR_NORMAL)
    }

    /// The startup program logs the error and restarts with the last known
    /// good configuration, or continues if that one is already running.
    pub fn SERVICE_ERROR_SEVERE() -> (r: ServiceErrorControl)
        ensures
            r.code() == SERVICE_ERROR_SEVERE,
    {
        ServiceErrorControl(SERVICE_ERROR_SEVERE)
    }

    /// The startup program logs the error and restarts with the last known
    /// good configuration, or fails if that one is already running.
    pub fn SERVICE_ERROR_CRITICAL() -> (r: ServiceErrorControl)
        ensures
            r.code() == SERVICE_ERROR_CRITICAL,
    {
        ServiceErrorControl(SERVICE_ERROR_CRITICAL)
    }
}

impl From<u32> for ServiceErrorControl {
    fn from(code: u32) -> (r: ServiceErrorControl)
        ensures
            r.code() == code,
    {
        ServiceErrorControl(code)
    }
}

impl FromSpecImpl<u32> for ServiceErrorControl {
    open spec fn obeys_from_spec() -> bool {
        true
    }

    closed spec fn from_spec(code: u32) -> ServiceErrorControl {
        ServiceErrorControl(code)
    }
}

impl From<ServiceErrorControl> for u32 {
    fn from(value: ServiceErrorControl) -> (r: u32)
        ensures
            r == value.code(),
    {
        value.0
    }
}

impl FromSpecImpl<ServiceErrorControl> for u32 {
    open spec fn obeys_from_spec() -> bool {
        true
    }

    closed spec fn from_spec(value: ServiceErrorControl) -> u32 {
        value.0
    }
}

/// Two values of this type with the same raw value are the same value.
pub proof fn lemma_service_error_control_by_code(a: ServiceErrorControl, b: ServiceErrorControl)
    ensures
        a.code() == b.code() <==> a == b,
{
}

/// Whether `code` is one of the named control codes.
pub open spec fn known_control_code(code: u32) -> bool {
    ||| code == SERVICE_CONTROL_STOP
    ||| code == SERVICE_CONTROL_PAUSE
    ||| code == SERVICE_CONTROL_CONTINUE
    ||| code == SERVICE_CONTROL_INTERROGATE
    ||| code == SERVICE_CONTROL_PARAMCHANGE
    ||| code == SERVICE_CONTROL_NETBINDADD
    ||| code == SERVICE_CONTROL_NETBINDREMOVE
    ||| code == SERVICE_CONTROL_NETBINDENABLE
    ||| code == SERVICE_CONTROL_NETBINDDISABLE
}

/// A control code that can be sent to a service.
#[derive(Clone, Copy, Debug, PartialEq, Eq, Hash, Structural)]
pub struct ServiceControlCode(u32);

#[allow(non_snake_case)]
impl ServiceControlCode {
    /// The raw value that the platform knows this by.
    pub closed spec fn spec_code(self) -> u32 {
        self.0
    }

    /// The raw value that the platform knows this by.
    #[verifier::when_used_as_spec(spec_code)]
    pub fn code(self) -> (r: u32)
        ensures
            r == self.code(),
    {
        self.0
    }

    /// Whether this is one of the named values. The platform decides what it
    /// accepts; nothing here rejects a value that has no name.
    pub fn is_known(self) -> (r: bool)
        ensures
            r == known_control_code(self.code()),
    {
        let c: u32 = self.0;
        c == SERVICE_CONTROL_STOP
            || c == SERVICE_CONTROL_PAUSE
            || c == SERVICE_CONTROL_CONTINUE
            || c == SERVICE_CONTROL_INTERROGATE
            || c == SERVICE_CONTROL_PARAMCHANGE
            || c == SERVICE_CONTROL_NETBINDADD
            || c == SERVICE_CONTROL_NETBINDREMOVE
            || c == SERVICE_CONTROL_NETBINDENABLE
            || c == SERVICE_CONTROL_NETBINDDISABLE
    }

    /// Asks the service to stop.
    pub fn SERVICE_CONTROL_STOP() -> (r: ServiceControlCode)
        ensures
            r.code() == SERVICE_CONTROL_STOP,
    {
        ServiceControlCode(SERVICE_CONTROL_STOP)
    }

    /// Asks the service to pause.
    pub fn SERVICE_CONTROL_PAUSE() -> (r: ServiceControlCode)
        ensures
            r.code() == SERVICE_CONTROL_PAUSE,
    {
        ServiceControlCode(SERVICE_CONTROL_PAUSE)
    }

    /// Asks a paused service to resume.
    pub fn SERVICE_CONTROL_CONTINUE() -> (r: ServiceControlCode)
        ensures
            r.code() == SERVICE_CONTROL_CONTINUE,
    {
        ServiceControlCode(SERVICE_CONTROL_CONTINUE)
    }

    /// Asks the service to report its status.
    pub fn SERVICE_CONTROL_INTERROGATE() -> (r: ServiceControlCode)
        ensures
            r.code() == SERVICE_CONTROL_INTERROGATE,
    {
        ServiceControlCode(SERVICE_CONTROL_INTERROGATE)
    }

    /// Tells the service that its startup parameters have changed.
    pub fn SERVICE_CONTROL_PARAMCHANGE() -> (r: ServiceControlCode)
        ensures
            r.code() == SERVICE_CONTROL_PARAMCHANGE,
    {
        ServiceControlCode(SERVICE_CONTROL_PARAMCHANGE)
    }

    /// Tells a network service that there is a new component to bind to.
    pub fn SERVICE_CONTROL_NETBINDADD() -> (r: ServiceControlCode)
        ensures
            r.code() == SERVICE_CONTROL_NETBINDADD,
    {
        ServiceControlCode(SERVICE_CONTROL_NETBINDADD)
    }

    /// Tells a network service that a component it binds to has been removed.
    pub fn SERVICE_CONTROL_NETBINDREMOVE() -> (r: ServiceControlCode)
        ensures
            r.code() == SERVICE_CONTROL_NETBINDREMOVE,
    {
        ServiceControlCode(SERVICE_CONTROL_NETBINDREMOVE)
    }

    /// Tells a network service that a disabled binding has been enabled.
    pub fn SERVICE_CONTROL_NETBINDENABLE() -> (r: ServiceControlCode)
        ensures
            r.code() == SERVICE_CONTROL_NETBINDENABLE,
    {
        ServiceControlCode(SERVICE_CONTROL_NETBINDENABLE)
    }

    /// Tells a network service that one of its bindings has been disabled.
    pub fn SERVICE_CONTROL_NETBINDDISABLE() -> (r: ServiceControlCode)
        ensures
            r.code() == SERVICE_CONTROL_NETBINDDISABLE,
    {
        ServiceControlCode(SERVICE_CONTROL_NETBINDDISABLE)
    }
}

impl From<u32> for ServiceControlCode {
    fn from(code: u32) -> (r: ServiceControlCode)
        ensures
            r.code() == code,
    {
        ServiceControlCode(code)
    }
}

impl FromSpecImpl<u32> for ServiceControlCode {
    open spec fn obeys_from_spec() -> bool {
        true
    }

    closed spec fn from_spec(code: u32) -> ServiceControlCode {
        ServiceControlCode(code)
    }
}

impl From<ServiceControlCode> for u32 {
    fn from(value: ServiceControlCode) -> (r: u32)
        ensures
            r == value.code(),
    {
        value.0
    }
}

impl FromSpecImpl<ServiceControlCode> for u32 {
    open spec fn obeys_from_spec() -> bool {
        true
    }

    closed spec fn from_spec(value: ServiceControlCode) -> u32 {
        value.0
    }
}

/// Two values of this type with the same raw value are the same value.
pub proof fn lemma_service_control_code_by_code(a: ServiceControlCode, b: ServiceControlCode)
    ensures
        a.code() == b.code() <==> a == b,
{
}

/// Whether `code` is one of the named status codes.
pub open spec fn known_status(code: u32) -> bool {
    ||| code == SERVICE_STOPPED
    ||| code == SERVICE_START_PENDING
    ||| code == SERVICE_STOP_PENDING
    ||| code == SERVICE_RUNNING
    ||| code == SERVICE_CONTINUE_PENDING
    ||| code == SERVICE_PAUSE_PENDING
    ||| code == SERVICE_PAUSED
}

/// The state of a service, as the platform reported it.
#[derive(Clone, Copy, Debug, PartialEq, Eq, Hash, Structural)]
pub struct ServiceStatus(u32);

#[allow(non_snake_case)]
impl ServiceStatus {
    /// The raw value that the platform knows this by.
    pub closed spec fn spec_code(self) -> u32 {
        self.0
    }

    /// The raw value that the platform knows this by.
    #[verifier::when_used_as_spec(spec_code)]
    pub fn code(self) -> (r: u32)
        ensures
            r == self.code(),
    {
        self.0
    }

    /// Whether this is one of the named states. The platform may report
    /// others.
    pub fn is_known(self) -> (r: bool)
        ensures
            r == known_status(self.code()),
    {
        let c: u32 = self.0;
        c == SERVICE_STOPPED
            || c == SERVICE_START_PENDING
            || c == SERVICE_STOP_PENDING
            || c == SERVICE_RUNNING
            || c == SERVICE_CONTINUE_PENDING
            || c == SERVICE_PAUSE_PENDING
            || c == SERVICE_PAUSED
    }

    /// The service is not running.
    pub fn SERVICE_STOPPED() -> (r: ServiceStatus)
        ensures
            r.code() == SERVICE_STOPPED,
    {
        ServiceStatus(SERVICE_STOPPED)
    }

    /// The service is starting.
    pub fn SERVICE_START_PENDING() -> (r: ServiceStatus)
        ensures
            r.code() == SERVICE_START_PENDING,
    {
        ServiceStatus(SERVICE_START_PENDING)
    }

    /// The service is stopping.
    pub fn SERVICE_STOP_PENDING() -> (r: ServiceStatus)
        ensures
            r.code() == SERVICE_STOP_PENDING,
    {
        ServiceStatus(SERVICE_STOP_PENDING)
    }

    /// The service is running.
    pub fn SERVICE_RUNNING() -> (r: ServiceStatus)
        ensures
            r.code() == SERVICE_RUNNING,
    {
        ServiceStatus(SERVICE_RUNNING)
    }

    /// The service is about to continue.
    pub fn SERVICE_CONTINUE_PENDING() -> (r: ServiceStatus)
        ensures
            r.code() == SERVICE_CONTINUE_PENDING,
    {
        ServiceStatus(SERVICE_CONTINUE_PENDING)
    }

    /// The service is about to pause.
    pub fn SERVICE_PAUSE_PENDING() -> (r: ServiceStatus)
        ensures
            r.code() == SERVICE_PAUSE_PENDING,
    {
        ServiceStatus(SERVICE_PAUSE_PENDING)
    }

    /// The service is paused.
    pub fn SERVICE_PAUSED() -> (r: ServiceStatus)
        ensures
            r.code() == SERVICE_PAUSED,
    {
        ServiceStatus(SERVICE_PAUSED)
    }
}

impl From<u32> for ServiceStatus {
    fn from(code: u32) -> (r: ServiceStatus)
        ensures
            r.code() == code,
    {
        ServiceStatus(code)
    }
}

impl FromSpecImpl<u32> for ServiceStatus {
    open spec fn obeys_from_spec() -> bool {
        true
    }

    closed spec fn from_spec(code: u32) -> ServiceStatus {
        ServiceStatus(code)
    }
}

impl From<ServiceStatus> for u32 {
    fn from(value: ServiceStatus) -> (r: u32)
        ensures
            r == value.code(),
    {
        value.0
    }
}

impl FromSpecImpl<ServiceStatus> for u32 {
    open spec fn obeys_from_spec() -> bool {
        true
    }

    closed spec fn from_spec(value: ServiceStatus) -> u32 {
        value.0
    }
}

/// Two values of this type with the same raw value are the same value.
pub proof fn lemma_service_status_by_code(a: ServiceStatus, b: ServiceStatus)
    ensures
        a.code() == b.code() <==> a == b,
{
}

/// The kinds of failure that the platform reports.
#[derive(Clone, Copy, Debug, PartialEq, Eq, Hash, Structural)]
pub enum ServiceErrorKind {
    /// The handle lacks the access right that the request needs.
    AccessDenied,
    /// The handle is not valid.
    InvalidHandle,
    /// The service name is not valid.
    InvalidName,
    /// A parameter of the request is not valid.
    InvalidParameter,
    /// The name is taken: a service is registered under it already, or it is
    /// in use as the name or the display name of another.
    DuplicateServiceName,
    /// The dependencies of the service form a cycle.
    CircularDependency,
    /// The service is marked for deletion.
    MarkedForDeletion,
    /// The binary file of the service was not found.
    BinaryPathNotFound,
    /// An instance of the service is already running.
    AlreadyRunning,
    /// The service database is locked.
    DatabaseLocked,
    /// A service that this one depends on does not exist or is marked for
    /// deletion.
    DependencyDeleted,
    /// A service that this one depends on failed to start.
    DependencyStartFailed,
    /// The service is disabled.
    ServiceDisabled,
    /// The service could not log on.
    LogonFailed,
    /// No thread could be created for the service.
    NoThreadAvailable,
    /// The service did not answer the start request in time.
    RequestTimedOut,
    /// Any other failure, with the code that the platform reported.
    Unknown(u32),
}

/// The kind of failure that a raw error code stands for. A service name in
/// use and a display name in use are both a duplicate service name. A code
/// that stands for none of the kinds keeps its raw value; the code for an
/// account that does not exist is one of these, though it has a description.
pub open spec fn error_kind(code: u32) -> ServiceErrorKind {
    if code == ERROR_PATH_NOT_FOUND {
        ServiceErrorKind::BinaryPathNotFound
    } else if code == ERROR_ACCESS_DENIED {
        ServiceErrorKind::AccessDenied
    } else if code == ERROR_INVALID_HANDLE {
        ServiceErrorKind::InvalidHandle
    } else if code == ERROR_INVALID_PARAMETER {
        ServiceErrorKind::InvalidParameter
    } else if code == ERROR_INVALID_NAME {
        ServiceErrorKind::InvalidName
    } else if code == ERROR_SERVICE_REQUEST_TIMEOUT {
        ServiceErrorKind::RequestTimedOut
    } else if code == ERROR_SERVICE_NO_THREAD {
        ServiceErrorKind::NoThreadAvailable
    } else if code == ERROR_SERVICE_DATABASE_LOCKED {
        ServiceErrorKind::DatabaseLocked
    } else if code == ERROR_SERVICE_ALREADY_RUNNING {
        ServiceErrorKind::AlreadyRunning
    } else if code == ERROR_SERVICE_DISABLED {
        ServiceErrorKind::ServiceDisabled
    } else if code == ERROR_CIRCULAR_DEPENDENCY {
        ServiceErrorKind::CircularDependency
    } else if code == ERROR_SERVICE_DEPENDENCY_FAIL {
        ServiceErrorKind::DependencyStartFailed
    } else if code == ERROR_SERVICE_LOGON_FAILED {
        ServiceErrorKind::LogonFailed
    } else if code == ERROR_SERVICE_MARKED_FOR_DELETE {
        ServiceErrorKind::MarkedForDeletion
    } else if code == ERROR_SERVICE_EXISTS {
        ServiceErrorKind::DuplicateServiceName
    } else if code == ERROR_SERVICE_DEPENDENCY_DELETED {
        ServiceErrorKind::DependencyDeleted
    } else if code == ERROR_DUPLICATE_SERVICE_NAME {
        ServiceErrorKind::DuplicateServiceName
    } else {
        ServiceErrorKind::Unknown(code)
    }
}

/// Whether `code` is one of the named error codes.
pub open spec fn known_error(code: u32) -> bool {
    ||| code == ERROR_PATH_NOT_FOUND
    ||| code == ERROR_ACCESS_DENIED
    ||| code == ERROR_INVALID_HANDLE
    ||| code == ERROR_INVALID_PARAMETER
    ||| code == ERROR_INVALID_NAME
    ||| code == ERROR_SERVICE_REQUEST_TIMEOUT
    ||| code == ERROR_SERVICE_NO_THREAD
    ||| code == ERROR_SERVICE_DATABASE_LOCKED
    ||| code == ERROR_SERVICE_ALREADY_RUNNING
    ||| code == ERROR_INVALID_SERVICE_ACCOUNT
    ||| code == ERROR_SERVICE_DISABLED
    ||| code == ERROR_CIRCULAR_DEPENDENCY
    ||| code == ERROR_SERVICE_DEPENDENCY_FAIL
    ||| code == ERROR_SERVICE_LOGON_FAILED
    ||| code == ERROR_SERVICE_MARKED_FOR_DELETE
    ||| code == ERROR_SERVICE_EXISTS
    ||| code == ERROR_SERVICE_DEPENDENCY_DELETED
    ||| code == ERROR_DUPLICATE_SERVICE_NAME
}

/// A failure that the platform reported, by its raw error code.
#[derive(Clone, Copy, Debug, PartialEq, Eq, Hash, Structural)]
pub struct ServiceError(u32);

#[allow(non_snake_case)]
impl ServiceError {
    /// The raw value that the platform knows this by.
    pub closed spec fn spec_code(self) -> u32 {
        self.0
    }

    /// The raw value that the platform knows this by.
    #[verifier::when_used_as_spec(spec_code)]
    pub fn code(self) -> (r: u32)
        ensures
            r == self.code(),
    {
        self.0
    }

    /// Whether this is one of the named errors. The platform may report
    /// others.
    pub fn is_known(self) -> (r: bool)
        ensures
            r == known_error(self.code()),
    {
        let c: u32 = self.0;
        c == ERROR_PATH_NOT_FOUND
            || c == ERROR_ACCESS_DENIED
            || c == ERROR_INVALID_HANDLE
            || c == ERROR_INVALID_PARAMETER
            || c == ERROR_INVALID_NAME
            || c == ERROR_SERVICE_REQUEST_TIMEOUT
            || c == ERROR_SERVICE_NO_THREAD
            || c == ERROR_SERVICE_DATABASE_LOCKED
            || c == ERROR_SERVICE_ALREADY_RUNNING
            || c == ERROR_INVALID_SERVICE_ACCOUNT
            || c == ERROR_SERVICE_DISABLED
            || c == ERROR_CIRCULAR_DEPENDENCY
            || c == ERROR_SERVICE_DEPENDENCY_FAIL
            || c == ERROR_SERVICE_LOGON_FAILED
            || c == ERROR_SERVICE_MARKED_FOR_DELETE
            || c == ERROR_SERVICE_EXISTS
            || c == ERROR_SERVICE_DEPENDENCY_DELETED
            || c == ERROR_DUPLICATE_SERVICE_NAME
    }

    /// The binary file of the service was not found.
    pub fn ERROR_PATH_NOT_FOUND() -> (r: ServiceError)
        ensures
            r.code() == ERROR_PATH_NOT_FOUND,
    {
        ServiceError(ERROR_PATH_NOT_FOUND)
    }

    /// The handle lacks the access right that the request needs.
    pub fn ERROR_ACCESS_DENIED() -> (r: ServiceError)
        ensures
            r.code() == ERROR_ACCESS_DENIED,
    {
        ServiceError(ERROR_ACCESS_DENIED)
    }

    /// The handle is not valid.
    pub fn ERROR_INVALID_HANDLE() -> (r: ServiceError)
        ensures
            r.code() == ERROR_INVALID_HANDLE,
    {
        ServiceError(ERROR_INVALID_HANDLE)
    }

    /// A parameter of the request is not valid.
    pub fn ERROR_INVALID_PARAMETER() -> (r: ServiceError)
        ensures
            r.code() == ERROR_INVALID_PARAMETER,
    {
        ServiceError(ERROR_INVALID_PARAMETER)
    }

    /// The service name is not valid.
    pub fn ERROR_INVALID_NAME() -> (r: ServiceError)
        ensures
            r.code() == ERROR_INVALID_NAME,
    {
        ServiceError(ERROR_INVALID_NAME)
    }

    /// The service did not answer the start request in time.
    pub fn ERROR_SERVICE_REQUEST_TIMEOUT() -> (r: ServiceError)
        ensures
            r.code() == ERROR_SERVICE_REQUEST_TIMEOUT,
    {
        ServiceError(ERROR_SERVICE_REQUEST_TIMEOUT)
    }

    /// No thread could be created for the service.
    pub fn ERROR_SERVICE_NO_THREAD() -> (r: ServiceError)
        ensures
            r.code() == ERROR_SERVICE_NO_THREAD,
    {
        ServiceError(ERROR_SERVICE_NO_THREAD)
    }

    /// The service database is locked.
    pub fn ERROR_SERVICE_DATABASE_LOCKED() -> (r: ServiceError)
        ensures
            r.code() == ERROR_SERVICE_DATABASE_LOCKED,
    {
        ServiceError(ERROR_SERVICE_DATABASE_LOCKED)
    }

    /// An instance of the service is already running.
    pub fn ERROR_SERVICE_ALREADY_RUNNING() -> (r: ServiceError)
        ensures
            r.code() == ERROR_SERVICE_ALREADY_RUNNING,
    {
        ServiceError(ERROR_SERVICE_ALREADY_RUNNING)
    }

    /// The account that the service is to run under does not exist.
    pub fn ERROR_INVALID_SERVICE_ACCOUNT() -> (r: ServiceError)
        ensures
            r.code() == ERROR_INVALID_SERVICE_ACCOUNT,
    {
        ServiceError(ERROR_INVALID_SERVICE_ACCOUNT)
    }

    /// The service is disabled.
    pub fn ERROR_SERVICE_DISABLED() -> (r: ServiceError)
        ensures
            r.code() == ERROR_SERVICE_DISABLED,
    {
        ServiceError(ERROR_SERVICE_DISABLED)
    }

    /// The dependencies of the service form a cycle.
    pub fn ERROR_CIRCULAR_DEPENDENCY() -> (r: ServiceError)
        ensures
            r.code() == ERROR_CIRCULAR_DEPENDENCY,
    {
        ServiceError(ERROR_CIRCULAR_DEPENDENCY)
    }

    /// A service that this one depends on failed to start.
    pub fn ERROR_SERVICE_DEPENDENCY_FAIL() -> (r: ServiceError)
        ensures
            r.code() == ERROR_SERVICE_DEPENDENCY_FAIL,
    {
        ServiceError(ERROR_SERVICE_DEPENDENCY_FAIL)
    }

    /// The service could not log on.
    pub fn ERROR_SERVICE_LOGON_FAILED() -> (r: ServiceError)
        ensures
            r.code() == ERROR_SERVICE_LOGON_FAILED,
    {
        ServiceError(ERROR_SERVICE_LOGON_FAILED)
    }

    /// The service is marked for deletion.
    pub fn ERROR_SERVICE_MARKED_FOR_DELETE() -> (r: ServiceError)
        ensures
            r.code() == ERROR_SERVICE_MARKED_FOR_DELETE,
    {
        ServiceError(ERROR_SERVICE_MARKED_FOR_DELETE)
    }

    /// A service of that name exists already.
    pub fn ERROR_SERVICE_EXISTS() -> (r: ServiceError)
        ensures
            r.code() == ERROR_SERVICE_EXISTS,
    {
        ServiceError(ERROR_SERVICE_EXISTS)
    }

    /// A service that this one depends on does not exist or is marked for
    /// deletion.
    pub fn ERROR_SERVICE_DEPENDENCY_DELETED() -> (r: ServiceError)
        ensures
            r.code() == ERROR_SERVICE_DEPENDENCY_DELETED,
    {
        ServiceError(ERROR_SERVICE_DEPENDENCY_DELETED)
    }

    /// The display name is already in use as a service name or display name.
    pub fn ERROR_DUPLICATE_SERVICE_NAME() -> (r: ServiceError)
        ensures
            r.code() == ERROR_DUPLICATE_SERVICE_NAME,
    {
        ServiceError(ERROR_DUPLICATE_SERVICE_NAME)
    }

    /// The kind of failure that this code stands for; a code that stands for
    /// none of the kinds keeps its raw value.
    pub fn kind(self) -> (r: ServiceErrorKind)
        ensures
            r == error_kind(self.code()),
    {
        let c: u32 = self.0;
        if c == ERROR_PATH_NOT_FOUND {
            ServiceErrorKind::BinaryPathNotFound
        } else if c == ERROR_ACCESS_DENIED {
            ServiceErrorKind::AccessDenied
        } else if c == ERROR_INVALID_HANDLE {
            ServiceErrorKind::InvalidHandle
        } else if c == ERROR_INVALID_PARAMETER {
            ServiceErrorKind::InvalidParameter
        } else if c == ERROR_INVALID_NAME {
            ServiceErrorKind::InvalidName
        } else if c == ERROR_SERVICE_REQUEST_TIMEOUT {
            ServiceErrorKind::RequestTimedOut
        } else if c == ERROR_SERVICE_NO_THREAD {
            ServiceErrorKind::NoThreadAvailable
        } else if c == ERROR_SERVICE_DATABASE_LOCKED {
            ServiceErrorKind::DatabaseLocked
        } else if c == ERROR_SERVICE_ALREADY_RUNNING {
            ServiceErrorKind::AlreadyRunning
        } else if c == ERROR_SERVICE_DISABLED {
            ServiceErrorKind::ServiceDisabled
        } else if c == ERROR_CIRCULAR_DEPENDENCY {
            ServiceErrorKind::CircularDependency
        } else if c == ERROR_SERVICE_DEPENDENCY_FAIL {
            ServiceErrorKind::DependencyStartFailed
        } else if c == ERROR_SERVICE_LOGON_FAILED {
            ServiceErrorKind::LogonFailed
        } else if c == ERROR_SERVICE_MARKED_FOR_DELETE {
            ServiceErrorKind::MarkedForDeletion
        } else if c == ERROR_SERVICE_EXISTS {
            ServiceErrorKind::DuplicateServiceName
        } else if c == ERROR_SERVICE_DEPENDENCY_DELETED {
            ServiceErrorKind::DependencyDeleted
        } else if c == ERROR_DUPLICATE_SERVICE_NAME {
            ServiceErrorKind::DuplicateServiceName
        } else {
            ServiceErrorKind::Unknown(c)
        }
    }
}

impl From<u32> for ServiceError {
    fn from(code: u32) -> (r: ServiceError)
        ensures
            r.code() == code,
    {
        ServiceError(code)
    }
}

impl FromSpecImpl<u32> for ServiceError {
    open spec fn obeys_from_spec() -> bool {
        true
    }

    closed spec fn from_spec(code: u32) -> ServiceError {
        ServiceError(code)
    }
}

impl From<ServiceError> for u32 {
    fn from(value: ServiceError) -> (r: u32)
        ensures
            r == value.code(),
    {
        value.0
    }
}

impl FromSpecImpl<ServiceError> for u32 {
    open spec fn obeys_from_spec() -> bool {
        true
    }

    closed spec fn from_spec(value: ServiceError) -> u32 {
        value.0
    }
}

/// Two values of this type with the same raw value are the same value.
pub proof fn lemma_service_error_by_code(a: ServiceError, b: ServiceError)
    ensures
        a.code() == b.code() <==> a == b,
{
}

} // verus!
