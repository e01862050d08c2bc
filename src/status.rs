use vstd::prelude::*;

verus! {

/// Return code of the card-terminal interface, carried as a signed byte.
#[allow(non_camel_case_types)]
#[derive(Clone, Copy, Debug, PartialEq, Eq, Structural)]
pub enum Status {
    OK,
    ERR_INVALID,
    ERR_CT,
    ERR_TRANS,
    ERR_MEMORY,
    ERR_HOST,
    ERR_HTSI,
    /// A code that none of the named statuses carries, kept as it came.
    Unknown(i8),
}

/// The status that a signed byte stands for.
pub open spec fn status_of(code: i8) -> Status {
    if code == 0 {
        Status::OK
    } else if code == -1 {
        Status::ERR_INVALID
    } else if code == -8 {
        Status::ERR_CT
    } else if code == -10 {
        Status::ERR_TRANS
    } else if code == -11 {
        Status::ERR_MEMORY
    } else if code == -127 {
        Status::ERR_HOST
    } else if code == -128 {
        Status::ERR_HTSI
    } else {
        Status::Unknown(code)
    }
}

/// The signed byte that a status is carried as.
pub open spec fn code_of(status: Status) -> i8 {
    match status {
        Status::OK => 0i8,
        Status::ERR_INVALID => -1i8,
        Status::ERR_CT => -8i8,
        Status::ERR_TRANS => -10i8,
        Status::ERR_MEMORY => -11i8,
        Status::ERR_HOST => -127i8,
        Status::ERR_HTSI => -128i8,
        Status::Unknown(n) => n,
    }
}

impl Status {
    /// Holds unless the status is an `Unknown` that carries the code of a
    /// named status; every status that `from_i8` gives is canonical.
    pub open spec fn canonical(self) -> bool {
        self matches Status::Unknown(n) ==> status_of(n) == self
    }

    pub fn from_i8(value: i8) -> (r: Status)
        ensures
            r == status_of(value),
            r.canonical(),
    {
        match value {
            0 => Status::OK,
            -1 => Status::ERR_INVALID,
            -8 => Status::ERR_CT,
            -10 => Status::ERR_TRANS,
            -11 => Status::ERR_MEMORY,
            -127 => Status::ERR_HOST,
            _ if value == i8::MIN => Status::ERR_HTSI,
            _ => Status::Unknown(value),
        }
    }

    /// The signed byte this status is carried as.
    pub fn code(&self) -> (r: i8)
        ensures
            r == code_of(*self),
    {
        match self {
            Status::OK => 0,
            Status::ERR_INVALID => -1,
            Status::ERR_CT => -8,
            Status::ERR_TRANS => -10,
            Status::ERR_MEMORY => -11,
            Status::ERR_HOST => -127,
            Status::ERR_HTSI => i8::MIN,
            Status::Unknown(n) => *n,
        }
    }
}

impl From<i8> for Status {
    fn from(value: i8) -> Status {
        Status::from_i8(value)
    }
}

impl vstd::std_specs::convert::FromSpecImpl<i8> for Status {
    open spec fn obeys_from_spec() -> bool {
        true
    }

    open spec fn from_spec(value: i8) -> Status {
        status_of(value)
    }
}

impl From<Status> for i8 {
    fn from(status: Status) -> i8 {
        status.code()
    }
}

impl vstd::std_specs::convert::FromSpecImpl<Status> for i8 {
    open spec fn obeys_from_spec() -> bool {
        true
    }

    open spec fn from_spec(status: Status) -> i8 {
        code_of(status)
    }
}

/// Every signed byte comes back unchanged through its status, and every
/// canonical status comes back unchanged through its byte.
pub proof fn lemma_code_round_trip(code: i8, status: Status)
    requires
        status.canonical(),
    ensures
        code_of(status_of(code)) == code,
        status_of(code_of(status)) == status,
{
}

/// No two canonical statuses share a byte.
pub proof fn lemma_code_injective(a: Status, b: Status)
    requires
        a.canonical(),
        b.canonical(),
        code_of(a) == code_of(b),
    ensures
        a == b,
{
    lemma_code_round_trip(0, a);
    lemma_code_round_trip(0, b);
}

} // verus!
