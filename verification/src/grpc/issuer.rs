//! The issuer service: each request is checked, becomes one storage call on
//! one lane, and is answered with what that call gave.
use crate::grpc::error::{HandlerError, Status, StorageCallError};
use crate::queue::Versioned;
use vstd::prelude::*;

verus! {

/// How many issuers a page holds where the request does not say.
pub const DEFAULT_LIST_LIMIT: u32 = 50;

/// How many issuers a page holds at most.
pub const MAX_LIST_LIMIT: u32 = 1_000;

/// The version of a record that was just created.
pub const FIRST_VERSION: u32 = 1;

/// The size of a page.
pub open spec fn page_limit(requested: u32) -> u32 {
    if requested == 0 {
        DEFAULT_LIST_LIMIT
    } else if requested <= MAX_LIST_LIMIT {
        requested
    } else {
        MAX_LIST_LIMIT
    }
}

/// The operations of the service.
#[derive(Clone, Copy, Debug, PartialEq, Eq, Structural)]
pub enum IssuerOperation {
    Register,
    Get,
    List,
    Patch,
    Delete,
}

impl IssuerOperation {
    pub open spec fn name(self) -> Seq<char> {
        match self {
            IssuerOperation::Register => "issuer.register"@,
            IssuerOperation::Get => "issuer.get"@,
            IssuerOperation::List => "issuer.list"@,
            IssuerOperation::Patch => "issuer.patch"@,
            IssuerOperation::Delete => "issuer.delete"@,
        }
    }

    /// Whether the operation changes anything.
    pub open spec fn mutates(self) -> bool {
        !(self == IssuerOperation::Get || self == IssuerOperation::List)
    }
}

/// Where a storage call runs.
#[derive(Clone, Copy, Debug, PartialEq, Eq, Structural)]
pub enum Lane {
    Read,
    /// With `dry_run` inside a savepoint that is always rolled back.
    Write { dry_run: bool },
}

/// A storage call that a request makes, with what it needs.
#[derive(Clone, Debug)]
pub struct StorageCall<T> {
    pub operation: String,
    pub lane: Lane,
    pub input: T,
}

/// What a listing asks for: a page of issuers after one, or from the start.
#[derive(Clone, Debug)]
pub struct ListPage<T> {
    pub after: Option<T>,
    pub limit: u32,
}

/// The lane of an operation: reads never write, and a dry run stays one.
pub open spec fn lane_of(operation: IssuerOperation, dry_run: bool) -> Lane {
    if operation.mutates() {
        Lane::Write { dry_run }
    } else {
        Lane::Read
    }
}

/// The service, on some storage.
#[derive(Clone, Debug)]
pub struct IssuerGrpc<S> {
    storage: S,
}

impl<S> IssuerGrpc<S> {
    /// The storage that the service runs on.
    pub closed spec fn backing(&self) -> S {
        self.storage
    }

    pub fn new(storage: S) -> (service: IssuerGrpc<S>)
        ensures
            service.backing() == storage,
    {
        IssuerGrpc { storage }
    }

    /// The storage that the service runs on.
    pub fn storage(&self) -> (storage: &S)
        ensures
            *storage == self.backing(),
    {
        &self.storage
    }

    /// Turns a checked request into its storage call. One that could not be
    /// checked is answered at once and never reaches storage.
    pub fn plan<T>(
        &self,
        operation: IssuerOperation,
        dry_run: bool,
        checked: Result<T, HandlerError>,
    ) -> (call: Result<StorageCall<T>, Status>)
        ensures
            call is Ok <==> checked is Ok,
            call matches Ok(c) ==> {
                &&& c.operation@ == operation.name()
                &&& c.lane == lane_of(operation, dry_run)
                &&& checked == Ok::<T, HandlerError>(c.input)
            },
            checked matches Err(e) ==> (call matches Err(s) && s.spec_code() == e.spec_code()
                && s.spec_message() == e.text()),
    {
        let input = match checked {
            Ok(input) => input,
            Err(e) => {
                return Err(e.into_status());
            },
        };
        let call = match operation {
            IssuerOperation::Register => StorageCall {
                operation: "issuer.register".to_owned(),
                lane: Lane::Write { dry_run },
                input,
            },
            IssuerOperation::Get => StorageCall {
                operation: "issuer.get".to_owned(),
                lane: Lane::Read,
                input,
            },
            IssuerOperation::List => StorageCall {
                operation: "issuer.list".to_owned(),
                lane: Lane::Read,
                input,
            },
            IssuerOperation::Patch => StorageCall {
                operation: "issuer.patch".to_owned(),
                lane: Lane::Write { dry_run },
                input,
            },
            IssuerOperation::Delete => StorageCall {
                operation: "issuer.delete".to_owned(),
                lane: Lane::Write { dry_run },
                input,
            },
        };
        Ok(call)
    }

    /// Turns a listing into its one storage call: the page after the issuer
    /// that the request names, or the first one. A name that could not be
    /// checked is answered at once.
    pub fn plan_list<T>(&self, after: Option<Result<T, HandlerError>>, requested: u32) -> (call:
        Result<StorageCall<ListPage<T>>, Status>)
        ensures
            call is Ok <==> !(after matches Some(Err(_))),
            call matches Ok(c) ==> {
                &&& c.operation@ == IssuerOperation::List.name()
                &&& c.lane == Lane::Read
                &&& c.input.limit == page_limit(requested)
                &&& requested == 0 ==> c.input.limit == 50
                &&& 1 <= requested <= 1_000 ==> c.input.limit == requested
                &&& requested > 1_000 ==> c.input.limit == 1_000
                &&& c.input.after is None <==> after is None
                &&& c.input.after matches Some(t) ==> after == Some(Ok::<T, HandlerError>(t))
            },
            after matches Some(Err(e)) ==> (call matches Err(s) && s.spec_code() == e.spec_code()
                && s.spec_message() == e.text()),
    {
        let checked = match list_after(after) {
            Ok(after) => Ok(ListPage { after, limit: list_limit(requested) }),
            Err(e) => Err(e),
        };
        self.plan(IssuerOperation::List, false, checked)
    }

    /// Turns what a registration gave into the answer: the issuer as it was
    /// stored, in its first version.
    pub fn answer_register<T>(
        &self,
        issuer: T,
        given: Result<Result<(), HandlerError>, StorageCallError>,
    ) -> (answer: Result<Versioned<T>, Status>)
        ensures
            answer is Ok <==> given matches Ok(Ok(_)),
            answer matches Ok(v) ==> v.data == issuer && v.version == FIRST_VERSION,
            given matches Ok(Err(e)) ==> (answer matches Err(s) && s.spec_code() == e.spec_code()
                && s.spec_message() == e.text()),
            given matches Err(e) ==> (answer matches Err(s) && s.spec_code() == HandlerError::Call(
                e,
            ).spec_code() && s.spec_message() == e.text()),
    {
        match self.answer(given) {
            Ok(()) => Ok(Versioned { data: issuer, version: FIRST_VERSION }),
            Err(status) => Err(status),
        }
    }

    /// Turns what a storage call gave into the answer: a call that was not
    /// carried out and one that failed are answered alike, each with its own
    /// status.
    pub fn answer<T>(&self, given: Result<Result<T, HandlerError>, StorageCallError>) -> (answer:
        Result<T, Status>)
        ensures
            answer is Ok <==> given matches Ok(Ok(_)),
            answer matches Ok(t) ==> given == Ok::<Result<T, HandlerError>, StorageCallError>(
                Ok(t),
            ),
            given matches Ok(Err(e)) ==> (answer matches Err(s) && s.spec_code() == e.spec_code()
                && s.spec_message() == e.text()),
            given matches Err(e) ==> (answer matches Err(s) && s.spec_code() == HandlerError::Call(
                e,
            ).spec_code() && s.spec_message() == e.text()),
    {
        match given {
            Ok(Ok(t)) => Ok(t),
            Ok(Err(e)) => Err(e.into_status()),
            Err(e) => Err(HandlerError::Call(e).into_status()),
        }
    }
}

/// The size of a page: the default where none is asked for, and never more
/// than the most.
pub fn list_limit(requested: u32) -> (limit: u32)
    ensures
        limit == page_limit(requested),
        1 <= limit <= MAX_LIST_LIMIT,
        requested == 0 ==> limit == 50,
        1 <= requested <= 1_000 ==> limit == requested,
        requested > 1_000 ==> limit == 1_000,
{
    if requested == 0 {
        DEFAULT_LIST_LIMIT
    } else if requested < MAX_LIST_LIMIT {
        requested
    } else {
        MAX_LIST_LIMIT
    }
}

/// The cursor of a listing: absent, or checked.
pub fn list_after<T>(after: Option<Result<T, HandlerError>>) -> (checked: Result<
    Option<T>,
    HandlerError,
>)
    ensures
        after is None ==> checked == Ok::<Option<T>, HandlerError>(None),
        after matches Some(Ok(t)) ==> checked == Ok::<Option<T>, HandlerError>(Some(t)),
        after matches Some(Err(e)) ==> checked == Err::<Option<T>, HandlerError>(e),
{
    match after {
        None => Ok(None),
        Some(Ok(t)) => Ok(Some(t)),
        Some(Err(e)) => Err(e),
    }
}

/// A dry run never becomes a write that lasts, and a read never writes.
pub proof fn law_lanes_keep_their_promise(operation: IssuerOperation, dry_run: bool)
    ensures
        lane_of(operation, dry_run) == Lane::Read <==> !operation.mutates(),
        lane_of(operation, true) != (Lane::Write { dry_run: false }),
{
}

/// A page is as long as was asked for, up to a thousand, and fifty where the
/// request does not say; asking for more never gives less.
pub proof fn law_a_page_is_as_long_as_asked_for(requested: u32, more: u32)
    requires
        requested <= more,
    ensures
        1 <= requested <= 1_000 ==> page_limit(requested) == requested,
        requested > 1_000 ==> page_limit(requested) == 1_000,
        page_limit(0) == 50,
        requested > 0 ==> page_limit(requested) <= requested && page_limit(requested)
            <= page_limit(more),
        1 <= page_limit(requested) <= 1_000,
{
}

/// Getting and listing read; registering, patching and deleting write, as a
/// dry run exactly where one is asked for. Each call carries its own name.
pub proof fn law_each_operation_has_its_lane(dry_run: bool)
    ensures
        lane_of(IssuerOperation::Get, dry_run) == Lane::Read,
        lane_of(IssuerOperation::List, dry_run) == Lane::Read,
        lane_of(IssuerOperation::Register, dry_run) == (Lane::Write { dry_run }),
        lane_of(IssuerOperation::Patch, dry_run) == (Lane::Write { dry_run }),
        lane_of(IssuerOperation::Delete, dry_run) == (Lane::Write { dry_run }),
        IssuerOperation::Register.name() == "issuer.register"@,
        IssuerOperation::Get.name() == "issuer.get"@,
        IssuerOperation::List.name() == "issuer.list"@,
        IssuerOperation::Patch.name() == "issuer.patch"@,
        IssuerOperation::Delete.name() == "issuer.delete"@,
        FIRST_VERSION == 1,
{
}

} // verus!
