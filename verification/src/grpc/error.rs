//! What a failed request is answered: one status code and the error's own
//! message, which is the whole error contract.
use vstd::prelude::*;

verus! {

/// The status codes that a failure maps to.
#[derive(Clone, Copy, Debug, PartialEq, Eq, Structural)]
pub enum Code {
    InvalidArgument,
    AlreadyExists,
    ResourceExhausted,
    Internal,
    Unavailable,
}

/// What is sent for a failed request.
#[derive(Clone, Debug)]
pub struct Status {
    code: Code,
    message: String,
}

impl Status {
    pub closed spec fn spec_code(&self) -> Code {
        self.code
    }

    pub closed spec fn spec_message(&self) -> Seq<char> {
        self.message@
    }

    pub fn new(code: Code, message: String) -> (status: Status)
        ensures
            status.spec_code() == code,
            status.spec_message() == message@,
    {
        Status { code, message }
    }

    pub fn code(&self) -> (code: Code)
        ensures
            code == self.spec_code(),
    {
        self.code
    }

    pub fn message(&self) -> (message: &str)
        ensures
            message@ == self.spec_message(),
    {
        self.message.as_str()
    }
}

/// Why an issuer was not registered.
#[derive(Clone, Debug)]
pub enum RegisterIssuerError {
    DuplicateCnpj,
    DuplicateLei,
    Storage(String),
}

/// Why a storage call was not carried out.
#[derive(Clone, Debug)]
pub enum StorageCallError {
    Overloaded,
    ShuttingDown,
    TaskFailed(String),
}

/// Everything that a handler can fail with. Errors of other layers are their
/// messages.
#[derive(Clone, Debug)]
pub enum HandlerError {
    /// The request does not describe a valid operation.
    Mapping(String),
    Register(RegisterIssuerError),
    /// The storage backend failed.
    Fault(String),
    Storage(String),
    Call(StorageCallError),
}

impl RegisterIssuerError {
    pub open spec fn text(&self) -> Seq<char> {
        match *self {
            RegisterIssuerError::DuplicateCnpj => "an issuer with this CNPJ is already registered"@,
            RegisterIssuerError::DuplicateLei => "an issuer with this LEI is already registered"@,
            RegisterIssuerError::Storage(m) => m@,
        }
    }
}

impl StorageCallError {
    pub open spec fn text(&self) -> Seq<char> {
        match *self {
            StorageCallError::Overloaded => "storage is overloaded; retry later"@,
            StorageCallError::ShuttingDown => "the engine is shutting down"@,
            StorageCallError::TaskFailed(m) => "storage task failed: "@ + m@,
        }
    }
}

impl HandlerError {
    /// The code of a failure: invalid requests, duplicates and overload are
    /// the caller's to handle; a shutting-down engine is unavailable;
    /// everything else is internal.
    pub open spec fn spec_code(&self) -> Code {
        match *self {
            HandlerError::Mapping(_) => Code::InvalidArgument,
            HandlerError::Register(RegisterIssuerError::DuplicateCnpj) => Code::AlreadyExists,
            HandlerError::Register(RegisterIssuerError::DuplicateLei) => Code::AlreadyExists,
            HandlerError::Register(RegisterIssuerError::Storage(_)) => Code::Internal,
            HandlerError::Fault(_) => Code::Internal,
            HandlerError::Storage(_) => Code::Internal,
            HandlerError::Call(StorageCallError::Overloaded) => Code::ResourceExhausted,
            HandlerError::Call(StorageCallError::ShuttingDown) => Code::Unavailable,
            HandlerError::Call(StorageCallError::TaskFailed(_)) => Code::Internal,
        }
    }

    /// The failure's own message.
    pub open spec fn text(&self) -> Seq<char> {
        match *self {
            HandlerError::Mapping(m) => m@,
            HandlerError::Register(e) => e.text(),
            HandlerError::Fault(m) => m@,
            HandlerError::Storage(m) => m@,
            HandlerError::Call(e) => e.text(),
        }
    }

    /// The status that is sent for a failure.
    pub fn into_status(self) -> (status: Status)
        ensures
            status.spec_code() == self.spec_code(),
            status.spec_message() == self.text(),
    {
        let code = self.code();
        let message = match self {
            HandlerError::Mapping(m) => m,
            HandlerError::Register(RegisterIssuerError::DuplicateCnpj) =>
                "an issuer with this CNPJ is already registered".to_owned(),
            HandlerError::Register(RegisterIssuerError::DuplicateLei) =>
                "an issuer with this LEI is already registered".to_owned(),
            HandlerError::Register(RegisterIssuerError::Storage(m)) => m,
            HandlerError::Fault(m) => m,
            HandlerError::Storage(m) => m,
            HandlerError::Call(StorageCallError::Overloaded) =>
                "storage is overloaded; retry later".to_owned(),
            HandlerError::Call(StorageCallError::ShuttingDown) =>
                "the engine is shutting down".to_owned(),
            HandlerError::Call(StorageCallError::TaskFailed(m)) =>
                "storage task failed: ".to_owned().concat(m.as_str()),
        };
        Status::new(code, message)
    }

    fn code(&self) -> (code: Code)
        ensures
            code == self.spec_code(),
    {
        match self {
            HandlerError::Mapping(_) => Code::InvalidArgument,
            HandlerError::Register(e) => match e {
                RegisterIssuerError::DuplicateCnpj => Code::AlreadyExists,
                RegisterIssuerError::DuplicateLei => Code::AlreadyExists,
                RegisterIssuerError::Storage(_) => Code::Internal,
            },
            HandlerError::Fault(_) => Code::Internal,
            HandlerError::Storage(_) => Code::Internal,
            HandlerError::Call(e) => match e {
                StorageCallError::Overloaded => Code::ResourceExhausted,
                StorageCallError::ShuttingDown => Code::Unavailable,
                StorageCallError::TaskFailed(_) => Code::Internal,
            },
        }
    }
}

/// An invalid request, a duplicate and an overload are told apart from each
/// other and from what is the engine's own fault; each failure is answered
/// with its own words.
pub proof fn law_each_failure_has_its_code(m: String)
    ensures
        HandlerError::Mapping(m).spec_code() == Code::InvalidArgument,
        HandlerError::Register(RegisterIssuerError::DuplicateCnpj).spec_code()
            == Code::AlreadyExists,
        HandlerError::Register(RegisterIssuerError::DuplicateLei).spec_code()
            == Code::AlreadyExists,
        HandlerError::Register(RegisterIssuerError::Storage(m)).spec_code() == Code::Internal,
        HandlerError::Fault(m).spec_code() == Code::Internal,
        HandlerError::Storage(m).spec_code() == Code::Internal,
        HandlerError::Call(StorageCallError::Overloaded).spec_code() == Code::ResourceExhausted,
        HandlerError::Call(StorageCallError::ShuttingDown).spec_code() == Code::Unavailable,
        HandlerError::Call(StorageCallError::TaskFailed(m)).spec_code() == Code::Internal,
        HandlerError::Mapping(m).text() == m@,
        HandlerError::Fault(m).text() == m@,
        HandlerError::Storage(m).text() == m@,
        HandlerError::Register(RegisterIssuerError::Storage(m)).text() == m@,
        HandlerError::Call(StorageCallError::TaskFailed(m)).text() == "storage task failed: "@ + m@,
        HandlerError::Register(RegisterIssuerError::DuplicateCnpj).text()
            == "an issuer with this CNPJ is already registered"@,
        HandlerError::Register(RegisterIssuerError::DuplicateLei).text()
            == "an issuer with this LEI is already registered"@,
        HandlerError::Call(StorageCallError::Overloaded).text()
            == "storage is overloaded; retry later"@,
        HandlerError::Call(StorageCallError::ShuttingDown).text() == "the engine is shutting down"@,
{
}

} // verus!
