//! What requests are turned into, and what they are answered.
use valqeron_engine::grpc::error::{Code, HandlerError, RegisterIssuerError, StorageCallError};
use valqeron_engine::grpc::issuer::{
    list_after, list_limit, IssuerGrpc, IssuerOperation, Lane, DEFAULT_LIST_LIMIT, FIRST_VERSION,
    MAX_LIST_LIMIT,
};

#[test]
fn duplicate_identifiers_map_to_already_exists_with_the_domain_message() {
    let status = HandlerError::Register(RegisterIssuerError::DuplicateCnpj).into_status();
    assert_eq!(status.code(), Code::AlreadyExists);
    assert!(
        status.message().contains("CNPJ"),
        "message names the identifier: {}",
        status.message()
    );
    let status = HandlerError::Register(RegisterIssuerError::DuplicateLei).into_status();
    assert_eq!(status.code(), Code::AlreadyExists);
    assert!(status.message().contains("LEI"));
}

#[test]
fn validation_failures_map_to_invalid_argument() {
    let err = "invalid CNPJ: wrong check digits".to_string();
    let status = HandlerError::Mapping(err).into_status();
    assert_eq!(status.code(), Code::InvalidArgument);
    assert!(!status.message().is_empty());

    let err = "issuer name is longer than 200 characters".to_string();
    let status = HandlerError::Mapping(err).into_status();
    assert_eq!(status.code(), Code::InvalidArgument);
    assert!(
        status.message().contains("200"),
        "message carries the limit: {}",
        status.message()
    );
}

#[test]
fn backpressure_maps_to_resource_exhausted_and_shutdown_to_unavailable() {
    let status = HandlerError::Call(StorageCallError::Overloaded).into_status();
    assert_eq!(status.code(), Code::ResourceExhausted);

    let status = HandlerError::Call(StorageCallError::ShuttingDown).into_status();
    assert_eq!(status.code(), Code::Unavailable);
}

#[test]
fn storage_faults_map_to_internal() {
    let fault = "disk on fire".to_string();
    let status = HandlerError::Fault(fault).into_status();
    assert_eq!(status.code(), Code::Internal);
    assert!(status.message().contains("disk on fire"));
}

#[test]
fn every_other_failure_is_internal() {
    for failure in [
        HandlerError::Register(RegisterIssuerError::Storage("x".into())),
        HandlerError::Storage("x".into()),
        HandlerError::Call(StorageCallError::TaskFailed("x".into())),
    ] {
        let status = failure.into_status();
        assert_eq!(status.code(), Code::Internal);
        assert!(status.message().ends_with('x'));
    }
}

#[test]
fn reads_never_take_the_write_lane_and_a_dry_run_stays_one() {
    let service = IssuerGrpc::new("storage");
    assert_eq!(*service.storage(), "storage");
    for (operation, name, writes) in [
        (IssuerOperation::Register, "issuer.register", true),
        (IssuerOperation::Get, "issuer.get", false),
        (IssuerOperation::List, "issuer.list", false),
        (IssuerOperation::Patch, "issuer.patch", true),
        (IssuerOperation::Delete, "issuer.delete", true),
    ] {
        for dry_run in [false, true] {
            let call = service.plan(operation, dry_run, Ok(7u32)).unwrap();
            assert_eq!(call.operation, name);
            assert_eq!(call.input, 7);
            let expected = if writes {
                Lane::Write { dry_run }
            } else {
                Lane::Read
            };
            assert_eq!(call.lane, expected);
        }
    }
}

#[test]
fn a_request_that_does_not_check_never_reaches_storage() {
    let service = IssuerGrpc::new(());
    let refused: Result<u32, HandlerError> = Err(HandlerError::Mapping("bad".into()));
    let status = service
        .plan(IssuerOperation::Register, false, refused)
        .unwrap_err();
    assert_eq!(status.code(), Code::InvalidArgument);
    assert_eq!(status.message(), "bad");
}

#[test]
fn answers_carry_the_value_or_the_failure() {
    let service = IssuerGrpc::new(());
    assert_eq!(service.answer(Ok(Ok(3u32))).unwrap(), 3);
    let failed: Result<Result<u32, HandlerError>, StorageCallError> =
        Ok(Err(HandlerError::Register(RegisterIssuerError::DuplicateLei)));
    let status = service.answer(failed).unwrap_err();
    assert_eq!(status.code(), Code::AlreadyExists);
    let refused: Result<Result<u32, HandlerError>, StorageCallError> =
        Err(StorageCallError::Overloaded);
    let status = service.answer(refused).unwrap_err();
    assert_eq!(status.code(), Code::ResourceExhausted);
    assert_eq!(status.message(), "storage is overloaded; retry later");
}

#[test]
fn pages_are_bounded() {
    assert_eq!(list_limit(0), DEFAULT_LIST_LIMIT);
    assert_eq!(list_limit(1), 1);
    assert_eq!(list_limit(MAX_LIST_LIMIT), MAX_LIST_LIMIT);
    assert_eq!(list_limit(u32::MAX), 1_000);
    assert_eq!(FIRST_VERSION, 1);
}

#[test]
fn a_page_starts_at_the_front_or_after_a_checked_cursor() {
    assert!(matches!(list_after::<u32>(None), Ok(None)));
    assert!(matches!(list_after(Some(Ok(4u32))), Ok(Some(4))));
    let bad: Option<Result<u32, HandlerError>> = Some(Err(HandlerError::Mapping("id".into())));
    assert!(matches!(list_after(bad), Err(HandlerError::Mapping(_))));
}

#[test]
fn a_listing_is_one_read_of_one_page() {
    let service = IssuerGrpc::new(());
    let call = service.plan_list(Some(Ok(7u32)), 0).unwrap();
    assert_eq!(call.operation, "issuer.list");
    assert_eq!(call.lane, Lane::Read);
    assert_eq!((call.input.after, call.input.limit), (Some(7), 50));
    let call = service.plan_list::<u32>(None, 5_000).unwrap();
    assert_eq!((call.input.after, call.input.limit), (None, 1_000));
    let bad: Option<Result<u32, HandlerError>> = Some(Err(HandlerError::Mapping("id".into())));
    let status = service.plan_list(bad, 10).unwrap_err();
    assert_eq!(status.code(), Code::InvalidArgument);
    assert_eq!(status.message(), "id");
}

#[test]
fn a_registration_answers_with_the_first_version() {
    let service = IssuerGrpc::new(());
    let registered = service.answer_register("acme", Ok(Ok(()))).unwrap();
    assert_eq!((registered.data, registered.version), ("acme", 1));
    let failed = Ok(Err(HandlerError::Register(RegisterIssuerError::DuplicateCnpj)));
    let status = service.answer_register("acme", failed).unwrap_err();
    assert_eq!(status.code(), Code::AlreadyExists);
    let status = service
        .answer_register("acme", Err(StorageCallError::Overloaded))
        .unwrap_err();
    assert_eq!(status.code(), Code::ResourceExhausted);
}
