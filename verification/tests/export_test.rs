use prex_core_challenge::amount::Amount;
use prex_core_challenge::dto::{NewClient, NewCreditTransaction};
use prex_core_challenge::errors::CommonError;
use prex_core_challenge::export::{
    Export, ExportAction, ExportEvent, ExportStage, LedgerAccess,
};
use prex_core_challenge::service::ClientService;
use prex_core_challenge::state::AppState;
use prex_core_challenge::model::Client;
use prex_core_challenge::stub::{create_client_info_stub, create_new_client_stub};
use std::collections::HashMap;

fn service_with_two_clients() -> ClientService {
    let mut service = ClientService::new(AppState::new());
    for document in ["A", "B"] {
        let stub = create_new_client_stub();
        let new_client = NewClient {
            client_name: stub.client_name,
            birth_date: stub.birth_date,
            document_number: document.to_string(),
            country: stub.country,
        };
        service.create_new_client(new_client).unwrap();
    }
    let credit = NewCreditTransaction { client_id: 1, credit_amount: Amount::new(100, 2) };
    service.create_new_credit_transaction(credit).unwrap();
    let credit = NewCreditTransaction { client_id: 2, credit_amount: Amount::new(2550, 2) };
    service.create_new_credit_transaction(credit).unwrap();
    service
}

fn balances(service: &ClientService) -> Vec<(i32, Amount)> {
    service.balances_by_client_id()
}

fn step(service: &mut ClientService, export: Export, event: ExportEvent) -> (Export, ExportAction) {
    assert!(export.is_awaiting(&event));
    service.advance_export(export, event)
}

fn up_to_file(service: &mut ClientService, folder: Vec<String>) -> (Export, ExportAction) {
    let (export, action) = ClientService::begin_export("27102026".to_string());
    assert!(matches!(action, ExportAction::CheckFolder));
    let (export, action) = step(service, export, ExportEvent::FolderChecked { exists: true });
    assert!(matches!(action, ExportAction::ReadFolder));
    step(service, export, ExportEvent::FolderRead { file_names: Some(folder) })
}

#[test]
fn an_export_writes_every_line_and_then_resets() {
    let mut service = service_with_two_clients();
    let (export, action) = up_to_file(&mut service, Vec::new());
    match action {
        ExportAction::CreateFile { path } => assert_eq!("./store_balances/27102026_1.DAT", path),
        other => panic!("unexpected action {:?}", other),
    }
    assert_eq!(ExportStage::CreatingFile, export.stage);
    assert_eq!(vec!["01 1.00\n".to_string(), "02 25.50\n".to_string()], export.lines);

    let (export, action) = step(&mut service, export, ExportEvent::FileCreated { created: true });
    match action {
        ExportAction::WriteLine { line } => assert_eq!("01 1.00\n", line),
        other => panic!("unexpected action {:?}", other),
    }
    assert_eq!(vec![(1, Amount::new(100, 2)), (2, Amount::new(2550, 2))], balances(&service));

    let (export, action) = step(&mut service, export, ExportEvent::LineWritten { written: true });
    match action {
        ExportAction::WriteLine { line } => assert_eq!("02 25.50\n", line),
        other => panic!("unexpected action {:?}", other),
    }
    assert_eq!(1, export.written);
    assert_eq!(vec![(1, Amount::new(100, 2)), (2, Amount::new(2550, 2))], balances(&service));

    let (export, action) = step(&mut service, export, ExportEvent::LineWritten { written: true });
    assert!(matches!(action, ExportAction::Finish { result: Ok(()) }));
    assert_eq!(ExportStage::Done, export.stage);
    assert_eq!(vec![(1, Amount::zero()), (2, Amount::zero())], balances(&service));
    assert!(!export.is_awaiting(&ExportEvent::LineWritten { written: true }));
}

#[test]
fn a_second_export_of_the_day_gets_the_number_two() {
    let mut service = service_with_two_clients();
    let (export, _) = up_to_file(&mut service, Vec::new());
    let (export, _) = step(&mut service, export, ExportEvent::FileCreated { created: true });
    let (export, _) = step(&mut service, export, ExportEvent::LineWritten { written: true });
    let (_, action) = step(&mut service, export, ExportEvent::LineWritten { written: true });
    assert!(matches!(action, ExportAction::Finish { result: Ok(()) }));

    let (export, action) = up_to_file(&mut service, vec!["27102026_1.DAT".to_string()]);
    match action {
        ExportAction::CreateFile { path } => assert_eq!("./store_balances/27102026_2.DAT", path),
        other => panic!("unexpected action {:?}", other),
    }
    assert_eq!(vec!["01 0.00\n".to_string(), "02 0.00\n".to_string()], export.lines);
}

#[test]
fn a_missing_folder_is_created_first() {
    let mut service = service_with_two_clients();
    let (export, _) = ClientService::begin_export("27102026".to_string());
    let (export, action) = step(&mut service, export, ExportEvent::FolderChecked { exists: false });
    assert!(matches!(action, ExportAction::CreateFolder));
    assert_eq!(ExportStage::CreatingFolder, export.stage);
    let (export, action) = step(&mut service, export, ExportEvent::FolderCreated { created: true });
    assert!(matches!(action, ExportAction::ReadFolder));
    assert_eq!(ExportStage::ReadingFolder, export.stage);
    assert_eq!("27102026", export.date);
}

#[test]
fn each_failure_has_its_own_error_and_resets_nothing() {
    let before = vec![(1, Amount::new(100, 2)), (2, Amount::new(2550, 2))];

    let mut service = service_with_two_clients();
    let (export, _) = ClientService::begin_export("27102026".to_string());
    let (export, _) = step(&mut service, export, ExportEvent::FolderChecked { exists: false });
    let (export, action) = step(&mut service, export, ExportEvent::FolderCreated { created: false });
    assert!(matches!(
        action,
        ExportAction::Finish { result: Err(CommonError::FolderCreationFailed) }
    ));
    assert_eq!(ExportStage::Done, export.stage);
    assert_eq!(before, balances(&service));

    let (export, _) = ClientService::begin_export("27102026".to_string());
    let (export, _) = step(&mut service, export, ExportEvent::FolderChecked { exists: true });
    let (_, action) = step(&mut service, export, ExportEvent::FolderRead { file_names: None });
    assert!(matches!(action, ExportAction::Finish { result: Err(CommonError::FolderReadFailed) }));
    assert_eq!(before, balances(&service));

    let (export, _) = up_to_file(&mut service, Vec::new());
    let (_, action) = step(&mut service, export, ExportEvent::FileCreated { created: false });
    assert!(matches!(
        action,
        ExportAction::Finish { result: Err(CommonError::FileCreationFailed) }
    ));
    assert_eq!(before, balances(&service));

    let (export, _) = up_to_file(&mut service, Vec::new());
    let (export, _) = step(&mut service, export, ExportEvent::FileCreated { created: true });
    let (export, _) = step(&mut service, export, ExportEvent::LineWritten { written: true });
    let (_, action) = step(&mut service, export, ExportEvent::LineWritten { written: false });
    assert!(matches!(action, ExportAction::Finish { result: Err(CommonError::FileWriteFailed) }));
    assert_eq!(before, balances(&service));
}

#[test]
fn an_export_of_an_empty_ledger_writes_an_empty_file() {
    let mut service = ClientService::new(AppState::new());
    let (export, action) = up_to_file(&mut service, vec!["27102026_1.DAT".to_string()]);
    match action {
        ExportAction::CreateFile { path } => assert_eq!("./store_balances/27102026_2.DAT", path),
        other => panic!("unexpected action {:?}", other),
    }
    assert!(export.lines.is_empty());
    let (export, action) = step(&mut service, export, ExportEvent::FileCreated { created: true });
    assert!(matches!(action, ExportAction::Finish { result: Ok(()) }));
    assert_eq!(ExportStage::Done, export.stage);
}

#[test]
fn an_export_waits_for_one_kind_of_report() {
    let (export, _) = ClientService::begin_export("27102026".to_string());
    assert!(export.is_awaiting(&ExportEvent::FolderChecked { exists: true }));
    assert!(!export.is_awaiting(&ExportEvent::FolderCreated { created: true }));
    assert!(!export.is_awaiting(&ExportEvent::FolderRead { file_names: None }));
    assert!(!export.is_awaiting(&ExportEvent::FileCreated { created: true }));
    assert!(!export.is_awaiting(&ExportEvent::LineWritten { written: true }));
}

#[test]
fn todays_export_is_named_after_today() {
    let mut service = ClientService::new(AppState::new());
    let (export, action) = ClientService::generate_file_with_all_clients_balances();
    assert!(matches!(action, ExportAction::CheckFolder));
    let date = export.date.clone();
    assert_eq!(8, date.len());
    assert!(date.chars().all(|c| c.is_ascii_digit()));
    let (export, _) = step(&mut service, export, ExportEvent::FolderChecked { exists: true });
    let folder = vec![format!("{}_1.DAT", date)];
    let (_, action) = step(&mut service, export, ExportEvent::FolderRead { file_names: Some(folder) });
    match action {
        ExportAction::CreateFile { path } => {
            assert_eq!(format!("./store_balances/{}_2.DAT", date), path)
        }
        other => panic!("unexpected action {:?}", other),
    }
}

#[test]
fn a_step_says_what_it_needs_of_the_ledger() {
    let mut service = service_with_two_clients();
    let (export, _) = ClientService::begin_export("27102026".to_string());
    assert_eq!(
        LedgerAccess::Nothing,
        export.ledger_access(&ExportEvent::FolderChecked { exists: true })
    );
    let (export, _) = step(&mut service, export, ExportEvent::FolderChecked { exists: false });
    assert_eq!(
        LedgerAccess::Nothing,
        export.ledger_access(&ExportEvent::FolderCreated { created: true })
    );
    let (export, _) = step(&mut service, export, ExportEvent::FolderCreated { created: true });
    assert_eq!(
        LedgerAccess::Nothing,
        export.ledger_access(&ExportEvent::FolderRead { file_names: None })
    );
    let listing = ExportEvent::FolderRead { file_names: Some(Vec::new()) };
    assert_eq!(LedgerAccess::Read, export.ledger_access(&listing));
    let (export, _) = service.snapshot_for_export(export, listing);
    assert_eq!(2, export.lines.len());
    assert_eq!(
        LedgerAccess::Nothing,
        export.ledger_access(&ExportEvent::FileCreated { created: true })
    );
    assert_eq!(
        LedgerAccess::Nothing,
        export.ledger_access(&ExportEvent::FileCreated { created: false })
    );
    let (export, _) =
        ClientService::advance_export_aside(export, ExportEvent::FileCreated { created: true });
    assert_eq!(
        LedgerAccess::Nothing,
        export.ledger_access(&ExportEvent::LineWritten { written: true })
    );
    let (export, action) =
        ClientService::advance_export_aside(export, ExportEvent::LineWritten { written: true });
    match action {
        ExportAction::WriteLine { line } => assert_eq!("02 25.50\n", line),
        other => panic!("unexpected action {:?}", other),
    }
    assert_eq!(
        LedgerAccess::Nothing,
        export.ledger_access(&ExportEvent::LineWritten { written: false })
    );
    let last = ExportEvent::LineWritten { written: true };
    assert_eq!(LedgerAccess::Write, export.ledger_access(&last));
    let (export, action) = service.reset_after_export(export, last);
    assert!(matches!(action, ExportAction::Finish { result: Ok(()) }));
    assert_eq!(ExportStage::Done, export.stage);
    assert_eq!(2, export.written);
    assert_eq!(vec![(1, Amount::zero()), (2, Amount::zero())], balances(&service));

    let mut empty = ClientService::new(AppState::new());
    let (export, _) = up_to_file(&mut empty, Vec::new());
    assert_eq!(
        LedgerAccess::Write,
        export.ledger_access(&ExportEvent::FileCreated { created: true })
    );
}

#[test]
fn a_ledger_that_cannot_be_locked_has_its_own_errors() {
    assert_eq!(None, LedgerAccess::Nothing.failure());
    assert_eq!(Some(CommonError::LockReadFailed), LedgerAccess::Read.failure());
    assert_eq!(Some(CommonError::LockWriteFailed), LedgerAccess::Write.failure());
}

fn service_with_stub_client() -> (ClientService, i32) {
    let client = create_client_info_stub();
    let client_id = client.client_id;
    let client = Client {
        client_id: client.client_id,
        client_name: client.client_name,
        birth_date: client.birth_date,
        document_number: client.document_number,
        country: client.country,
        balance: client.balance,
    };
    let mut hashmap = HashMap::new();
    hashmap.insert(client.client_id, client);
    let app_state = AppState { clients: hashmap, client_id_unique: client_id + 1 };
    (ClientService::new(app_state), client_id)
}

/// Scenario:
/// Execute generate_file_with_all_clients_balances with exit
/// Expectation:
/// A [Ok()] should be returned
#[test]
fn when_generate_file_with_all_clients_balances_with_exit_should_return_ok() {
    let (mut client_service, client_id) = service_with_stub_client();

    // the folder is missing, is created and is empty
    let (export, _) = ClientService::generate_file_with_all_clients_balances();
    let (export, _) = step(&mut client_service, export, ExportEvent::FolderChecked { exists: false });
    let (export, _) = step(&mut client_service, export, ExportEvent::FolderCreated { created: true });
    let listing = ExportEvent::FolderRead { file_names: Some(Vec::new()) };
    let (export, action) = step(&mut client_service, export, listing);
    assert!(matches!(action, ExportAction::CreateFile { .. }));
    let (export, action) = step(&mut client_service, export, ExportEvent::FileCreated { created: true });
    match action {
        ExportAction::WriteLine { line } => assert_eq!("01 1.00\n", line),
        other => panic!("unexpected action {:?}", other),
    }
    let (_, action) = step(&mut client_service, export, ExportEvent::LineWritten { written: true });
    let expected_result = match action {
        ExportAction::Finish { result } => result,
        other => panic!("unexpected action {:?}", other),
    };
    assert!(expected_result.is_ok());

    let client = client_service.app_state.clients.get(&client_id).unwrap();
    assert_eq!(client.balance, Amount::zero());
}

/// Scenario:
/// Execute generate_file_with_all_clients_balances where the folder's path
/// exists and cannot be listed
/// Expectation:
/// A [CommonError] should be returned
#[test]
fn when_generate_file_with_all_clients_balances_and_create_folder_failed_should_return_common_error(
) {
    let (mut client_service, client_id) = service_with_stub_client();

    let (export, _) = ClientService::generate_file_with_all_clients_balances();
    let (export, action) = step(&mut client_service, export, ExportEvent::FolderChecked { exists: true });
    assert!(matches!(action, ExportAction::ReadFolder));
    let (_, action) = step(&mut client_service, export, ExportEvent::FolderRead { file_names: None });
    let expected_result = match action {
        ExportAction::Finish { result } => result,
        other => panic!("unexpected action {:?}", other),
    };

    assert_eq!(CommonError::FolderReadFailed, expected_result.unwrap_err());
    let client = client_service.app_state.clients.get(&client_id).unwrap();
    assert_eq!(client.balance, Amount::new(100, 2));
}

/// Scenario:
/// Execute generate_file_with_all_clients_balances where the ledger cannot be
/// locked
/// Expectation:
/// A [CommonError] should be returned and no file asked for
#[test]
fn when_generate_file_with_all_clients_balances_and_failed_try_write_in_lock_should_return_common_error(
) {
    let (mut client_service, _) = service_with_stub_client();

    let (export, _) = ClientService::generate_file_with_all_clients_balances();
    let (export, _) = step(&mut client_service, export, ExportEvent::FolderChecked { exists: false });
    let (export, action) = step(&mut client_service, export, ExportEvent::FolderCreated { created: true });
    assert!(matches!(action, ExportAction::ReadFolder));

    // the folder is empty; the step on its listing needs the ledger
    let folder: Vec<String> = Vec::new();
    assert!(folder.is_empty());
    let listing = ExportEvent::FolderRead { file_names: Some(folder) };
    let access = export.ledger_access(&listing);
    assert_eq!(LedgerAccess::Read, access);

    let expected_result: Result<(), CommonError> = match access.failure() {
        Some(error) => Err(error),
        None => Ok(()),
    };
    assert_eq!(CommonError::LockReadFailed, expected_result.unwrap_err());
}

#[test]
fn todays_export_carries_the_stamp_of_today() {
    let before = chrono::Local::now().date_naive();
    let (export, _) = ClientService::generate_file_with_all_clients_balances();
    let after = chrono::Local::now().date_naive();

    let date = export.date;
    let day: u32 = date[0..2].parse().unwrap();
    let month: u32 = date[2..4].parse().unwrap();
    let year: i32 = date[4..].parse().unwrap();
    assert!((1..=31).contains(&day));
    assert!((1..=12).contains(&month));
    let stamped = chrono::NaiveDate::from_ymd_opt(year, month, day).unwrap();
    assert!(stamped == before || stamped == after);
    assert_eq!(format!("{:02}{:02}{:04}", day, month, year), date);
}
