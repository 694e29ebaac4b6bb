use ct_monitor::ledger::{
    Account, AccountResponse, Operation, SignatureBundle, Transaction,
};
use ct_monitor::operations::{
    add_data, create_account, key_name, register_service, AddData, AddDataStage, CreateAccount,
    CreateStage, RegisterService, RegisterStage,
};
use ct_monitor::protocol::{PipelineError, Reply, Request, SigningKey, Step};

fn service_key() -> SigningKey {
    SigningKey { name: String::from("svc"), verifying_key: vec![0xaa, 0xbb] }
}

fn log_key() -> SigningKey {
    SigningKey { name: String::from("LogX/svc"), verifying_key: vec![0x11, 0x22] }
}

fn registering() -> Operation {
    Operation::RegisterService {
        id: String::from("svc"),
        creation_gate: vec![0xaa, 0xbb],
        key: vec![0xaa, 0xbb],
    }
}

fn creating() -> Operation {
    Operation::CreateAccount {
        id: String::from("LogX"),
        service_id: String::from("svc"),
        challenge: vec![7, 7, 7],
        key: vec![0x11, 0x22],
    }
}

fn appending() -> Operation {
    Operation::AddData {
        data: b"payload".to_vec(),
        data_signature: SignatureBundle { verifying_key: vec![0x11, 0x22], signature: vec![5, 5] },
    }
}

fn existing() -> Account {
    let mut account = Account::new();
    account.process_operation(creating());
    account
}

fn found(account: Account) -> Reply {
    Reply::Account(AccountResponse::Found(account))
}

fn not_found() -> Reply {
    Reply::Account(AccountResponse::NotFound)
}

fn go_on<M, T>(step: Step<M, T>) -> (M, Request) {
    match step {
        Step::Continue(run, request) => (run, request),
        Step::Finished(_) => panic!("the run ended"),
    }
}

fn end<M, T>(step: Step<M, T>) -> Result<T, PipelineError> {
    match step {
        Step::Continue(_, _) => panic!("the run goes on"),
        Step::Finished(result) => result,
    }
}

#[test]
fn key_name_joins_account_and_service() {
    assert_eq!(
        key_name(&String::from("Argon2025h1"), &String::from("firefox_ct_monitor_service")),
        "Argon2025h1/firefox_ct_monitor_service"
    );
    assert_eq!(key_name(&String::new(), &String::new()), "/");
}

#[test]
fn register_service_reads_first() {
    let (run, request) = RegisterService::start(String::from("svc"), service_key());
    assert_eq!(request, Request::GetAccount { id: String::from("svc") });
    assert_eq!(run.stage, RegisterStage::Reading);
}

#[test]
fn register_service_leaves_a_registered_service_alone() {
    let (run, _) = RegisterService::start(String::from("svc"), service_key());
    assert_eq!(end(register_service(run, found(existing()))), Ok(()));
}

#[test]
fn register_service_registers_an_absent_service() {
    let (run, _) = RegisterService::start(String::from("svc"), service_key());
    let (run, request) = go_on(register_service(run, not_found()));
    assert_eq!(
        request,
        Request::SignTransaction {
            key: String::from("svc"),
            account: Account::new(),
            id: String::from("svc"),
            operation: registering(),
        }
    );
    let (run, request) = go_on(register_service(run, Reply::Signature(vec![1, 2])));
    assert_eq!(
        request,
        Request::Submit {
            transaction: Transaction {
                id: String::from("svc"),
                operation: registering(),
                signature: vec![1, 2],
            },
        }
    );
    assert_eq!(run.stage, RegisterStage::Submitting);
    assert_eq!(end(register_service(run, Reply::Submitted)), Ok(()));
}

#[test]
fn register_service_reports_every_failure() {
    let (run, _) = RegisterService::start(String::from("svc"), service_key());
    assert_eq!(
        end(register_service(run, Reply::Failed(String::from("down")))),
        Err(PipelineError::LedgerReadError(String::from("down")))
    );
    let (run, _) = RegisterService::start(String::from("svc"), service_key());
    let (run, _) = go_on(register_service(run, not_found()));
    assert_eq!(
        end(register_service(run, Reply::Failed(String::from("no key")))),
        Err(PipelineError::SigningError(String::from("no key")))
    );
    let (run, _) = RegisterService::start(String::from("svc"), service_key());
    let (run, _) = go_on(register_service(run, not_found()));
    let (run, _) = go_on(register_service(run, Reply::Signature(vec![1])));
    assert_eq!(
        end(register_service(run, Reply::Failed(String::from("rejected")))),
        Err(PipelineError::LedgerSubmissionError(String::from("rejected")))
    );
}

#[test]
fn register_service_refuses_a_reply_that_answers_nothing() {
    let (run, _) = RegisterService::start(String::from("svc"), service_key());
    assert_eq!(end(register_service(run, Reply::Woke)), Err(PipelineError::UnexpectedReply));
    let (run, _) = RegisterService::start(String::from("svc"), service_key());
    let (run, _) = go_on(register_service(run, not_found()));
    assert_eq!(end(register_service(run, Reply::Submitted)), Err(PipelineError::UnexpectedReply));
    let (run, _) = RegisterService::start(String::from("svc"), service_key());
    let (run, _) = go_on(register_service(run, not_found()));
    let (run, _) = go_on(register_service(run, Reply::Signature(vec![1])));
    assert_eq!(
        end(register_service(run, Reply::Signature(vec![1]))),
        Err(PipelineError::UnexpectedReply)
    );
}

#[test]
fn create_account_returns_an_existing_account_unchanged() {
    let (run, request) =
        CreateAccount::start(String::from("LogX"), String::from("svc"), service_key());
    assert_eq!(request, Request::GetAccount { id: String::from("LogX") });
    assert_eq!(end(create_account(run, found(existing()))), Ok(existing()));
}

#[test]
fn create_account_creates_an_absent_account() {
    let (run, _) = CreateAccount::start(String::from("LogX"), String::from("svc"), service_key());
    let (run, request) = go_on(create_account(run, not_found()));
    assert_eq!(request, Request::GetOrCreateKey { name: String::from("LogX/svc") });
    assert_eq!(run.stage, CreateStage::FetchingKey);

    let (run, request) = go_on(create_account(run, Reply::Key(vec![0x11, 0x22])));
    let mut challenge = b"LogX".to_vec();
    challenge.extend_from_slice(b"svc");
    challenge.extend_from_slice(&[0x11, 0x22]);
    assert_eq!(request, Request::Sign { key: String::from("svc"), message: challenge });

    let (run, request) = go_on(create_account(run, Reply::Signature(vec![7, 7, 7])));
    assert_eq!(
        request,
        Request::SignTransaction {
            key: String::from("LogX/svc"),
            account: Account::new(),
            id: String::from("LogX"),
            operation: creating(),
        }
    );

    let (run, request) = go_on(create_account(run, Reply::Signature(vec![3, 1])));
    assert_eq!(
        request,
        Request::Submit {
            transaction: Transaction {
                id: String::from("LogX"),
                operation: creating(),
                signature: vec![3, 1],
            },
        }
    );

    let created = end(create_account(run, Reply::Submitted));
    assert_eq!(
        created,
        Ok(Account {
            id: String::from("LogX"),
            valid_keys: vec![vec![0x11, 0x22]],
            history: vec![creating()],
        })
    );
}

#[test]
fn create_account_twice_submits_once() {
    let mut ledger: Option<Account> = None;
    let mut submissions = 0;
    let mut results = Vec::new();
    for _ in 0..2 {
        let (mut run, mut request) =
            CreateAccount::start(String::from("LogX"), String::from("svc"), service_key());
        let result = loop {
            let reply = match request {
                Request::GetAccount { .. } => match &ledger {
                    Some(account) => found(account.duplicate()),
                    None => not_found(),
                },
                Request::GetOrCreateKey { .. } => Reply::Key(vec![0x11, 0x22]),
                Request::Sign { .. } => Reply::Signature(vec![7, 7, 7]),
                Request::SignTransaction { .. } => Reply::Signature(vec![3, 1]),
                Request::Submit { transaction } => {
                    submissions += 1;
                    let mut account = Account::new();
                    account.process_operation(transaction.operation);
                    ledger = Some(account);
                    Reply::Submitted
                }
                Request::Sleep { .. } => Reply::Woke,
            };
            match create_account(run, reply) {
                Step::Continue(next, asked) => {
                    run = next;
                    request = asked;
                }
                Step::Finished(result) => break result,
            }
        };
        results.push(result);
    }
    assert_eq!(submissions, 1);
    assert_eq!(results[0], Ok(existing()));
    assert_eq!(results[1], Ok(existing()));
}

#[test]
fn create_account_reports_every_failure() {
    let start = || CreateAccount::start(String::from("LogX"), String::from("svc"), service_key()).0;
    assert_eq!(
        end(create_account(start(), Reply::Failed(String::from("down")))),
        Err(PipelineError::LedgerReadError(String::from("down")))
    );
    let (run, _) = go_on(create_account(start(), not_found()));
    assert_eq!(
        end(create_account(run, Reply::Failed(String::from("locked")))),
        Err(PipelineError::KeystoreError(String::from("locked")))
    );
    let (run, _) = go_on(create_account(start(), not_found()));
    let (run, _) = go_on(create_account(run, Reply::Key(vec![1])));
    assert_eq!(
        end(create_account(run, Reply::Failed(String::from("no service key")))),
        Err(PipelineError::SigningError(String::from("no service key")))
    );
    let (run, _) = go_on(create_account(start(), not_found()));
    let (run, _) = go_on(create_account(run, Reply::Key(vec![1])));
    let (run, _) = go_on(create_account(run, Reply::Signature(vec![2])));
    assert_eq!(
        end(create_account(run, Reply::Failed(String::from("no log key")))),
        Err(PipelineError::SigningError(String::from("no log key")))
    );
    let (run, _) = go_on(create_account(start(), not_found()));
    let (run, _) = go_on(create_account(run, Reply::Key(vec![1])));
    let (run, _) = go_on(create_account(run, Reply::Signature(vec![2])));
    let (run, _) = go_on(create_account(run, Reply::Signature(vec![3])));
    assert_eq!(
        end(create_account(run, Reply::Failed(String::from("already exists")))),
        Err(PipelineError::LedgerSubmissionError(String::from("already exists")))
    );
}

#[test]
fn create_account_refuses_a_reply_that_answers_nothing() {
    let start = || CreateAccount::start(String::from("LogX"), String::from("svc"), service_key()).0;
    assert_eq!(end(create_account(start(), Reply::Submitted)), Err(PipelineError::UnexpectedReply));
    let (run, _) = go_on(create_account(start(), not_found()));
    assert_eq!(
        end(create_account(run, Reply::Signature(vec![1]))),
        Err(PipelineError::UnexpectedReply)
    );
    let (run, _) = go_on(create_account(start(), not_found()));
    let (run, _) = go_on(create_account(run, Reply::Key(vec![1])));
    assert_eq!(end(create_account(run, Reply::Key(vec![1]))), Err(PipelineError::UnexpectedReply));
}

#[test]
fn add_data_without_an_account_submits_nothing() {
    let (run, request) = AddData::start(String::from("LogX"), log_key(), b"payload".to_vec());
    assert_eq!(request, Request::GetAccount { id: String::from("LogX") });
    assert_eq!(run.stage, AddDataStage::Reading);
    let step = add_data(run, not_found());
    assert_eq!(step, Step::Finished(Err(PipelineError::AccountNotFound(String::from("LogX")))));
}

#[test]
fn add_data_appends_to_an_existing_account() {
    let (run, _) = AddData::start(String::from("LogX"), log_key(), b"payload".to_vec());
    let (run, request) = go_on(add_data(run, found(existing())));
    assert_eq!(
        request,
        Request::Sign { key: String::from("LogX/svc"), message: b"payload".to_vec() }
    );

    let (run, request) = go_on(add_data(run, Reply::Signature(vec![5, 5])));
    assert_eq!(
        request,
        Request::SignTransaction {
            key: String::from("LogX/svc"),
            account: existing(),
            id: String::from("LogX"),
            operation: appending(),
        }
    );

    let (run, request) = go_on(add_data(run, Reply::Signature(vec![8])));
    assert_eq!(
        request,
        Request::Submit {
            transaction: Transaction {
                id: String::from("LogX"),
                operation: appending(),
                signature: vec![8],
            },
        }
    );

    let updated = end(add_data(run, Reply::Submitted));
    assert_eq!(
        updated,
        Ok(Account {
            id: String::from("LogX"),
            valid_keys: vec![vec![0x11, 0x22]],
            history: vec![creating(), appending()],
        })
    );
}

#[test]
fn add_data_reports_every_failure() {
    let start = || AddData::start(String::from("LogX"), log_key(), b"payload".to_vec()).0;
    assert_eq!(
        end(add_data(start(), Reply::Failed(String::from("down")))),
        Err(PipelineError::LedgerReadError(String::from("down")))
    );
    let (run, _) = go_on(add_data(start(), found(existing())));
    assert_eq!(
        end(add_data(run, Reply::Failed(String::from("no key")))),
        Err(PipelineError::SigningError(String::from("no key")))
    );
    let (run, _) = go_on(add_data(start(), found(existing())));
    let (run, _) = go_on(add_data(run, Reply::Signature(vec![5])));
    assert_eq!(
        end(add_data(run, Reply::Failed(String::from("no key")))),
        Err(PipelineError::SigningError(String::from("no key")))
    );
    let (run, _) = go_on(add_data(start(), found(existing())));
    let (run, _) = go_on(add_data(run, Reply::Signature(vec![5])));
    let (run, _) = go_on(add_data(run, Reply::Signature(vec![8])));
    assert_eq!(
        end(add_data(run, Reply::Failed(String::from("rejected")))),
        Err(PipelineError::LedgerSubmissionError(String::from("rejected")))
    );
}

#[test]
fn add_data_refuses_a_reply_that_answers_nothing() {
    let start = || AddData::start(String::from("LogX"), log_key(), b"payload".to_vec()).0;
    assert_eq!(end(add_data(start(), Reply::Woke)), Err(PipelineError::UnexpectedReply));
    let (run, _) = go_on(add_data(start(), found(existing())));
    assert_eq!(end(add_data(run, Reply::Submitted)), Err(PipelineError::UnexpectedReply));
}

#[test]
fn add_data_of_the_same_payload_appends_again() {
    let mut account = existing();
    for _ in 0..2 {
        let (run, _) = AddData::start(String::from("LogX"), log_key(), b"payload".to_vec());
        let (run, _) = go_on(add_data(run, found(account.duplicate())));
        let (run, _) = go_on(add_data(run, Reply::Signature(vec![5, 5])));
        let (run, _) = go_on(add_data(run, Reply::Signature(vec![8])));
        account = end(add_data(run, Reply::Submitted)).unwrap();
    }
    assert_eq!(account.history, vec![creating(), appending(), appending()]);
}
