use command_dispatch::{AppCommand, Command, Handlers};
use std::sync::{Arc, Mutex};

const EVERY: [AppCommand; 9] = [
    AppCommand::Add,
    AppCommand::Help,
    AppCommand::Init,
    AppCommand::Install,
    AppCommand::Remove,
    AppCommand::Deploy,
    AppCommand::Clone,
    AppCommand::Create,
    AppCommand::Migrate,
];

/// The run context of the mocks: a record of the handlers that ran.
type Record = Arc<Mutex<Vec<u8>>>;

type Outcome = Result<(), String>;

/// A handler that records its number and succeeds.
struct Mock<const N: u8>;

impl<const N: u8> Command<Record, Outcome> for Mock<N> {
    fn help() -> String {
        format!("help of handler {}", N)
    }

    fn exec(app: Arc<Record>) -> Outcome {
        app.lock().unwrap().push(N);
        Ok(())
    }
}

/// A handler that records its number and fails with a marker.
struct Failing<const N: u8>;

impl<const N: u8> Command<Record, Outcome> for Failing<N> {
    fn help() -> String {
        format!("help of failing handler {}", N)
    }

    fn exec(app: Arc<Record>) -> Outcome {
        app.lock().unwrap().push(N);
        Err(format!("marker {}", N))
    }
}

struct Mocks;

impl Handlers for Mocks {
    type Context = Record;
    type Outcome = Outcome;
    type Add = Mock<0>;
    type Help = Mock<1>;
    type Init = Mock<2>;
    type Install = Mock<3>;
    type Remove = Mock<4>;
    type Deploy = Mock<5>;
    type Clone = Mock<6>;
    type Create = Mock<7>;
    type Migrate = Mock<8>;
}

struct AllFailing;

impl Handlers for AllFailing {
    type Context = Record;
    type Outcome = Outcome;
    type Add = Failing<0>;
    type Help = Failing<1>;
    type Init = Failing<2>;
    type Install = Failing<3>;
    type Remove = Failing<4>;
    type Deploy = Failing<5>;
    type Clone = Failing<6>;
    type Create = Failing<7>;
    type Migrate = Failing<8>;
}

/// Only the install handler fails.
struct InstallFails;

impl Handlers for InstallFails {
    type Context = Record;
    type Outcome = Outcome;
    type Add = Mock<0>;
    type Help = Mock<1>;
    type Init = Mock<2>;
    type Install = Failing<3>;
    type Remove = Mock<4>;
    type Deploy = Mock<5>;
    type Clone = Mock<6>;
    type Create = Mock<7>;
    type Migrate = Mock<8>;
}

fn number(command: AppCommand) -> u8 {
    match command {
        AppCommand::Add => 0,
        AppCommand::Help => 1,
        AppCommand::Init => 2,
        AppCommand::Install => 3,
        AppCommand::Remove => 4,
        AppCommand::Deploy => 5,
        AppCommand::Clone => 6,
        AppCommand::Create => 7,
        AppCommand::Migrate => 8,
    }
}

#[test]
fn help_is_bound_and_not_empty_for_every_command() {
    for command in EVERY {
        let text = command.help::<Mocks>();
        assert!(!text.is_empty());
        assert_eq!(text, format!("help of handler {}", number(command)));
    }
}

#[test]
fn help_comes_from_the_bound_handler() {
    assert_eq!(AppCommand::Install.help::<Mocks>(), "help of handler 3");
    assert_eq!(
        AppCommand::Install.help::<InstallFails>(),
        "help of failing handler 3"
    );
    assert_eq!(AppCommand::Add.help::<InstallFails>(), "help of handler 0");
}

#[test]
fn run_invokes_exactly_the_bound_handler() {
    for command in EVERY {
        let record: Record = Arc::new(Mutex::new(Vec::new()));
        let outcome = command.run::<Mocks>(record.clone());
        assert_eq!(outcome, Ok(()));
        assert_eq!(*record.lock().unwrap(), vec![number(command)]);
    }
}

#[test]
fn run_returns_the_failure_unchanged() {
    for command in EVERY {
        let record: Record = Arc::new(Mutex::new(Vec::new()));
        let outcome = command.run::<AllFailing>(record.clone());
        assert_eq!(outcome, Err(format!("marker {}", number(command))));
        assert_eq!(*record.lock().unwrap(), vec![number(command)]);
    }
}

#[test]
fn only_the_failing_handler_fails() {
    let record: Record = Arc::new(Mutex::new(Vec::new()));
    assert_eq!(
        AppCommand::Install.run::<InstallFails>(record.clone()),
        Err("marker 3".to_string())
    );
    assert_eq!(AppCommand::Remove.run::<InstallFails>(record.clone()), Ok(()));
    assert_eq!(*record.lock().unwrap(), vec![3, 4]);
}

#[test]
fn install_token_dispatches_only_to_install() {
    let record: Record = Arc::new(Mutex::new(Vec::new()));
    let command = AppCommand::parse("install").unwrap();
    assert_eq!(command, AppCommand::Install);
    assert_eq!(command.run::<Mocks>(record.clone()), Ok(()));
    assert_eq!(*record.lock().unwrap(), vec![3]);
}

#[test]
fn no_argument_means_no_invocation() {
    let record: Record = Arc::new(Mutex::new(Vec::new()));
    if let Some(command) = AppCommand::current(&vec!["tool".to_string()]) {
        let _ = command.run::<Mocks>(record.clone());
    }
    assert!(record.lock().unwrap().is_empty());
}

#[test]
fn unknown_argument_means_no_invocation() {
    let record: Record = Arc::new(Mutex::new(Vec::new()));
    let list = vec!["tool".to_string(), "frobnicate".to_string()];
    if let Some(command) = AppCommand::current(&list) {
        let _ = command.run::<Mocks>(record.clone());
    }
    assert!(record.lock().unwrap().is_empty());
}

#[test]
fn the_handler_receives_the_context_it_was_given() {
    let record: Record = Arc::new(Mutex::new(vec![42]));
    assert_eq!(AppCommand::Deploy.run::<Mocks>(record.clone()), Ok(()));
    assert_eq!(*record.lock().unwrap(), vec![42, 5]);
}
