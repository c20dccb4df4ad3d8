use rotator::command::IpCommand;
use rotator::command::Operation;
use rotator::command::apply_add;
use rotator::command::apply_delete;
use rotator::error::OsError;

fn strings(texts: &[&str]) -> Vec<String> {
    texts.iter().map(|text| text.to_string()).collect()
}

#[test]
fn the_command_that_adds_an_address() {
    let command = apply_add("eth0", "2001:db8::1/64");
    assert_eq!(
        command,
        IpCommand {
            operation: Operation::Add,
            address: "2001:db8::1/64".to_string(),
            device: "eth0".to_string(),
        }
    );
    assert_eq!(IpCommand::program(), "ip");
    assert_eq!(
        command.arguments(),
        strings(&["-6", "addr", "add", "2001:db8::1/64", "dev", "eth0"])
    );
}

#[test]
fn the_command_that_deletes_an_address() {
    let command = apply_delete("ens33", "2001:db8::2/48");
    assert_eq!(
        command,
        IpCommand {
            operation: Operation::Delete,
            address: "2001:db8::2/48".to_string(),
            device: "ens33".to_string(),
        }
    );
    assert_eq!(
        command.arguments(),
        strings(&["-6", "addr", "del", "2001:db8::2/48", "dev", "ens33"])
    );
}

#[test]
fn the_exit_code_zero_is_a_success() {
    let command = apply_add("eth0", "2001:db8::1/64");
    assert_eq!(command.outcome(Some(0), String::new()), Ok(()));
    assert_eq!(command.outcome(Some(0), "a warning".to_string()), Ok(()));
}

#[test]
fn any_other_exit_code_is_an_error() {
    let command = apply_delete("eth0", "2001:db8::1/64");
    assert_eq!(
        command.outcome(Some(2), "RTNETLINK answers: Cannot assign requested address".to_string()),
        Err(OsError {
            operation: Operation::Delete,
            status: Some(2),
            diagnostic: "RTNETLINK answers: Cannot assign requested address".to_string(),
        })
    );
    assert_eq!(
        command.outcome(Some(-1), String::new()),
        Err(OsError { operation: Operation::Delete, status: Some(-1), diagnostic: String::new() })
    );
}

#[test]
fn a_command_without_an_exit_code_has_failed() {
    let command = apply_add("eth0", "2001:db8::1/64");
    assert_eq!(
        command.outcome(None, "No such file or directory".to_string()),
        Err(OsError {
            operation: Operation::Add,
            status: None,
            diagnostic: "No such file or directory".to_string(),
        })
    );
}
