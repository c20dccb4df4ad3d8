use rotator::block::IpBlock;
use rotator::command::IpCommand;
use rotator::command::Operation;
use rotator::error::ConfigFault;
use rotator::error::RotatorError;
use rotator::pool::AddressPool;
use rotator::rotator::GENERATION_ATTEMPTS;
use rotator::rotator::Rotator;
use rotator::state::Phase;
use rotator::state::RotationState;

fn is_symbol(c: char) -> bool {
    c.is_ascii_digit() || ('a'..='f').contains(&c)
}

fn is_hextet(text: &str) -> bool {
    text.len() == 4 && text.chars().all(is_symbol)
}

/// Whether the text is the prefix, so many groups behind a colon each, a slash and the size.
fn has_shape(text: &str, prefix: &str, groups: usize, size: &str) -> bool {
    let Some(rest) = text.strip_prefix(prefix) else {
        return false;
    };
    let Some((middle, suffix)) = rest.split_once('/') else {
        return false;
    };
    let Some(middle) = middle.strip_prefix(':') else {
        return false;
    };
    let parts: Vec<&str> = middle.split(':').collect();
    suffix == size && parts.len() == groups && parts.iter().all(|part| is_hextet(part))
}

fn sample<'a>(block: IpBlock) -> Rotator<'a> {
    Rotator::builder().device("eth0").network("2001:db8:0000:0000").block(block).build()
}

#[test]
fn test_unique_ip() {
    let mut rotator = sample(IpBlock::CIDR64);
    let first = rotator.create_unique_ip().unwrap();
    let second = rotator.create_unique_ip().unwrap();
    let third = rotator.create_unique_ip().unwrap();
    assert_ne!(first, second);
    assert_ne!(first, third);
    assert_ne!(second, third);
    assert_eq!(rotator.state.addresses(), &vec![first, second, third]);
}

#[test]
fn test_builder_success() {
    let rotator = Rotator::builder()
        .device("eth0")
        .network("2001:db8:0000:0000")
        .count(5)
        .block(IpBlock::CIDR48)
        .sleep_time(15)
        .build();

    assert_eq!(
        Rotator {
            device: "eth0",
            network: "2001:db8:0000:0000",
            count: 5,
            block: IpBlock::CIDR48,
            sleep_time: 15,
            state: RotationState::new(),
        },
        rotator
    );
}

#[test]
fn a_builder_starts_from_the_defaults() {
    let rotator = Rotator::builder();
    assert_eq!(rotator.device, "");
    assert_eq!(rotator.network, "");
    assert_eq!(rotator.sleep_time, 10);
    assert_eq!(rotator.count, 5);
    assert_eq!(rotator.block, IpBlock::CIDR64);
    assert_eq!(rotator.state.phase(), Phase::Idle);
    assert!(rotator.state.addresses().is_empty());
}

#[test]
fn each_setter_sets_its_own_field() {
    let mut rotator = Rotator::builder();
    rotator.device("ens33");
    assert_eq!(rotator.device, "ens33");
    rotator.network("fd00:1234");
    assert_eq!(rotator.network, "fd00:1234");
    rotator.sleep_time(60);
    assert_eq!(rotator.sleep_time, 60);
    rotator.count(9);
    assert_eq!(rotator.count, 9);
    rotator.block(IpBlock::CIDR32);
    assert_eq!(rotator.block, IpBlock::CIDR32);
    assert_eq!(rotator.device, "ens33");
    assert_eq!(rotator.network, "fd00:1234");
    assert_eq!(rotator.sleep_time, 60);
    assert_eq!(rotator.count, 9);
}

#[test]
fn build_copies_what_the_rotator_holds() {
    let mut first = sample(IpBlock::CIDR64);
    let kept = first.create_unique_ip().unwrap();
    let second = first.build();
    assert_eq!(second, first);
    assert_eq!(second.state.addresses(), &vec![kept]);
}

#[test]
fn a_usable_configuration_passes() {
    assert_eq!(sample(IpBlock::CIDR64).validate(), Ok(()));
}

#[test]
fn an_empty_device_is_refused() {
    let rotator = Rotator::builder().network("2001:db8").build();
    assert_eq!(rotator.validate(), Err(RotatorError::InvalidConfig(ConfigFault::Device)));
}

#[test]
fn an_empty_prefix_is_refused() {
    let rotator = Rotator::builder().device("eth0").build();
    assert_eq!(rotator.validate(), Err(RotatorError::InvalidConfig(ConfigFault::Network)));
}

#[test]
fn a_count_of_zero_is_refused() {
    let rotator = Rotator::builder().device("eth0").network("2001:db8").count(0).build();
    assert_eq!(rotator.validate(), Err(RotatorError::InvalidConfig(ConfigFault::Count)));
}

#[test]
fn an_interval_of_zero_is_refused() {
    let rotator = Rotator::builder().device("eth0").network("2001:db8").sleep_time(0).build();
    assert_eq!(rotator.validate(), Err(RotatorError::InvalidConfig(ConfigFault::Interval)));
}

#[test]
fn the_first_fault_is_the_one_that_is_named() {
    let rotator = Rotator::builder().count(0).sleep_time(0).build();
    assert_eq!(rotator.validate(), Err(RotatorError::InvalidConfig(ConfigFault::Device)));
    let rotator = Rotator::builder().device("eth0").count(0).sleep_time(0).build();
    assert_eq!(rotator.validate(), Err(RotatorError::InvalidConfig(ConfigFault::Network)));
    let rotator = Rotator::builder().device("eth0").network("fd00").count(0).sleep_time(0).build();
    assert_eq!(rotator.validate(), Err(RotatorError::InvalidConfig(ConfigFault::Count)));
}

#[test]
fn a_group_is_four_symbols() {
    let rotator = sample(IpBlock::CIDR64);
    for _ in 0..200 {
        let hextet = rotator.gen();
        assert_eq!(hextet.len(), 4);
        assert!(is_hextet(&hextet), "{}", hextet);
    }
}

#[test]
fn groups_are_drawn_and_not_copied() {
    let rotator = sample(IpBlock::CIDR64);
    let first = rotator.gen();
    let differs = (0..200).any(|_| rotator.gen() != first);
    assert!(differs);
}

#[test]
fn an_address_has_the_groups_of_its_block() {
    for (block, groups, size) in
        [(IpBlock::CIDR32, 6, "32"), (IpBlock::CIDR48, 5, "48"), (IpBlock::CIDR64, 4, "64")]
    {
        let mut rotator = sample(block);
        for _ in 0..50 {
            let address = rotator.generate_ip();
            assert!(has_shape(&address, "2001:db8:0000:0000", groups, size), "{}", address);
            assert_eq!(address.len(), "2001:db8:0000:0000".len() + 5 * groups + 3);
        }
    }
}

#[test]
fn an_address_of_the_example_network() {
    let mut rotator = sample(IpBlock::CIDR64);
    let address = rotator.generate_ip();
    let (host, size) = address.split_once('/').unwrap();
    assert_eq!(size, "64");
    let parts: Vec<&str> = host.split(':').collect();
    assert_eq!(parts.len(), 8);
    assert_eq!(&parts[..4], &["2001", "db8", "0000", "0000"]);
    assert!(parts[4..].iter().all(|part| is_hextet(part)));
}

#[test]
fn three_addresses_of_the_example_network_are_taken() {
    let mut rotator = sample(IpBlock::CIDR64);
    let mut pool = AddressPool::new();
    for _ in 0..3 {
        assert!(pool.try_add(rotator.generate_ip()));
    }
    assert_eq!(pool.len(), 3);
}

#[test]
fn generating_an_address_changes_nothing() {
    let mut rotator = sample(IpBlock::CIDR48);
    let before = rotator.build();
    rotator.generate_ip();
    assert_eq!(rotator, before);
}

#[test]
fn a_new_candidate_is_taken_at_any_attempt() {
    let mut rotator = sample(IpBlock::CIDR64);
    assert_eq!(rotator.consider("a/64".to_string(), 0), Ok(Some("a/64".to_string())));
    assert_eq!(
        rotator.consider("b/64".to_string(), GENERATION_ATTEMPTS - 1),
        Ok(Some("b/64".to_string()))
    );
    assert_eq!(rotator.state.addresses(), &vec!["a/64".to_string(), "b/64".to_string()]);
}

#[test]
fn a_known_candidate_is_thrown_away() {
    let mut rotator = sample(IpBlock::CIDR64);
    assert_eq!(rotator.consider("a/64".to_string(), 0), Ok(Some("a/64".to_string())));
    for attempt in 0..GENERATION_ATTEMPTS - 1 {
        assert_eq!(rotator.consider("a/64".to_string(), attempt), Ok(None));
    }
    assert_eq!(rotator.state.addresses(), &vec!["a/64".to_string()]);
}

#[test]
fn the_last_attempt_exhausts_the_generation() {
    let mut rotator = sample(IpBlock::CIDR64);
    assert_eq!(GENERATION_ATTEMPTS, 8);
    assert_eq!(rotator.consider("a/64".to_string(), 0), Ok(Some("a/64".to_string())));
    assert_eq!(rotator.consider("a/64".to_string(), 7), Err(RotatorError::GenerationExhausted));
    assert_eq!(rotator.consider("a/64".to_string(), 8), Err(RotatorError::GenerationExhausted));
    assert_eq!(rotator.state.addresses(), &vec!["a/64".to_string()]);
}

#[test]
fn add_ip_records_the_address_of_its_command() {
    let mut rotator = sample(IpBlock::CIDR48);
    let mut commands: Vec<IpCommand> = Vec::new();
    for _ in 0..4 {
        commands.push(rotator.add_ip().unwrap());
    }
    for command in &commands {
        assert_eq!(command.operation, Operation::Add);
        assert_eq!(command.device, "eth0");
        assert!(has_shape(&command.address, "2001:db8:0000:0000", 5, "48"));
    }
    let added: Vec<String> = commands.into_iter().map(|command| command.address).collect();
    assert_eq!(rotator.state.addresses(), &added);
}

#[test]
fn cleanup_gives_one_command_for_each_address() {
    let mut rotator = sample(IpBlock::CIDR64);
    let mut added: Vec<String> = Vec::new();
    for _ in 0..3 {
        added.push(rotator.add_ip().unwrap().address);
    }
    let commands = rotator.cleanup_addresses();
    let expected: Vec<IpCommand> = added
        .into_iter()
        .map(|address| IpCommand {
            operation: Operation::Delete,
            address,
            device: "eth0".to_string(),
        })
        .collect();
    assert_eq!(commands, expected);
    assert!(rotator.state.addresses().is_empty());
    assert_eq!(rotator.state.phase(), Phase::Stopped);
}

#[test]
fn cleanup_of_an_empty_pool_gives_no_command() {
    let mut rotator = sample(IpBlock::CIDR64);
    assert!(rotator.cleanup_addresses().is_empty());
    assert_eq!(rotator.state.phase(), Phase::Stopped);
}
