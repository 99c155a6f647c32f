use service_supervisor::config::{store_cli_object, ServiceConfig};

fn sample() -> ServiceConfig {
    ServiceConfig { name: String::from("TestSvc"), command: String::from("sleep 5") }
}

#[test]
fn store_fills_an_empty_slot() {
    let mut slot: Option<ServiceConfig> = None;
    store_cli_object(&mut slot, sample());
    assert_eq!(slot, Some(sample()));
}

#[test]
fn store_replaces_what_the_slot_held() {
    let mut slot = Some(ServiceConfig {
        name: String::from("Old"),
        command: String::from("C:/old.bat"),
    });
    store_cli_object(&mut slot, sample());
    assert_eq!(slot, Some(sample()));
}

#[test]
fn launch_arguments_name_the_service_and_the_command() {
    let args = sample().launch_arguments();
    assert_eq!(
        args,
        vec![
            String::from("--name"),
            String::from("TestSvc"),
            String::from("--bat"),
            String::from("sleep 5"),
        ]
    );
}

#[test]
fn launch_arguments_keep_empty_and_odd_strings() {
    let config = ServiceConfig { name: String::new(), command: String::from("C:/scripts/run it.bat") };
    let args = config.launch_arguments();
    assert_eq!(args.len(), 4);
    assert_eq!(args[1], "");
    assert_eq!(args[3], "C:/scripts/run it.bat");
}

#[test]
fn interpreter_arguments_hand_the_command_over_whole() {
    let args = sample().interpreter_arguments();
    assert_eq!(args, vec![String::from("/K"), String::from("sleep 5")]);
}
