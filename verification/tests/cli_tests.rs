use weathernoaa::cli::Cmd;
use weathernoaa::cli::CliError;
use weathernoaa::cli::Opt;
use weathernoaa::cli::SubCommand;
use weathernoaa::cli::init;

#[test]
fn info_defaults_to_vobl() {
    let args = vec!["info".to_string()];
    let cmd = init(&args).unwrap();
    assert_eq!(
        cmd,
        Cmd {
            opt: Opt { verbose: false },
            sub: SubCommand::Info { station_id: "VOBL".to_string() },
        }
    );
}

#[test]
fn station_id_flag_selects_station() {
    let args = vec![
        "info".to_string(),
        "--station-id".to_string(),
        "ZSQD".to_string(),
    ];
    let cmd = init(&args).unwrap();
    assert_eq!(
        cmd.sub,
        SubCommand::Info { station_id: "ZSQD".to_string() }
    );
    assert!(!cmd.opt.verbose);
}

#[test]
fn verbose_flag_is_global() {
    let before = vec!["-v".to_string(), "info".to_string()];
    assert!(init(&before).unwrap().opt.verbose);
    let after = vec!["info".to_string(), "--verbose".to_string()];
    assert!(init(&after).unwrap().opt.verbose);
}

#[test]
fn unknown_argument_is_rejected() {
    let args = vec!["frobnicate".to_string()];
    assert_eq!(init(&args), Err(CliError::UnexpectedArgument(0)));
}

#[test]
fn missing_subcommand_is_rejected() {
    let args: Vec<String> = vec![];
    assert_eq!(init(&args), Err(CliError::MissingSubcommand));
}

#[test]
fn station_id_without_value_is_rejected() {
    let args = vec!["info".to_string(), "--station-id".to_string()];
    assert_eq!(init(&args), Err(CliError::MissingValue(1)));
}
