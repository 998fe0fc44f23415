use aoc_userpatch::dprun::{
    host_server_port, join_words, port_from_number, DPAddressPart, DPGUIDOrNamed, SessionType,
    DEFAULT_HOST_SERVER_PORT,
};
use aoc_userpatch::{run, DPAddressValue, DPRunOptions, DPRunOptionsBuilder, GUID};

fn dpchat() -> GUID {
    GUID(0x5BFDB060, 0x06A4, 0x11D0, 0x9C, 0x4F, 0x00, 0xA0, 0xC9, 0x05, 0x42, 0x5E)
}

fn tcpip() -> GUID {
    GUID(0x36E95EE0, 0x8577, 0x11cf, 0x96, 0x0c, 0x00, 0x80, 0xc7, 0x53, 0x4e, 0x82)
}

fn inet_port() -> GUID {
    GUID(0xe4524541, 0x8ea5, 0x11d1, 0x8a, 0x96, 0x00, 0x60, 0x97, 0xb0, 0x14, 0x11)
}

fn dprun_provider() -> GUID {
    GUID(0xb1ed2367, 0x609b, 0x4c5c, 0x87, 0x55, 0xd2, 0xa2, 0x9b, 0xb9, 0xa5, 0x54)
}

fn word(part: DPAddressPart) -> String {
    part.to_word()
}

#[test]
fn build_command_line_args() {
    let dpchat = GUID(0x5BFDB060, 0x06A4, 0x11D0, 0x9C, 0x4F, 0x00, 0xA0, 0xC9, 0x05, 0x42, 0x5E);
    let tcpip = GUID(0x36E95EE0, 0x8577, 0x11cf, 0x96, 0x0c, 0x00, 0x80, 0xc7, 0x53, 0x4e, 0x82);
    let inet_port =
        GUID(0xe4524541, 0x8ea5, 0x11d1, 0x8a, 0x96, 0x00, 0x60, 0x97, 0xb0, 0x14, 0x11);

    for target_os in ["windows", "linux"] {
        let options = DPRunOptions::builder()
            .host(None)
            .player_name("Test".into())
            .application(dpchat)
            .service_provider(tcpip)
            .named_address_part("INet", DPAddressValue::String("127.0.0.1".into()))
            .address_part(inet_port, DPAddressValue::Number(2197))
            .finish();

        let dp_run = run(options, target_os == "windows");
        if target_os == "windows" {
            assert_eq!(dp_run.command(), r#""dprun.exe" "--host" "--player" "Test" "--service-provider" "{36E95EE0-8577-11cf-960C-0080C7534E82}" "--application" "{5BFDB060-06A4-11d0-9C4F-00A0C905425E}" "--address" "INet=127.0.0.1" "--address" "{E4524541-8EA5-11d1-8A96-006097B01411}=i:2197""#);
        } else {
            assert_eq!(dp_run.command(), r#""wine" "dprun.exe" "--host" "--player" "Test" "--service-provider" "{36E95EE0-8577-11cf-960C-0080C7534E82}" "--application" "{5BFDB060-06A4-11d0-9C4F-00A0C905425E}" "--address" "INet=127.0.0.1" "--address" "{E4524541-8EA5-11d1-8A96-006097B01411}=i:2197""#);
        }
    }
}

#[test]
fn guid_is_written_in_registry_form() {
    assert_eq!(tcpip().to_string(), "{36E95EE0-8577-11cf-960C-0080C7534E82}");
    assert_eq!(dpchat().to_string(), "{5BFDB060-06A4-11d0-9C4F-00A0C905425E}");
    assert_eq!(inet_port().to_string(), "{E4524541-8EA5-11d1-8A96-006097B01411}");
    assert_eq!(
        GUID(0, 0, 0, 0, 0, 0, 0, 0, 0, 0, 0).to_string(),
        "{00000000-0000-0000-0000-000000000000}"
    );
    assert_eq!(
        GUID(0xFFFFFFFF, 0xABCD, 0xABCD, 0xEF, 0x01, 0x23, 0x45, 0x67, 0x89, 0xAB, 0xCD)
            .to_string(),
        "{FFFFFFFF-ABCD-abcd-EF01-23456789ABCD}"
    );
}

#[test]
fn numbers_are_written_in_decimal() {
    let part = |n: i32| {
        word(DPAddressPart {
            data_type: DPGUIDOrNamed::Named("N".to_string()),
            value: DPAddressValue::Number(n),
        })
    };
    assert_eq!(part(0), "N=i:0");
    assert_eq!(part(7), "N=i:7");
    assert_eq!(part(10), "N=i:10");
    assert_eq!(part(2197), "N=i:2197");
    assert_eq!(part(-5), "N=i:-5");
    assert_eq!(part(1000000), "N=i:1000000");
    assert_eq!(part(i32::MAX), "N=i:2147483647");
    assert_eq!(part(i32::MIN), "N=i:-2147483648");
}

#[test]
fn binary_values_are_written_in_lower_case_hex() {
    let part = |b: Vec<u8>| {
        word(DPAddressPart {
            data_type: DPGUIDOrNamed::GUID(inet_port()),
            value: DPAddressValue::Binary(b),
        })
    };
    assert_eq!(part(vec![]), "{E4524541-8EA5-11d1-8A96-006097B01411}=b:");
    assert_eq!(part(vec![0x00, 0xAB, 0x0F, 0xF0]), "{E4524541-8EA5-11d1-8A96-006097B01411}=b:00ab0ff0");
}

#[test]
fn names_and_guids_turn_into_words() {
    assert_eq!(DPGUIDOrNamed::Named("TCPIP".to_string()).into_string(), "TCPIP");
    assert_eq!(
        DPGUIDOrNamed::GUID(tcpip()).into_string(),
        "{36E95EE0-8577-11cf-960C-0080C7534E82}"
    );
    assert!(DPGUIDOrNamed::Named("DPRUN".to_string()).is_named(dprun_provider(), "DPRUN"));
    assert!(DPGUIDOrNamed::GUID(dprun_provider()).is_named(dprun_provider(), "DPRUN"));
    assert!(!DPGUIDOrNamed::GUID(tcpip()).is_named(dprun_provider(), "DPRUN"));
    assert!(!DPGUIDOrNamed::Named("dprun".to_string()).is_named(dprun_provider(), "DPRUN"));
}

#[test]
fn joining_a_session_with_every_option() {
    let session = GUID(1, 2, 3, 4, 5, 6, 7, 8, 9, 10, 11);
    let options = DPRunOptions::builder()
        .join(session)
        .player_name("Ann".to_string())
        .named_service_provider("TCPIP")
        .application(dpchat())
        .session_name("Friday".to_string())
        .session_password("secret word".to_string())
        .cwd("/opt/dprun".to_string())
        .finish();
    let session = run(options, false);
    assert_eq!(session.program, "wine");
    assert_eq!(
        session.args,
        vec![
            "dprun.exe",
            "--join",
            "{00000001-0002-0003-0405-060708090A0B}",
            "--player",
            "Ann",
            "--service-provider",
            "TCPIP",
            "--application",
            "{5BFDB060-06A4-11d0-9C4F-00A0C905425E}",
            "--session-name",
            "Friday",
            "--session-password",
            "secret word",
        ]
    );
    assert_eq!(session.cwd, Some("/opt/dprun".to_string()));
    assert_eq!(session.host_server_port, None);
    assert!(!session.service_provider);
}

#[test]
fn hosting_under_a_given_guid() {
    let session = GUID(1, 2, 3, 4, 5, 6, 7, 8, 9, 10, 11);
    let options = DPRunOptions::builder()
        .host(Some(session))
        .player_name("Ann".to_string())
        .service_provider(tcpip())
        .application(dpchat())
        .finish();
    assert_eq!(options.session_type, SessionType::Host(Some(session)));
    let session = run(options, true);
    assert_eq!(session.program, "dprun.exe");
    assert_eq!(&session.args[0..2], &["--host", "{00000001-0002-0003-0405-060708090A0B}"]);
    assert_eq!(session.args.len(), 8);
    assert_eq!(session.cwd, None);
}

#[test]
fn command_quotes_each_word() {
    let options = DPRunOptions::builder()
        .host(None)
        .player_name("A \"B\"\\".to_string())
        .named_service_provider("TCPIP")
        .application(dpchat())
        .finish();
    assert_eq!(
        run(options, true).command(),
        r#""dprun.exe" "--host" "--player" "A \"B\"\\" "--service-provider" "TCPIP" "--application" "{5BFDB060-06A4-11d0-9C4F-00A0C905425E}""#
    );
}

#[test]
fn words_are_joined_with_single_spaces() {
    assert_eq!(join_words(&vec![]), "");
    assert_eq!(join_words(&vec!["a".to_string()]), "a");
    assert_eq!(join_words(&vec!["a".to_string(), "".to_string(), "b c".to_string()]), "a  b c");
}

#[test]
fn handler_selects_the_dprun_provider_unless_one_is_set() {
    let builder = DPRunOptions::builder().service_provider_handler();
    assert_eq!(builder.service_provider, Some(DPGUIDOrNamed::Named("DPRUN".to_string())));
    assert!(builder.service_provider_handler);
    let builder = DPRunOptions::builder().service_provider(tcpip()).service_provider_handler();
    assert_eq!(builder.service_provider, Some(DPGUIDOrNamed::GUID(tcpip())));
    assert!(builder.service_provider_handler);
}

#[test]
fn builder_starts_with_nothing_set() {
    let builder = DPRunOptions::builder();
    assert_eq!(builder, DPRunOptionsBuilder::default());
    assert_eq!(builder.session_type, None);
    assert_eq!(builder.player_name, None);
    assert_eq!(builder.service_provider, None);
    assert!(!builder.service_provider_handler);
    assert_eq!(builder.application, None);
    assert!(builder.address.is_empty());
    assert_eq!(builder.session_name, None);
    assert_eq!(builder.session_password, None);
    assert_eq!(builder.cwd, None);
}

#[test]
fn incomplete_options_are_not_finished() {
    assert!(!DPRunOptions::builder().is_complete());
    assert_eq!(DPRunOptions::builder().try_finish(), None);
    let three = DPRunOptions::builder()
        .host(None)
        .player_name("Ann".to_string())
        .application(dpchat());
    assert!(!three.is_complete());
    let four = three.service_provider(tcpip());
    assert!(four.is_complete());
    assert!(four.clone().try_finish().is_some());
    assert_eq!(four.clone().try_finish(), Some(four.finish()));
}

#[test]
fn dprun_provider_needs_a_handler() {
    let base = DPRunOptions::builder()
        .host(None)
        .player_name("Ann".to_string())
        .application(dpchat());
    assert!(!base.clone().named_service_provider("DPRUN").is_complete());
    assert!(!base.clone().service_provider(dprun_provider()).is_complete());
    assert!(base.clone().service_provider(dprun_provider()).service_provider_handler().is_complete());
    assert!(base.clone().service_provider_handler().is_complete());
    assert!(base.named_service_provider("TCPIP").is_complete());
}

#[test]
fn host_server_port_comes_from_the_address() {
    let base = DPRunOptions::builder()
        .host(None)
        .player_name("Ann".to_string())
        .application(dpchat())
        .service_provider_handler();
    let none = base.clone().finish();
    assert_eq!(host_server_port(&none), None);
    let by_guid = base
        .clone()
        .named_address_part("INet", DPAddressValue::String("127.0.0.1".to_string()))
        .address_part(inet_port(), DPAddressValue::Number(8000))
        .named_address_part("INetPort", DPAddressValue::Number(9000))
        .finish();
    assert_eq!(host_server_port(&by_guid), Some(8000));
    let by_name = base
        .clone()
        .named_address_part("INetPort", DPAddressValue::Number(9000))
        .address_part(inet_port(), DPAddressValue::Number(8000))
        .finish();
    assert_eq!(host_server_port(&by_name), Some(9000));
    let no_number = base
        .clone()
        .named_address_part("INetPort", DPAddressValue::String("9000".to_string()))
        .finish();
    assert_eq!(host_server_port(&no_number), Some(2197));
    assert_eq!(DEFAULT_HOST_SERVER_PORT, 2197);
    let session = run(by_guid, false);
    assert_eq!(session.host_server_port, Some(8000));
    assert!(session.service_provider);
}

#[test]
fn host_server_port_needs_a_handler() {
    let options = DPRunOptions::builder()
        .host(None)
        .player_name("Ann".to_string())
        .application(dpchat())
        .service_provider(tcpip())
        .address_part(inet_port(), DPAddressValue::Number(8000))
        .finish();
    assert_eq!(host_server_port(&options), None);
}

#[test]
fn port_is_the_low_sixteen_bits_of_a_number() {
    assert_eq!(port_from_number(2197), 2197);
    assert_eq!(port_from_number(0), 0);
    assert_eq!(port_from_number(65535), 65535);
    assert_eq!(port_from_number(65536), 0);
    assert_eq!(port_from_number(70000), 4464);
    assert_eq!(port_from_number(-1), 65535);
    assert_eq!(port_from_number(i32::MIN), 0);
    assert_eq!(port_from_number(i32::MAX), 65535);
}
