use robot_rename::{
    can_customize_password, evaluate, NameError, NumberError, ParseFailure, PasswordError,
    RobotRename, FIXED_PASSWORD,
};

#[test]
fn a_valid_form_gives_command_and_address() {
    let evaluation = evaluate("bot1", "42", "", false);
    assert_eq!(evaluation.command.as_deref(), Some("setupWifiAP.sh bot1 0042 password"));
    assert_eq!(evaluation.address.as_deref(), Some("10.00.42.2"));
    assert_eq!(evaluation.number, Ok(42));
    assert_eq!(evaluation.name_error, None);
    assert_eq!(evaluation.password_error, None);
    assert!(evaluation.error_messages().is_empty());
}

#[test]
fn an_empty_name_gives_no_command() {
    for customizable in [false, true] {
        let evaluation = evaluate("", "42", "secret", customizable);
        assert_eq!(evaluation.command, None);
        assert_eq!(evaluation.name_error, Some(NameError::Empty));
        assert_eq!(evaluation.password_error, None);
        assert_eq!(evaluation.number, Ok(42));
        assert_eq!(evaluation.address.as_deref(), Some("10.00.42.2"));
        assert_eq!(evaluation.error_messages(), vec!["Name cannot be empty.".to_string()]);
    }
}

#[test]
fn a_form_filled_in_by_hand() {
    let mut form = RobotRename::new(false);
    form.name.push_str("bot1");
    form.number_string.push_str("42");
    let evaluation = form.update(false);
    assert_eq!(evaluation.command.as_deref(), Some("setupWifiAP.sh bot1 0042 password"));
    assert_eq!(evaluation.address.as_deref(), Some("10.00.42.2"));
    assert_eq!(form.name, "bot1");
    assert_eq!(form.number_string, "42");
    assert_eq!(form.password, "password");
}

#[test]
fn a_new_form() {
    let fixed = RobotRename::new(false);
    assert_eq!(fixed.name, "");
    assert_eq!(fixed.number_string, "");
    assert_eq!(fixed.password, "password");
    let free = RobotRename::new(true);
    assert_eq!(free.name, "");
    assert_eq!(free.number_string, "");
    assert_eq!(free.password, "");
}

#[test]
fn a_new_form_shows_its_faults() {
    let mut form = RobotRename::new(true);
    let evaluation = form.update(true);
    assert_eq!(evaluation.command, None);
    assert_eq!(evaluation.address, None);
    assert_eq!(evaluation.name_error, Some(NameError::Empty));
    assert_eq!(evaluation.password_error, Some(PasswordError::Empty));
    assert_eq!(evaluation.number, Err(NumberError::InvalidFormat(ParseFailure::Empty)));
    assert_eq!(
        evaluation.error_messages(),
        vec![
            "Name cannot be empty.".to_string(),
            "Password cannot be empty.".to_string(),
            "Could not parse robot number (Empty).".to_string(),
        ]
    );

    let mut form = RobotRename::new(false);
    let evaluation = form.update(false);
    assert_eq!(evaluation.command, None);
    assert_eq!(evaluation.password_error, None);
    assert_eq!(
        evaluation.error_messages(),
        vec![
            "Name cannot be empty.".to_string(),
            "Could not parse robot number (Empty).".to_string(),
        ]
    );
}

#[test]
fn the_fixed_password_replaces_what_the_field_held() {
    for held in ["", "pass word", " ", "hunter2", "password"] {
        let mut form = RobotRename::new(true);
        form.name.push_str("bot1");
        form.number_string.push_str("7");
        form.password.push_str(held);
        let evaluation = form.update(false);
        assert_eq!(form.password, FIXED_PASSWORD);
        assert_eq!(form.password, "password");
        assert_eq!(evaluation.password_error, None);
        assert_eq!(evaluation.command.as_deref(), Some("setupWifiAP.sh bot1 0007 password"));
    }
}

#[test]
fn a_customized_password_stands_in_the_command() {
    let mut form = RobotRename::new(true);
    form.name.push_str("bot1");
    form.number_string.push_str("1234");
    form.password.push_str("hunter2");
    let evaluation = form.update(true);
    assert_eq!(form.password, "hunter2");
    assert_eq!(evaluation.password_error, None);
    assert_eq!(evaluation.command.as_deref(), Some("setupWifiAP.sh bot1 1234 hunter2"));
    assert_eq!(evaluation.address.as_deref(), Some("10.12.34.2"));
}

#[test]
fn a_customized_password_is_judged() {
    let evaluation = evaluate("bot1", "42", "", true);
    assert_eq!(evaluation.password_error, Some(PasswordError::Empty));
    assert_eq!(evaluation.command, None);
    assert_eq!(evaluation.address.as_deref(), Some("10.00.42.2"));
    let evaluation = evaluate("bot1", "42", "hun ter", true);
    assert_eq!(evaluation.password_error, Some(PasswordError::HasWhitespace));
    assert_eq!(evaluation.command, None);
    assert_eq!(
        evaluation.error_messages(),
        vec!["Password cannot contain whitespace.".to_string()]
    );
}

#[test]
fn all_faults_are_found_at_once() {
    let evaluation = evaluate("1 bot", "12345", "a b", true);
    assert_eq!(evaluation.name_error, Some(NameError::HasWhitespace));
    assert_eq!(evaluation.password_error, Some(PasswordError::HasWhitespace));
    assert_eq!(evaluation.number, Err(NumberError::TooLarge));
    assert_eq!(evaluation.command, None);
    assert_eq!(evaluation.address, None);
    assert_eq!(
        evaluation.error_messages(),
        vec![
            "Name cannot contain whitespace.".to_string(),
            "Password cannot contain whitespace.".to_string(),
            "Robot number too large (>9999).".to_string(),
        ]
    );
}

#[test]
fn a_faulty_number_gives_neither_address_nor_command() {
    for (text, fault) in [
        ("", NumberError::InvalidFormat(ParseFailure::Empty)),
        ("forty-two", NumberError::InvalidFormat(ParseFailure::InvalidDigit)),
        ("-3", NumberError::Negative),
        ("10000", NumberError::TooLarge),
        (
            "999999999999999999999999999999999999999999",
            NumberError::InvalidFormat(ParseFailure::PosOverflow),
        ),
    ] {
        let evaluation = evaluate("bot1", text, "", false);
        assert_eq!(evaluation.number, Err(fault));
        assert_eq!(evaluation.address, None);
        assert_eq!(evaluation.command, None);
        assert_eq!(evaluation.name_error, None);
        assert_eq!(evaluation.error_messages(), vec![fault.message()]);
    }
}

#[test]
fn a_faulty_name_leaves_the_address() {
    let evaluation = evaluate("1bot", "305", "", false);
    assert_eq!(evaluation.name_error, Some(NameError::StartsWithDigit));
    assert_eq!(evaluation.address.as_deref(), Some("10.03.05.2"));
    assert_eq!(evaluation.command, None);
    assert_eq!(
        evaluation.error_messages(),
        vec!["Name cannot start with a number.".to_string()]
    );
}

#[test]
fn the_command_is_there_exactly_when_nothing_is_wrong() {
    let names = ["", "bot1", "bot 1", "1bot"];
    let numbers = ["", "42", "-1", "10000", "x"];
    let passwords = ["", "secret", "se cret"];
    for name in names {
        for number in numbers {
            for password in passwords {
                for customizable in [false, true] {
                    let evaluation = evaluate(name, number, password, customizable);
                    let faultless = evaluation.number.is_ok()
                        && evaluation.name_error.is_none()
                        && evaluation.password_error.is_none();
                    assert_eq!(evaluation.command.is_some(), faultless);
                    assert_eq!(evaluation.address.is_some(), evaluation.number.is_ok());
                    assert_eq!(evaluation.error_messages().is_empty(), faultless);
                }
            }
        }
    }
}

#[test]
fn update_leaves_name_and_number_as_they_are() {
    let mut form = RobotRename::new(true);
    form.name.push_str("bot 1");
    form.number_string.push_str("not a number");
    form.password.push_str("pw");
    let evaluation = form.update(true);
    assert_eq!(form.name, "bot 1");
    assert_eq!(form.number_string, "not a number");
    assert_eq!(form.password, "pw");
    assert_eq!(evaluation, evaluate("bot 1", "not a number", "pw", true));
}

#[test]
fn customization_is_allowed_by_either_source() {
    assert!(!can_customize_password(false, false));
    assert!(can_customize_password(true, false));
    assert!(can_customize_password(false, true));
    assert!(can_customize_password(true, true));
}
