//! The form: its three fields, and what is shown for them.

use crate::format::{command_text, format_command, format_ip_addr, ip_addr_text};
use crate::number::{parse_robot_number, robot_number_spec, NumberError};
use crate::validate::{
    name_error_spec, password_error_spec, validate_name, validate_password, NameError,
    PasswordError,
};
use vstd::prelude::*;
use vstd::string::StringExecFns;

verus! {

/// The password of every robot where passwords cannot be customized.
pub const FIXED_PASSWORD: &'static str = "password";

/// Whether passwords can be customized: they can where the build says so or
/// where the variable that asks for it is present.
pub fn can_customize_password(build_default: bool, variable_present: bool) -> (allowed: bool)
    ensures
        allowed == (build_default || variable_present),
{
    build_default || variable_present
}

/// The password that is used: the one typed in where passwords can be
/// customized, the fixed one where they cannot.
pub open spec fn effective_password(password: Seq<char>, customizable: bool) -> Seq<char> {
    if customizable {
        password
    } else {
        FIXED_PASSWORD@
    }
}

/// What the form shows for its fields, as plain values.
pub ghost struct EvaluationView {
    /// The robot number, or why the number field holds none.
    pub number: Result<i128, NumberError>,
    /// The address of the robot, where the number field holds a robot number.
    pub address: Option<Seq<char>>,
    /// The fault of the name, if it has one.
    pub name_error: Option<NameError>,
    /// The fault of the password, if it has one.
    pub password_error: Option<PasswordError>,
    /// The command, where no field has a fault.
    pub command: Option<Seq<char>>,
}

/// What the form shows for its fields.
#[derive(Debug, PartialEq, Eq)]
pub struct Evaluation {
    /// The robot number, or why the number field holds none.
    pub number: Result<i128, NumberError>,
    /// The address of the robot, where the number field holds a robot number.
    pub address: Option<String>,
    /// The fault of the name, if it has one.
    pub name_error: Option<NameError>,
    /// The fault of the password, if it has one.
    pub password_error: Option<PasswordError>,
    /// The command, where no field has a fault.
    pub command: Option<String>,
}

impl View for Evaluation {
    type V = EvaluationView;

    open spec fn view(&self) -> EvaluationView {
        EvaluationView {
            number: self.number,
            address: self.address.deep_view(),
            name_error: self.name_error,
            password_error: self.password_error,
            command: self.command.deep_view(),
        }
    }
}

/// What is shown for a name, a number text and a password. Every field is
/// judged by itself, so that all faults are found, not only the first. The
/// address depends on the number alone. The command is there if and only if
/// no field has a fault.
pub open spec fn evaluate_spec(
    name: Seq<char>,
    number_text: Seq<char>,
    password: Seq<char>,
    customizable: bool,
) -> EvaluationView {
    let number = robot_number_spec(number_text);
    let name_error = name_error_spec(name);
    let password_error = password_error_spec(password, customizable);
    EvaluationView {
        number,
        address: match number {
            Ok(n) => Some(ip_addr_text(n as int)),
            Err(_) => None,
        },
        name_error,
        password_error,
        command: match number {
            Ok(n) => if name_error is None && password_error is None {
                Some(command_text(name, n as int, effective_password(password, customizable)))
            } else {
                None
            },
            Err(_) => None,
        },
    }
}

/// The texts of the faults that an evaluation holds, in the order in which
/// they are shown: name, password, number.
pub open spec fn error_messages_spec(evaluation: EvaluationView) -> Seq<Seq<char>> {
    let of_name = match evaluation.name_error {
        Some(e) => seq![e.message_spec()],
        None => Seq::<Seq<char>>::empty(),
    };
    let of_password = match evaluation.password_error {
        Some(e) => seq![e.message_spec()],
        None => Seq::<Seq<char>>::empty(),
    };
    let of_number = match evaluation.number {
        Err(e) => seq![e.message_spec()],
        Ok(_) => Seq::<Seq<char>>::empty(),
    };
    of_name + of_password + of_number
}

/// Judges a name, a number text and a password, and derives the address and
/// the command from them. Where passwords cannot be customized, `password`
/// is not looked at and the fixed password stands in the command.
pub fn evaluate(name: &str, number_text: &str, password: &str, customizable: bool) -> (evaluation:
    Evaluation)
    ensures
        evaluation@ == evaluate_spec(name@, number_text@, password@, customizable),
        evaluation.command is Some <==> evaluation.number is Ok && evaluation.name_error is None
            && evaluation.password_error is None,
        evaluation.address is Some <==> evaluation.number is Ok,
        !customizable ==> evaluation.password_error is None,
{
    let number = parse_robot_number(number_text);
    let name_error = validate_name(name);
    let password_error = validate_password(password, customizable);
    let address = match number {
        Ok(n) => Some(format_ip_addr(n)),
        Err(_) => None,
    };
    let command = match number {
        Ok(n) => if name_error.is_none() && password_error.is_none() {
            Some(format_command(name, n, if customizable { password } else { FIXED_PASSWORD }))
        } else {
            None
        },
        Err(_) => None,
    };
    Evaluation { number, address, name_error, password_error, command }
}

impl Evaluation {
    /// The texts of the faults found, in the order in which they are shown:
    /// name, password, number.
    pub fn error_messages(&self) -> (messages: Vec<String>)
        ensures
            messages.deep_view() == error_messages_spec(self@),
    {
        let mut messages: Vec<String> = Vec::new();
        if let Some(e) = self.name_error {
            messages.push(String::from_str(e.message()));
        }
        if let Some(e) = self.password_error {
            messages.push(String::from_str(e.message()));
        }
        if let Err(e) = self.number {
            messages.push(e.message());
        }
        assert(messages.deep_view() =~= error_messages_spec(self@));
        messages
    }
}

/// The fields of the form, as plain values.
pub ghost struct FormView {
    /// The name typed in.
    pub name: Seq<char>,
    /// The text of the number field.
    pub number_string: Seq<char>,
    /// The password.
    pub password: Seq<char>,
}

/// The fields of the form.
#[derive(Debug, PartialEq, Eq)]
pub struct RobotRename {
    /// The name typed in.
    pub name: String,
    /// The text of the number field.
    pub number_string: String,
    /// The password.
    pub password: String,
}

impl View for RobotRename {
    type V = FormView;

    open spec fn view(&self) -> FormView {
        FormView {
            name: self.name@,
            number_string: self.number_string@,
            password: self.password@,
        }
    }
}

impl RobotRename {
    /// The form before anything is typed in: name and number are empty, and
    /// the password is empty where it can be customized and the fixed one
    /// where it cannot.
    pub fn new(customizable: bool) -> (form: Self)
        ensures
            form@.name == Seq::<char>::empty(),
            form@.number_string == Seq::<char>::empty(),
            form@.password == effective_password(Seq::<char>::empty(), customizable),
    {
        RobotRename {
            name: String::new(),
            number_string: String::new(),
            password: if customizable {
                String::new()
            } else {
                String::from_str(FIXED_PASSWORD)
            },
        }
    }

    /// Brings the form up to date after its fields were edited. Where
    /// passwords cannot be customized the password field is set to the fixed
    /// password, whatever it held. Then all fields are judged.
    pub fn update(&mut self, customizable: bool) -> (evaluation: Evaluation)
        ensures
            final(self)@.name == old(self)@.name,
            final(self)@.number_string == old(self)@.number_string,
            final(self)@.password == effective_password(old(self)@.password, customizable),
            !customizable ==> final(self)@.password == FIXED_PASSWORD@,
            !customizable ==> evaluation.password_error is None,
            evaluation@ == evaluate_spec(
                old(self)@.name,
                old(self)@.number_string,
                old(self)@.password,
                customizable,
            ),
    {
        if !customizable {
            self.password = String::from_str(FIXED_PASSWORD);
        }
        evaluate(
            self.name.as_str(),
            self.number_string.as_str(),
            self.password.as_str(),
            customizable,
        )
    }
}

} // verus!
