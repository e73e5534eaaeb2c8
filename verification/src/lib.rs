//! Validation and command synthesis for the robot rename form.
//!
//! The form has three fields: the name of a robot, its number and a password.
//! This library judges each field, derives the robot's address from its
//! number, and writes the command that renames the robot once no field has a
//! fault. It draws nothing and reads nothing: the program around it hands it
//! the texts of the fields and shows what comes back.

pub mod form;
pub mod format;
pub mod number;
pub mod text;
pub mod validate;

pub use form::{can_customize_password, evaluate, Evaluation, RobotRename, FIXED_PASSWORD};
pub use format::{format_command, format_four_digits, format_ip_addr, COMMAND_NAME};
pub use number::{parse_decimal, parse_robot_number, NumberError, ParseFailure, MAX_ROBOT_NUMBER};
pub use text::{char_is_whitespace, contains_whitespace, StringState};
pub use validate::{validate_name, validate_password, NameError, PasswordError};
