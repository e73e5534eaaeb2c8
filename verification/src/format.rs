//! The texts derived from a robot number: its four digits, the address and
//! the command.

use crate::number::{
    all_digits, decimal_value, is_digit, is_numeral, lemma_parse_decimal_of_numeral,
    numeral_value, robot_number_spec, unsigned_part, NumberError, MAX_ROBOT_NUMBER,
};
use vstd::prelude::*;
use vstd::string::StringExecFns;

verus! {

/// The name of the command that the form writes.
pub const COMMAND_NAME: &'static str = "setupWifiAP.sh";

/// The character of the digit `d`, for `d` from 0 to 9.
pub open spec fn digit_char(d: int) -> char {
    ('0' as int + d) as char
}

/// The decimal notation of `n` in exactly four digits, with zeros in front
/// where `n` has fewer. It is meant for `n` from 0 to 9999.
pub open spec fn four_digit_text(n: int) -> Seq<char> {
    seq![
        digit_char(n / 1000),
        digit_char(n / 100 % 10),
        digit_char(n / 10 % 10),
        digit_char(n % 10),
    ]
}

/// The address of robot `n`: `10.AA.BB.2`, where `AA` are the first two and
/// `BB` the last two of the four digits of `n`.
pub open spec fn ip_addr_text(n: int) -> Seq<char> {
    "10."@ + four_digit_text(n).subrange(0, 2) + "."@ + four_digit_text(n).subrange(2, 4) + ".2"@
}

/// The command that renames a robot: the command name, the robot's name, its
/// number in four digits and the password, with one space between them.
pub open spec fn command_text(name: Seq<char>, n: int, password: Seq<char>) -> Seq<char> {
    COMMAND_NAME@ + " "@ + name + " "@ + four_digit_text(n) + " "@ + password
}

/// The four-digit text of a number has four characters, all of them digits,
/// and denotes that number.
pub proof fn lemma_four_digit_text(n: int)
    requires
        0 <= n <= MAX_ROBOT_NUMBER,
    ensures
        four_digit_text(n).len() == 4,
        all_digits(four_digit_text(n)),
        decimal_value(four_digit_text(n)) == n,
{
    let t = four_digit_text(n);
    reveal_with_fuel(decimal_value, 5);
    assert(t.drop_last() =~= seq![t[0], t[1], t[2]]);
    assert(t.drop_last().drop_last() =~= seq![t[0], t[1]]);
    assert(t.drop_last().drop_last().drop_last() =~= seq![t[0]]);
    assert(t.drop_last().drop_last().drop_last().drop_last() =~= Seq::<char>::empty());
}

/// Reading the four-digit text of a robot number gives that number back.
pub proof fn lemma_four_digit_text_reads_back(n: int)
    requires
        0 <= n <= MAX_ROBOT_NUMBER,
    ensures
        is_numeral(four_digit_text(n)),
        numeral_value(four_digit_text(n)) == n,
        robot_number_spec(four_digit_text(n)) == Ok::<i128, NumberError>(n as i128),
{
    let t = four_digit_text(n);
    lemma_four_digit_text(n);
    assert(is_digit(t[0]));
    assert(unsigned_part(t) == t);
    lemma_parse_decimal_of_numeral(t);
}

/// The text of one decimal digit.
fn digit_str(d: i128) -> (text: &'static str)
    requires
        0 <= d <= 9,
    ensures
        text@ == seq![digit_char(d as int)],
{
    proof {
        reveal_strlit("0");
        reveal_strlit("1");
        reveal_strlit("2");
        reveal_strlit("3");
        reveal_strlit("4");
        reveal_strlit("5");
        reveal_strlit("6");
        reveal_strlit("7");
        reveal_strlit("8");
        reveal_strlit("9");
    }
    let text = match d {
        0 => "0",
        1 => "1",
        2 => "2",
        3 => "3",
        4 => "4",
        5 => "5",
        6 => "6",
        7 => "7",
        8 => "8",
        _ => "9",
    };
    assert(text@ =~= seq![digit_char(d as int)]);
    text
}

/// Writes `n` in exactly four decimal digits, with zeros in front where it
/// has fewer.
pub fn format_four_digits(n: i128) -> (text: String)
    requires
        0 <= n <= MAX_ROBOT_NUMBER,
    ensures
        text@ == four_digit_text(n as int),
        text@.len() == 4,
        all_digits(text@),
        decimal_value(text@) == n,
{
    let mut text = String::new();
    text.append(digit_str(n / 1000));
    text.append(digit_str(n / 100 % 10));
    text.append(digit_str(n / 10 % 10));
    text.append(digit_str(n % 10));
    proof {
        assert(text@ =~= four_digit_text(n as int));
        lemma_four_digit_text(n as int);
    }
    text
}

/// Writes the address of the robot with the number `robot_number`.
pub fn format_ip_addr(robot_number: i128) -> (address: String)
    requires
        0 <= robot_number <= MAX_ROBOT_NUMBER,
    ensures
        address@ == ip_addr_text(robot_number as int),
{
    let digits = format_four_digits(robot_number);
    let mut address = String::from_str("10.");
    address.append(digits.as_str().substring_char(0, 2));
    address.append(".");
    address.append(digits.as_str().substring_char(2, 4));
    address.append(".2");
    address
}

/// Writes the command that gives a robot the name `name`, the number `number`
/// and the password `password`.
pub fn format_command(name: &str, number: i128, password: &str) -> (command: String)
    requires
        0 <= number <= MAX_ROBOT_NUMBER,
    ensures
        command@ == command_text(name@, number as int, password@),
{
    let digits = format_four_digits(number);
    let mut command = String::from_str(COMMAND_NAME);
    command.append(" ");
    command.append(name);
    command.append(" ");
    command.append(digits.as_str());
    command.append(" ");
    command.append(password);
    command
}

} // verus!
