//! How the helper program is invoked.

use vstd::prelude::*;
use vstd::string::StringExecFns;

verus! {

/// The character that stands for the digit `d`.
pub open spec fn digit_char(d: nat) -> char {
    if d == 0 {
        '0'
    } else if d == 1 {
        '1'
    } else if d == 2 {
        '2'
    } else if d == 3 {
        '3'
    } else if d == 4 {
        '4'
    } else if d == 5 {
        '5'
    } else if d == 6 {
        '6'
    } else if d == 7 {
        '7'
    } else if d == 8 {
        '8'
    } else {
        '9'
    }
}

/// `n` written in decimal, without leading zeros.
pub open spec fn decimal(n: nat) -> Seq<char>
    decreases n,
{
    if n < 10 {
        seq![digit_char(n)]
    } else {
        decimal(n / 10).push(digit_char(n % 10))
    }
}

/// The address of the local service on `port`, which the tunnel leads to.
pub open spec fn target_text(port: u16) -> Seq<char> {
    "http://127.0.0.1:"@ + decimal(port as nat)
}

/// The arguments that make the helper program open a tunnel to the local
/// service on `port`.
pub open spec fn helper_arguments(port: u16) -> Seq<Seq<char>> {
    seq!["tunnel"@, "--url"@, target_text(port)]
}

/// A program and the arguments it is started with.
#[derive(Debug, PartialEq, Eq)]
pub struct HelperCommand {
    /// The name of the helper program.
    pub program: String,
    /// Its arguments, in order.
    pub args: Vec<String>,
}

impl HelperCommand {
    /// The arguments as sequences of characters.
    pub open spec fn arguments(&self) -> Seq<Seq<char>> {
        self.args@.map_values(|arg: String| arg@)
    }
}

fn digit_text(d: u16) -> (text: &'static str)
    requires
        d < 10,
    ensures
        text@ == seq![digit_char(d as nat)],
{
    proof {
        reveal_strlit("0");
        reveal_strlit("1");
        reveal_strlit("2");
        reveal_strlit("3");
        reveal_strlit("4");
        reveal_strlit("5");
        reveal_strlit("6");
        reveal_strlit("7");
        reveal_strlit("8");
        reveal_strlit("9");
    }
    let text = if d == 0 {
        "0"
    } else if d == 1 {
        "1"
    } else if d == 2 {
        "2"
    } else if d == 3 {
        "3"
    } else if d == 4 {
        "4"
    } else if d == 5 {
        "5"
    } else if d == 6 {
        "6"
    } else if d == 7 {
        "7"
    } else if d == 8 {
        "8"
    } else {
        "9"
    };
    assert(text@ =~= seq![digit_char(d as nat)]);
    text
}

fn append_decimal(text: &mut String, n: u16)
    ensures
        final(text)@ == old(text)@ + decimal(n as nat),
    decreases n,
{
    if n >= 10 {
        append_decimal(text, n / 10);
    }
    text.append(digit_text(n % 10));
    assert(final(text)@ =~= old(text)@ + decimal(n as nat));
}

/// The address of the local service on `port`.
pub fn target_url(port: u16) -> (url: String)
    ensures
        url@ == target_text(port),
{
    let mut url = "http://127.0.0.1:".to_owned();
    append_decimal(&mut url, port);
    url
}

/// The command that starts the helper program for a tunnel to the local
/// service on `port`.
pub fn helper_command(port: u16) -> (command: HelperCommand)
    ensures
        command.program@ == "cloudflared"@,
        command.arguments() == helper_arguments(port),
{
    let mut args: Vec<String> = Vec::new();
    args.push("tunnel".to_owned());
    args.push("--url".to_owned());
    args.push(target_url(port));
    let command = HelperCommand { program: "cloudflared".to_owned(), args };
    assert(command.arguments() =~= helper_arguments(port));
    command
}

} // verus!
