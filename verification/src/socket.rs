//! Where the control socket lives.

use vstd::prelude::*;
use vstd::string::*;

verus! {

/// The character of the decimal digit `digit`.
pub open spec fn digit_char(digit: nat) -> char {
    if digit == 0 {
        '0'
    } else if digit == 1 {
        '1'
    } else if digit == 2 {
        '2'
    } else if digit == 3 {
        '3'
    } else if digit == 4 {
        '4'
    } else if digit == 5 {
        '5'
    } else if digit == 6 {
        '6'
    } else if digit == 7 {
        '7'
    } else if digit == 8 {
        '8'
    } else {
        '9'
    }
}

/// The decimal notation of `n`, without leading zeros.
pub open spec fn decimal(n: nat) -> Seq<char>
    decreases n,
{
    if n < 10 {
        seq![digit_char(n)]
    } else {
        decimal(n / 10).push(digit_char(n % 10))
    }
}

/// The directory for the run-time files of the user `uid`, where the
/// environment names none.
pub open spec fn default_runtime_dir(uid: u32) -> Seq<char> {
    "/run/user/"@ + decimal(uid as nat)
}

/// The path of the control socket: the file `homeslashmusic.sock` in
/// `runtime_dir`, or in the default directory of the user `uid` where
/// there is no `runtime_dir`.
pub open spec fn spec_socket_path(runtime_dir: Option<Seq<char>>, uid: u32) -> Seq<char> {
    (match runtime_dir {
        Some(dir) => dir,
        None => default_runtime_dir(uid),
    }) + "/homeslashmusic.sock"@
}

fn digit_text(digit: u32) -> (text: &'static str)
    requires
        digit < 10,
    ensures
        text@ == seq![digit_char(digit as nat)],
{
    proof {
        reveal_strlit("0");
        reveal_strlit("1");
        reveal_strlit("2");
        reveal_strlit("3");
        reveal_strlit("4");
        reveal_strlit("5");
        reveal_strlit("6");
        reveal_strlit("7");
        reveal_strlit("8");
        reveal_strlit("9");
    }
    let text = if digit == 0 {
        "0"
    } else if digit == 1 {
        "1"
    } else if digit == 2 {
        "2"
    } else if digit == 3 {
        "3"
    } else if digit == 4 {
        "4"
    } else if digit == 5 {
        "5"
    } else if digit == 6 {
        "6"
    } else if digit == 7 {
        "7"
    } else if digit == 8 {
        "8"
    } else {
        "9"
    };
    assert(text@ =~= seq![digit_char(digit as nat)]);
    text
}

fn append_decimal(text: &mut String, n: u32)
    ensures
        final(text)@ == old(text)@ + decimal(n as nat),
    decreases n,
{
    if n >= 10 {
        append_decimal(text, n / 10);
    }
    text.append(digit_text(n % 10));
    proof {
        if n >= 10 {
            assert(text@ =~= old(text)@ + decimal((n / 10) as nat).push(
                digit_char((n % 10) as nat),
            ));
        }
    }
}

/// The path of the control socket, for the run-time directory that the
/// environment names, if it names one, and the id of the user.
pub fn socket_path(runtime_dir: Option<&str>, uid: u32) -> (path: String)
    ensures
        path@ == spec_socket_path(
            match runtime_dir {
                Some(dir) => Some(dir@),
                None => None,
            },
            uid,
        ),
{
    let mut path = String::new();
    match runtime_dir {
        Some(dir) => {
            path.append(dir);
            assert(path@ =~= dir@);
        },
        None => {
            path.append("/run/user/");
            append_decimal(&mut path, uid);
            assert(path@ =~= default_runtime_dir(uid));
        },
    }
    path.append("/homeslashmusic.sock");
    path
}

} // verus!
