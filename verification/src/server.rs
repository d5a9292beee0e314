//! What the server decides when it starts.
use vstd::prelude::*;
use vstd::string::StringExecFns;

verus! {

/// The decimal digits of a number, without leading zeros.
pub open spec fn decimal(n: nat) -> Seq<char>
    decreases n,
{
    if n < 10 {
        seq![digit(n)]
    } else {
        decimal(n / 10).push(digit(n % 10))
    }
}

/// The character of a digit.
pub open spec fn digit(n: nat) -> char {
    (48 + n) as char
}

fn digit_str(n: u16) -> (text: &'static str)
    requires
        n < 10,
    ensures
        text@ == seq![digit(n as nat)],
        text@ == seq![(48 + n) as char],
{
    proof {
        reveal_strlit("0");
        reveal_strlit("1");
        reveal_strlit("2");
        reveal_strlit("3");
        reveal_strlit("4");
        reveal_strlit("5");
        reveal_strlit("6");
        reveal_strlit("7");
        reveal_strlit("8");
        reveal_strlit("9");
    }
    match n {
        0 => "0",
        1 => "1",
        2 => "2",
        3 => "3",
        4 => "4",
        5 => "5",
        6 => "6",
        7 => "7",
        8 => "8",
        _ => "9",
    }
}

/// Writes a port number behind `text`.
fn append_decimal(text: &mut String, n: u16)
    ensures
        final(text)@ == old(text)@ + decimal(n as nat),
    decreases n,
{
    if n >= 10 {
        append_decimal(text, n / 10);
    }
    text.append(digit_str(n % 10));
}

/// The address to listen on: all interfaces where none is configured.
pub open spec fn address_or_any(configured: Seq<char>) -> Seq<char> {
    if configured.len() == 0 {
        "0.0.0.0"@
    } else {
        configured
    }
}

/// The address to listen on: `0.0.0.0` where none is configured.
pub fn bind_address(configured: &str) -> (address: String)
    ensures
        address@ == address_or_any(configured@),
        configured@.len() == 0 ==> address@ == "0.0.0.0"@,
        configured@.len() > 0 ==> address@ == configured@,
{
    if configured.is_empty() {
        "0.0.0.0".to_owned()
    } else {
        configured.to_owned()
    }
}

/// The address and port to listen on, as `address:port`.
pub fn listen_addr(configured: &str, port: u16) -> (addr: String)
    ensures
        addr@ == address_or_any(configured@) + seq![':'] + decimal(port as nat),
{
    proof {
        reveal_strlit(":");
    }
    let mut addr = bind_address(configured);
    addr.append(":");
    append_decimal(&mut addr, port);
    addr
}

/// Digits are the ten characters from `0` to `9`.
pub proof fn digits_are_as_usual(n: nat)
    requires
        n < 10,
    ensures
        digit(n) == "0123456789"@[n as int],
{
    reveal_strlit("0123456789");
}

/// A number's last digit stands behind the digits of the rest, and a number below
/// ten is its digit.
pub proof fn decimals_grow_by_their_last_digit(n: nat, last: nat)
    requires
        last < 10,
    ensures
        decimal(last) == seq!["0123456789"@[last as int]],
        n > 0 ==> decimal(n * 10 + last) == decimal(n).push("0123456789"@[last as int]),
{
    digits_are_as_usual(last);
    assert((n * 10 + last) / 10 == n && (n * 10 + last) % 10 == last);
}

/// No number has a leading zero but zero itself.
pub proof fn decimals_have_no_leading_zero(n: nat)
    ensures
        decimal(n).len() > 0,
        decimal(n)[0] == '0' <==> n == 0,
    decreases n,
{
    if n >= 10 {
        decimals_have_no_leading_zero(n / 10);
    }
}

/// Different numbers have different digits.
pub proof fn decimals_tell_numbers_apart(a: nat, b: nat)
    requires
        a != b,
    ensures
        decimal(a) != decimal(b),
    decreases a,
{
    if decimal(a) == decimal(b) {
        decimals_have_no_leading_zero(a / 10);
        decimals_have_no_leading_zero(b / 10);
        assert(decimal(a).last() == decimal(b).last());
        assert(decimal(a).last() == digit(a % 10) && decimal(b).last() == digit(b % 10));
        if a >= 10 && b >= 10 {
            decimals_tell_numbers_apart(a / 10, b / 10);
            assert(decimal(a).drop_last() == decimal(a / 10));
            assert(decimal(b).drop_last() == decimal(b / 10));
        }
    }
}

/// A configured address is taken as it is, and all interfaces where none is
/// configured.
pub proof fn configured_address_is_taken(configured: &str, address: String)
    requires
        call_ensures(bind_address, (configured,), address),
    ensures
        configured@.len() == 0 ==> address@ == "0.0.0.0"@,
        configured@.len() > 0 ==> address@ == configured@,
        configured@.len() > 0 ==> address_or_any(configured@) == configured@,
        address_or_any(Seq::empty()) == "0.0.0.0"@,
{
}

/// The server listens on the address of `bind_address`, then a colon, then the
/// port in decimal: on another port it is another text.
pub proof fn listening_adds_the_port(
    configured: &str,
    port: u16,
    address: String,
    addr: String,
    other_port: u16,
    other_addr: String,
)
    requires
        call_ensures(bind_address, (configured,), address),
        call_ensures(listen_addr, (configured, port), addr),
        call_ensures(listen_addr, (configured, other_port), other_addr),
    ensures
        addr@ == address@ + ":"@ + decimal(port as nat),
        addr@ == other_addr@ <==> port == other_port,
{
    reveal_strlit(":");
    assert(seq![':'] =~= ":"@);
    if port != other_port {
        decimals_tell_numbers_apart(port as nat, other_port as nat);
        let start = (address@ + ":"@).len() as int;
        if addr@ == other_addr@ {
            assert(addr@.skip(start) == decimal(port as nat));
            assert(other_addr@.skip(start) == decimal(other_port as nat));
        }
    }
}

/// The server's files lie in `webserver`.
pub proof fn server_dir_has_its_name()
    ensures
        SERVER_DIR@ == "webserver"@,
{
}

/// The base is one of the program's path and its parents: the fourth parent where
/// there are as many, and else the topmost. Without a path there is no base.
pub proof fn base_lies_above_the_program<P>(ancestors: Vec<P>, base: Option<P>, unknown: Option<P>)
    requires
        call_ensures(default_base::<P>, (Some(ancestors),), base),
        call_ensures(default_base::<P>, (None,), unknown),
    ensures
        unknown is None,
        base is Some <==> ancestors@.len() > 0,
        base is Some ==> {
            let parents = ancestors@.len() - 1;
            base->0 == ancestors@[if parents < 4 {
                parents
            } else {
                4
            }]
        },
{
}

/// The directory of the server's files, below the base that [`default_base`]
/// gives.
pub const SERVER_DIR: &'static str = "webserver";

/// The directory below which the server's files lie by default, given the
/// program's path followed by its parent, that one's parent, and so on up to
/// the topmost: three levels above the directory of the program, which lies in
/// `target/{debug,release}/` of a checkout. There is nothing above the topmost
/// directory, so a path with fewer levels ends there. `None` if the program's
/// path is not known; the current directory is used then.
pub fn default_base<P>(exe: Option<Vec<P>>) -> (base: Option<P>)
    ensures
        base == (match exe {
            None => None,
            Some(ancestors) => if ancestors@.len() > 4 {
                Some(ancestors@[4])
            } else if ancestors@.len() > 0 {
                Some(ancestors@.last())
            } else {
                None
            },
        }),
{
    match exe {
        None => None,
        Some(ancestors) => {
            let mut ancestors = ancestors;
            if ancestors.len() > 4 {
                Some(ancestors.swap_remove(4))
            } else {
                ancestors.pop()
            }
        },
    }
}

} // verus!
