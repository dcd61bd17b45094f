//! The commands that the client's user interface invokes on the shared state.
use vstd::prelude::*;
use crate::state::{AppState, InputMode};

verus! {

/// The decimal digit `d` as a character.
pub open spec fn digit_char(d: int) -> char {
    if d == 0 {
        '0'
    } else if d == 1 {
        '1'
    } else if d == 2 {
        '2'
    } else if d == 3 {
        '3'
    } else if d == 4 {
        '4'
    } else if d == 5 {
        '5'
    } else if d == 6 {
        '6'
    } else if d == 7 {
        '7'
    } else if d == 8 {
        '8'
    } else {
        '9'
    }
}

/// `n` written in decimal, without leading zeros.
pub open spec fn decimal(n: nat) -> Seq<char>
    decreases n,
{
    if n < 10 {
        seq![digit_char(n as int)]
    } else {
        decimal(n / 10).push(digit_char((n % 10) as int))
    }
}

/// The number that a string of decimal digits stands for.
pub open spec fn digits_value(s: Seq<char>) -> int
    decreases s.len(),
{
    if s.len() == 0 {
        0
    } else {
        digits_value(s.drop_last()) * 10 + (s.last() as int - '0' as int)
    }
}

/// `decimal(n)` is a decimal numeral of `n`: it consists of digits '0' to '9',
/// reads back as `n`, and has no leading zero.
pub proof fn lemma_decimal_reads_back(n: nat)
    ensures
        decimal(n).len() > 0,
        forall|i: int| 0 <= i < decimal(n).len() ==> '0' <= #[trigger] decimal(n)[i] <= '9',
        digits_value(decimal(n)) == n,
        n > 0 ==> decimal(n)[0] != '0',
    decreases n,
{
    if n >= 10 {
        lemma_decimal_reads_back(n / 10);
        let d = decimal(n);
        assert(d.drop_last() =~= decimal(n / 10));
        let r = (n % 10) as int;
        assert(d.last() == digit_char(r));
        assert(digit_char(r) as int - '0' as int == r);
        let q = (n / 10) as int;
        assert(digits_value(d) == digits_value(decimal(n / 10)) * 10 + r);
        assert(digits_value(decimal(n / 10)) == q);
        assert(q * 10 + r == n as int) by (nonlinear_arith)
            requires
                q == (n as int) / 10,
                r == (n as int) % 10,
        ;
        assert forall|i: int| 0 <= i < d.len() implies '0' <= #[trigger] d[i] <= '9' by {
            if i < d.len() - 1 {
                assert(d[i] == decimal(n / 10)[i]);
            }
        }
        assert(d[0] == decimal(n / 10)[0]);
        assert(digits_value(d) == n);
    } else {
        let d = decimal(n);
        assert(d.drop_last() =~= Seq::<char>::empty());
        assert(digits_value(d.drop_last()) == 0);
        assert(digit_char(n as int) as int - '0' as int == n);
    }
}

/// The text `IP:PORT` of a server address.
pub open spec fn address_text(server_ip: Seq<char>, port: u16) -> Seq<char> {
    server_ip + seq![':'] + decimal(port as nat)
}

/// `String::push` of std: appends one character.
#[verifier::external_body]
fn push_char(s: &mut String, c: char)
    ensures
        final(s)@ == old(s)@.push(c),
{
    s.push(c);
}

fn digit(d: u16) -> (c: char)
    requires
        d < 10,
    ensures
        c == digit_char(d as int),
{
    if d == 0 {
        '0'
    } else if d == 1 {
        '1'
    } else if d == 2 {
        '2'
    } else if d == 3 {
        '3'
    } else if d == 4 {
        '4'
    } else if d == 5 {
        '5'
    } else if d == 6 {
        '6'
    } else if d == 7 {
        '7'
    } else if d == 8 {
        '8'
    } else {
        '9'
    }
}

/// Appends `n` in decimal to `s`.
fn push_decimal(s: &mut String, n: u16)
    ensures
        final(s)@ == old(s)@ + decimal(n as nat),
    decreases n,
{
    if n >= 10 {
        push_decimal(s, n / 10);
    }
    let ghost before = s@;
    push_char(s, digit(n % 10));
    if n >= 10 {
        assert(s@ =~= old(s)@ + decimal((n / 10) as nat).push(digit_char((n % 10) as int)));
    } else {
        assert(s@ =~= old(s)@ + decimal(n as nat));
    }
}

/// Record a new connection to the server at `server_ip:port`; returns the
/// confirmation shown to the user.
pub fn connect_to_server<C>(state: &mut AppState<C>, client: C, server_ip: &str, port: u16) -> (r:
    String)
    ensures
        final(state).network_client == Some(client),
        final(state).server_address matches Some(a) && a@ == address_text(server_ip@, port),
        r@ == "Connected to "@ + address_text(server_ip@, port),
        final(state).mode == old(state).mode,
        final(state).sequence == old(state).sequence,
{
    let mut address = String::from_str(server_ip);
    push_char(&mut address, ':');
    push_decimal(&mut address, port);
    assert(address@ =~= address_text(server_ip@, port));
    let mut message = String::from_str("Connected to ");
    message.append(address.as_str());
    state.network_client = Some(client);
    state.server_address = Some(address);
    message
}

/// Forget the connection to the server.
pub fn disconnect_from_server<C>(state: &mut AppState<C>)
    ensures
        final(state).network_client is None,
        final(state).server_address is None,
        final(state).mode == old(state).mode,
        final(state).sequence == old(state).sequence,
{
    state.network_client = None;
    state.server_address = None;
}

/// Toggle input mode (macOS and Windows); returns the new mode.
pub fn toggle_mode<C>(state: &mut AppState<C>) -> (m: InputMode)
    ensures
        m == old(state).mode.toggled(),
        final(state).mode == m,
        final(state).network_client == old(state).network_client,
        final(state).server_address == old(state).server_address,
        final(state).sequence == old(state).sequence,
{
    state.mode = state.mode.toggle();
    state.mode
}

} // verus!
