//! The text of an endpoint.

use vstd::prelude::*;

verus! {

/// The digit `d` as a character.
pub open spec fn digit(d: nat) -> char
    recommends
        d < 10,
{
    ('0' as nat + d) as char
}

/// `n` in decimal notation, without leading zeros.
pub open spec fn decimal(n: nat) -> Seq<char>
    decreases n,
{
    if n < 10 {
        seq![digit(n)]
    } else {
        decimal(n / 10).push(digit(n % 10))
    }
}

/// `addr:port`
pub open spec fn endpoint_text(addr: Seq<char>, port: u16) -> Seq<char> {
    addr + seq![':'] + decimal(port as nat)
}

/// The digit `d` as text.
fn digit_text(d: u16) -> (text: &'static str)
    requires
        d < 10,
    ensures
        text@ == seq![digit(d as nat)],
{
    proof {
        reveal_strlit("0");
        reveal_strlit("1");
        reveal_strlit("2");
        reveal_strlit("3");
        reveal_strlit("4");
        reveal_strlit("5");
        reveal_strlit("6");
        reveal_strlit("7");
        reveal_strlit("8");
        reveal_strlit("9");
    }
    let text = match d {
        0 => "0",
        1 => "1",
        2 => "2",
        3 => "3",
        4 => "4",
        5 => "5",
        6 => "6",
        7 => "7",
        8 => "8",
        _ => "9",
    };
    assert(text@ =~= seq![digit(d as nat)]);
    text
}

/// Appends `n` in decimal notation to `text`.
fn append_decimal(text: &mut String, n: u16)
    ensures
        final(text)@ == old(text)@ + decimal(n as nat),
    decreases n,
{
    if n >= 10 {
        append_decimal(text, n / 10);
    }
    text.append(digit_text(n % 10));
    assert(text@ =~= old(text)@ + decimal(n as nat));
}

/// The text of the endpoint at `addr` and `port`.
pub(crate) fn format_endpoint(addr: &String, port: u16) -> (text: String)
    ensures
        text@ == endpoint_text(addr@, port),
{
    let mut text = addr.clone();
    proof {
        reveal_strlit(":");
    }
    text.append(":");
    assert(text@ =~= addr@ + seq![':']);
    append_decimal(&mut text, port);
    text
}

/// Decimal notation has no colon in it.
proof fn lemma_decimal_has_no_colon(n: nat, i: int)
    requires
        0 <= i < decimal(n).len(),
    ensures
        decimal(n)[i] != ':',
    decreases n,
{
    if n >= 10 && i < decimal(n / 10).len() {
        lemma_decimal_has_no_colon(n / 10, i);
    }
}

/// Decimal notation determines the number.
proof fn lemma_decimal_determines_number(m: nat, n: nat)
    requires
        decimal(m) == decimal(n),
    ensures
        m == n,
    decreases m,
{
    assert(decimal(m).last() == digit(m % 10));
    assert(decimal(n).last() == digit(n % 10));
    if m >= 10 && n >= 10 {
        assert(decimal(m).drop_last() =~= decimal(m / 10));
        assert(decimal(n).drop_last() =~= decimal(n / 10));
        lemma_decimal_determines_number(m / 10, n / 10);
    } else if m >= 10 {
        lemma_decimal_is_not_empty(m / 10);
    } else if n >= 10 {
        lemma_decimal_is_not_empty(n / 10);
    }
}

/// Decimal notation has at least one digit.
proof fn lemma_decimal_is_not_empty(n: nat)
    ensures
        decimal(n).len() > 0,
    decreases n,
{
}

/// The number that `text` stands for when its characters are taken for decimal digits.
pub open spec fn place_value(text: Seq<char>) -> int
    decreases text.len(),
{
    if text.len() == 0 {
        0
    } else {
        place_value(text.drop_last()) * 10 + (text.last() as int - '0' as int)
    }
}

/// The decimal notation of a number is made of digits, has no leading zero unless it is the
/// only digit, and its value is the number.
pub proof fn law_decimal_has_its_value(n: nat)
    ensures
        decimal(n).len() > 0,
        forall|i: int|
            0 <= i < decimal(n).len() ==> '0' <= #[trigger] decimal(n)[i] && decimal(n)[i] <= '9',
        decimal(n).len() > 1 ==> decimal(n)[0] != '0',
        n > 0 ==> decimal(n)[0] != '0',
        place_value(decimal(n)) == n,
    decreases n,
{
    reveal_with_fuel(place_value, 2);
    if n >= 10 {
        law_decimal_has_its_value(n / 10);
        assert(decimal(n).drop_last() =~= decimal(n / 10));
        assert(decimal(n)[0] == decimal(n / 10)[0]);
        assert forall|i: int| 0 <= i < decimal(n).len() implies '0' <= #[trigger] decimal(n)[i]
            && decimal(n)[i] <= '9' by {
            if i < decimal(n / 10).len() {
                assert(decimal(n)[i] == decimal(n / 10)[i]);
            }
        }
    } else {
        assert(decimal(n).drop_last() =~= Seq::empty());
    }
}

/// An endpoint determines the address and the port that it was made from: no two nodes
/// that differ in either share one.
pub proof fn law_endpoint_determines_addr_and_port(
    addr1: Seq<char>,
    port1: u16,
    addr2: Seq<char>,
    port2: u16,
)
    requires
        endpoint_text(addr1, port1) == endpoint_text(addr2, port2),
    ensures
        addr1 == addr2,
        port1 == port2,
{
    let text = endpoint_text(addr1, port1);
    let text2 = endpoint_text(addr2, port2);
    let port1_text = decimal(port1 as nat);
    let port2_text = decimal(port2 as nat);
    assert(text.len() == addr1.len() + 1 + port1_text.len());
    assert(text2.len() == addr2.len() + 1 + port2_text.len());
    if addr1.len() < addr2.len() {
        let i = addr2.len() - addr1.len() - 1;
        assert(text[addr2.len() as int] == port1_text[i]);
        assert(text2[addr2.len() as int] == ':');
        lemma_decimal_has_no_colon(port1 as nat, i);
    }
    if addr2.len() < addr1.len() {
        let i = addr1.len() - addr2.len() - 1;
        assert(text2[addr1.len() as int] == port2_text[i]);
        assert(text[addr1.len() as int] == ':');
        lemma_decimal_has_no_colon(port2 as nat, i);
    }
    assert(addr1 =~= text.take(addr1.len() as int));
    assert(addr2 =~= text2.take(addr2.len() as int));
    assert(port1_text =~= text.skip(addr1.len() as int + 1));
    assert(port2_text =~= text2.skip(addr2.len() as int + 1));
    lemma_decimal_determines_number(port1 as nat, port2 as nat);
}

} // verus!
