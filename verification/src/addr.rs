//! Host addresses, addresses with a prefix length, and their text form.

use vstd::prelude::*;

verus! {

/// An IP address, held as the number that its bytes spell in network order.
#[derive(Clone, Copy, Debug, PartialEq, Eq, Structural)]
pub enum IpAddr {
    V4(u32),
    V6(u128),
}

/// The character that stands for one decimal digit.
pub open spec fn digit_char(d: nat) -> char
    recommends
        d < 10,
{
    if d == 0 {
        '0'
    } else if d == 1 {
        '1'
    } else if d == 2 {
        '2'
    } else if d == 3 {
        '3'
    } else if d == 4 {
        '4'
    } else if d == 5 {
        '5'
    } else if d == 6 {
        '6'
    } else if d == 7 {
        '7'
    } else if d == 8 {
        '8'
    } else {
        '9'
    }
}

/// A number in decimal, without leading zeros.
pub open spec fn decimal_text(n: nat) -> Seq<char>
    decreases n,
{
    if n < 10 {
        seq![digit_char(n)]
    } else {
        decimal_text(n / 10).push(digit_char(n % 10))
    }
}

/// One of the four bytes of an IPv4 address, counted from the left.
pub open spec fn ipv4_octet(bits: u32, i: nat) -> nat
    recommends
        i < 4,
{
    if i == 0 {
        bits as nat / 0x100_0000
    } else if i == 1 {
        (bits as nat / 0x1_0000) % 0x100
    } else if i == 2 {
        (bits as nat / 0x100) % 0x100
    } else {
        bits as nat % 0x100
    }
}

/// An IPv4 address in dotted decimal: its four bytes in decimal, a dot between them.
pub open spec fn ipv4_text(bits: u32) -> Seq<char> {
    decimal_text(ipv4_octet(bits, 0)) + seq!['.'] + decimal_text(ipv4_octet(bits, 1)) + seq!['.']
        + decimal_text(ipv4_octet(bits, 2)) + seq!['.'] + decimal_text(ipv4_octet(bits, 3))
}

/// The text of an IPv6 address, as `cidr` prints the host that holds nothing but that address.
pub uninterp spec fn ipv6_text(bits: u128) -> Seq<char>;

/// The text that stands for an address in a rule.
pub open spec fn ip_text(addr: IpAddr) -> Seq<char> {
    match addr {
        IpAddr::V4(bits) => ipv4_text(bits),
        IpAddr::V6(bits) => ipv6_text(bits),
    }
}

/// A digit is no dot, and two digits that are written alike are the same digit.
pub proof fn lemma_digit_chars(a: nat, b: nat)
    ensures
        digit_char(a) != '.',
        a < 10 && b < 10 && digit_char(a) == digit_char(b) ==> a == b,
{
}

/// The decimal text of a byte has one to three characters, none of them a dot.
pub proof fn lemma_decimal_text_of_byte(n: nat)
    requires
        n < 256,
    ensures
        1 <= decimal_text(n).len() <= 3,
        forall|i: int| 0 <= i < decimal_text(n).len() ==> decimal_text(n)[i] != '.',
        n < 10 ==> decimal_text(n) == seq![digit_char(n)],
        10 <= n < 100 ==> decimal_text(n) == seq![digit_char(n / 10), digit_char(n % 10)],
        100 <= n ==> decimal_text(n) == seq![
            digit_char(n / 100),
            digit_char((n / 10) % 10),
            digit_char(n % 10),
        ],
{
    reveal_with_fuel(decimal_text, 3);
    if n < 10 {
    } else if n < 100 {
        assert(decimal_text(n) =~= seq![digit_char(n / 10), digit_char(n % 10)]);
    } else {
        assert(decimal_text(n) =~= seq![
            digit_char(n / 100),
            digit_char((n / 10) % 10),
            digit_char(n % 10),
        ]);
    }
    assert forall|i: int| 0 <= i < decimal_text(n).len() implies decimal_text(n)[i] != '.' by {
        lemma_digit_chars(n, 0);
        lemma_digit_chars(n / 10, 0);
        lemma_digit_chars(n % 10, 0);
        lemma_digit_chars(n / 100, 0);
        lemma_digit_chars((n / 10) % 10, 0);
    }
}

/// Two bytes that are written alike in decimal are the same byte.
pub proof fn lemma_decimal_text_injective(n: nat, m: nat)
    requires
        n < 256,
        m < 256,
        decimal_text(n) == decimal_text(m),
    ensures
        n == m,
{
    lemma_decimal_text_of_byte(n);
    lemma_decimal_text_of_byte(m);
    let text = decimal_text(n);
    if n < 10 {
        assert(text.len() == 1);
        assert(text[0] == digit_char(n) && text[0] == digit_char(m));
        lemma_digit_chars(n, m);
    } else if n < 100 {
        assert(text.len() == 2);
        assert(text[0] == digit_char(n / 10) && text[0] == digit_char(m / 10));
        assert(text[1] == digit_char(n % 10) && text[1] == digit_char(m % 10));
        lemma_digit_chars(n / 10, m / 10);
        lemma_digit_chars(n % 10, m % 10);
    } else {
        assert(text.len() == 3);
        assert(text[0] == digit_char(n / 100) && text[0] == digit_char(m / 100));
        assert(text[1] == digit_char((n / 10) % 10) && text[1] == digit_char((m / 10) % 10));
        assert(text[2] == digit_char(n % 10) && text[2] == digit_char(m % 10));
        lemma_digit_chars(n / 100, m / 100);
        lemma_digit_chars((n / 10) % 10, (m / 10) % 10);
        lemma_digit_chars(n % 10, m % 10);
    }
}

/// A text is read up to its first dot in one way only: where two texts without a dot, each
/// followed by a dot and a rest, make the same text, the two are the same, and so are the
/// rests.
pub proof fn lemma_first_dot_splits(x: Seq<char>, r: Seq<char>, y: Seq<char>, s: Seq<char>)
    requires
        x + seq!['.'] + r == y + seq!['.'] + s,
        forall|i: int| 0 <= i < x.len() ==> x[i] != '.',
        forall|i: int| 0 <= i < y.len() ==> y[i] != '.',
    ensures
        x == y,
        r == s,
{
    let left = x + seq!['.'] + r;
    let right = y + seq!['.'] + s;
    assert(left[x.len() as int] == '.');
    assert(right[y.len() as int] == '.');
    if x.len() < y.len() {
        assert(right[x.len() as int] == y[x.len() as int]);
        assert(false);
    }
    if y.len() < x.len() {
        assert(left[y.len() as int] == x[y.len() as int]);
        assert(false);
    }
    assert(left.len() == x.len() + 1 + r.len());
    assert(right.len() == y.len() + 1 + s.len());
    assert forall|i: int| 0 <= i < x.len() implies x[i] == y[i] by {
        assert(left[i] == x[i]);
        assert(right[i] == y[i]);
    }
    assert(x =~= y);
    assert forall|i: int| 0 <= i < r.len() implies r[i] == s[i] by {
        assert(left[x.len() + 1 + i] == r[i]);
        assert(right[y.len() + 1 + i] == s[i]);
    }
    assert(r =~= s);
}

/// The text of an IPv4 address, read from the left: a byte, a dot, and the rest.
proof fn lemma_ipv4_text_from_the_left(bits: u32)
    ensures
        ipv4_text(bits) == decimal_text(ipv4_octet(bits, 0)) + seq!['.'] + (decimal_text(
            ipv4_octet(bits, 1),
        ) + seq!['.'] + (decimal_text(ipv4_octet(bits, 2)) + seq!['.'] + decimal_text(
            ipv4_octet(bits, 3),
        ))),
{
    let dot = seq!['.'];
    let d0 = decimal_text(ipv4_octet(bits, 0));
    let d1 = decimal_text(ipv4_octet(bits, 1));
    let d2 = decimal_text(ipv4_octet(bits, 2));
    let d3 = decimal_text(ipv4_octet(bits, 3));
    assert(ipv4_text(bits) =~= d0 + dot + (d1 + dot + (d2 + dot + d3)));
}

/// An IPv4 address is made of its four bytes.
proof fn lemma_ipv4_address_of_octets(bits: u32)
    ensures
        bits == ipv4_octet(bits, 0) * 0x100_0000 + ipv4_octet(bits, 1) * 0x1_0000 + ipv4_octet(
            bits,
            2,
        ) * 0x100 + ipv4_octet(bits, 3),
        ipv4_octet(bits, 0) < 256,
        ipv4_octet(bits, 1) < 256,
        ipv4_octet(bits, 2) < 256,
        ipv4_octet(bits, 3) < 256,
{
}

/// Two IPv4 addresses that are written alike have the same four bytes.
proof fn lemma_ipv4_text_gives_octets(a: u32, b: u32)
    requires
        ipv4_text(a) == ipv4_text(b),
    ensures
        ipv4_octet(a, 0) == ipv4_octet(b, 0),
        ipv4_octet(a, 1) == ipv4_octet(b, 1),
        ipv4_octet(a, 2) == ipv4_octet(b, 2),
        ipv4_octet(a, 3) == ipv4_octet(b, 3),
{
    let dot = seq!['.'];
    let a0 = decimal_text(ipv4_octet(a, 0));
    let a1 = decimal_text(ipv4_octet(a, 1));
    let a2 = decimal_text(ipv4_octet(a, 2));
    let a3 = decimal_text(ipv4_octet(a, 3));
    let b0 = decimal_text(ipv4_octet(b, 0));
    let b1 = decimal_text(ipv4_octet(b, 1));
    let b2 = decimal_text(ipv4_octet(b, 2));
    let b3 = decimal_text(ipv4_octet(b, 3));
    lemma_ipv4_address_of_octets(a);
    lemma_ipv4_address_of_octets(b);
    lemma_decimal_text_of_byte(ipv4_octet(a, 0));
    lemma_decimal_text_of_byte(ipv4_octet(a, 1));
    lemma_decimal_text_of_byte(ipv4_octet(a, 2));
    lemma_decimal_text_of_byte(ipv4_octet(b, 0));
    lemma_decimal_text_of_byte(ipv4_octet(b, 1));
    lemma_decimal_text_of_byte(ipv4_octet(b, 2));
    lemma_ipv4_text_from_the_left(a);
    lemma_ipv4_text_from_the_left(b);
    lemma_first_dot_splits(a0, a1 + dot + (a2 + dot + a3), b0, b1 + dot + (b2 + dot + b3));
    lemma_first_dot_splits(a1, a2 + dot + a3, b1, b2 + dot + b3);
    lemma_first_dot_splits(a2, a3, b2, b3);
    lemma_decimal_text_injective(ipv4_octet(a, 0), ipv4_octet(b, 0));
    lemma_decimal_text_injective(ipv4_octet(a, 1), ipv4_octet(b, 1));
    lemma_decimal_text_injective(ipv4_octet(a, 2), ipv4_octet(b, 2));
    lemma_decimal_text_injective(ipv4_octet(a, 3), ipv4_octet(b, 3));
}

/// Two IPv4 addresses that are written alike are the same address.
pub proof fn lemma_ipv4_text_injective(a: u32, b: u32)
    requires
        ipv4_text(a) == ipv4_text(b),
    ensures
        a == b,
{
    lemma_ipv4_text_gives_octets(a, b);
    lemma_ipv4_address_of_octets(a);
    lemma_ipv4_address_of_octets(b);
}

fn digit_str(d: u8) -> (s: &'static str)
    requires
        d < 10,
    ensures
        s@ == seq![digit_char(d as nat)],
{
    proof {
        reveal_strlit("0");
        reveal_strlit("1");
        reveal_strlit("2");
        reveal_strlit("3");
        reveal_strlit("4");
        reveal_strlit("5");
        reveal_strlit("6");
        reveal_strlit("7");
        reveal_strlit("8");
        reveal_strlit("9");
    }
    let s = if d == 0 {
        "0"
    } else if d == 1 {
        "1"
    } else if d == 2 {
        "2"
    } else if d == 3 {
        "3"
    } else if d == 4 {
        "4"
    } else if d == 5 {
        "5"
    } else if d == 6 {
        "6"
    } else if d == 7 {
        "7"
    } else if d == 8 {
        "8"
    } else {
        "9"
    };
    assert(s@ =~= seq![digit_char(d as nat)]);
    s
}

fn push_decimal(text: &mut String, n: u8)
    ensures
        final(text)@ == old(text)@ + decimal_text(n as nat),
{
    let ghost before = text@;
    if n >= 100 {
        text.append(digit_str(n / 100));
        text.append(digit_str((n / 10) % 10));
        text.append(digit_str(n % 10));
        assert(decimal_text(n as nat) =~= seq![
            digit_char(n as nat / 100),
            digit_char((n as nat / 10) % 10),
            digit_char(n as nat % 10),
        ]) by {
            reveal_with_fuel(decimal_text, 3);
        }
        assert(text@ =~= before + decimal_text(n as nat));
    } else if n >= 10 {
        text.append(digit_str(n / 10));
        text.append(digit_str(n % 10));
        assert(decimal_text(n as nat) =~= seq![
            digit_char(n as nat / 10),
            digit_char(n as nat % 10),
        ]) by {
            reveal_with_fuel(decimal_text, 2);
        }
        assert(text@ =~= before + decimal_text(n as nat));
    } else {
        text.append(digit_str(n));
        assert(text@ =~= before + decimal_text(n as nat));
    }
}

fn ipv4_to_string(bits: u32) -> (text: String)
    ensures
        text@ == ipv4_text(bits),
{
    let a: u8 = (bits / 0x100_0000) as u8;
    let b: u8 = ((bits / 0x1_0000) % 0x100) as u8;
    let c: u8 = ((bits / 0x100) % 0x100) as u8;
    let d: u8 = (bits % 0x100) as u8;
    proof {
        reveal_strlit(".");
        assert("."@ =~= seq!['.']);
    }
    let mut text = String::new();
    push_decimal(&mut text, a);
    text.append(".");
    push_decimal(&mut text, b);
    text.append(".");
    push_decimal(&mut text, c);
    text.append(".");
    push_decimal(&mut text, d);
    assert(text@ =~= ipv4_text(bits));
    text
}

/// Calls `cidr::Ipv6Inet::new_host` on the address and prints the host it returns. `cidr`
/// prints such a host as the bare address, so the text depends on the 128 bits alone; the
/// contract names it and claims nothing of its characters.
#[verifier::external_body]
fn ipv6_to_string(bits: u128) -> (text: String)
    ensures
        text@ == ipv6_text(bits),
{
    cidr::Ipv6Inet::new_host(bits.into()).to_string()
}

impl IpAddr {
    /// The address as text, in the form that goes into a rule.
    pub fn to_string(&self) -> (text: String)
        ensures
            text@ == ip_text(*self),
    {
        match self {
            IpAddr::V4(bits) => ipv4_to_string(*bits),
            IpAddr::V6(bits) => ipv6_to_string(*bits),
        }
    }
}

/// The number of bits of an address of this kind.
pub open spec fn address_bits(addr: IpAddr) -> nat {
    match addr {
        IpAddr::V4(_) => 32,
        IpAddr::V6(_) => 128,
    }
}

/// An address together with the length of its network prefix, which is never longer than
/// the address.
#[derive(Clone, Copy, Debug, PartialEq, Eq, Structural)]
pub struct IpInet {
    address: IpAddr,
    network_length: u8,
}

impl IpInet {
    #[verifier::type_invariant]
    spec fn prefix_fits(self) -> bool {
        self.network_length <= address_bits(self.address)
    }

    /// The address.
    pub closed spec fn addr(self) -> IpAddr {
        self.address
    }

    /// The prefix length.
    pub closed spec fn len(self) -> u8 {
        self.network_length
    }

    /// An address with its prefix length, unless the prefix is longer than the address.
    pub fn new(address: IpAddr, network_length: u8) -> (inet: Option<IpInet>)
        ensures
            inet is Some <==> network_length <= address_bits(address),
            inet matches Some(i) ==> i.addr() == address && i.len() == network_length,
    {
        let limit: u8 = match address {
            IpAddr::V4(_) => 32,
            IpAddr::V6(_) => 128,
        };
        if network_length > limit {
            None
        } else {
            Some(IpInet { address, network_length })
        }
    }

    /// The host address.
    pub fn address(&self) -> (address: IpAddr)
        ensures
            address == self.addr(),
    {
        self.address
    }

    /// The prefix length.
    pub fn network_length(&self) -> (len: u8)
        ensures
            len == self.len(),
            len <= address_bits(self.addr()),
    {
        proof {
            use_type_invariant(self);
        }
        self.network_length
    }
}

} // verus!
