//! IPv4 addresses and the private networks that they lie in.
use crate::text::{
    NumberFault, cat2, decimal, digits_value, fault_words, is_digit, number, number_value,
    parse_number, same, split_at_char, split_once,
};
use vstd::arithmetic::power2::*;
use vstd::prelude::*;
use vstd::string::*;

verus! {

/// An IPv4 address, by its four octets.
#[derive(Debug, Clone, Copy, PartialEq, Eq, Structural)]
pub struct Ipv4 {
    pub a: u8,
    pub b: u8,
    pub c: u8,
    pub d: u8,
}

impl Ipv4 {
    /// The address in dotted decimal notation.
    pub open spec fn dotted(self) -> Seq<char> {
        decimal(self.a as nat) + seq!['.'] + (decimal(self.b as nat) + seq!['.'] + (decimal(
            self.c as nat,
        ) + seq!['.'] + decimal(self.d as nat)))
    }

    /// The address as one number.
    pub open spec fn value(self) -> nat {
        (self.a * 0x100_0000 + self.b * 0x1_0000 + self.c * 0x100 + self.d) as nat
    }

    /// Whether the address lies in one of the networks set aside for private
    /// use: 10.0.0.0/8, 172.16.0.0/12 and 192.168.0.0/16.
    pub open spec fn private(self) -> bool {
        ||| self.a == 10
        ||| self.a == 172 && 16 <= self.b <= 31
        ||| self.a == 192 && self.b == 168
    }

    pub fn is_private(self) -> (r: bool)
        ensures
            r == self.private(),
    {
        self.a == 10 || (self.a == 172 && 16 <= self.b && self.b <= 31) || (self.a == 192 && self.b
            == 168)
    }

    pub fn number(self) -> (r: u64)
        ensures
            r == self.value(),
            r < 0x1_0000_0000,
    {
        self.a as u64 * 0x100_0000 + self.b as u64 * 0x1_0000 + self.c as u64 * 0x100 + self.d
            as u64
    }
}

/// Whether `s` is an address in dotted decimal notation.
pub open spec fn is_ipv4(s: Seq<char>) -> bool {
    exists|ip: Ipv4| #[trigger] ip.dotted() == s
}

/// A number in decimal notation is made of digits.
pub proof fn lemma_decimal(n: nat)
    ensures
        decimal(n).len() > 0,
        forall|i: int| 0 <= i < decimal(n).len() ==> is_digit(#[trigger] decimal(n)[i]),
    decreases n,
{
    if n >= 10 {
        lemma_decimal(n / 10);
    }
}

/// Reading what was written gives the number back.
pub proof fn law_decimal_reads_back(n: nat, max: nat)
    requires
        n <= max,
    ensures
        number_value(decimal(n), max) == Ok::<nat, NumberFault>(n),
{
    lemma_decimal(n);
    lemma_digits_decimal(n, max);
    assert(is_digit(decimal(n)[0]));
}

proof fn lemma_digits_decimal(n: nat, max: nat)
    requires
        n <= max,
    ensures
        digits_value(decimal(n), max) == Ok::<nat, NumberFault>(n),
    decreases n,
{
    if n < 10 {
        let s = decimal(n);
        assert(s.drop_last() =~= Seq::<char>::empty());
        assert(digits_value(s.drop_last(), max) == Ok::<nat, NumberFault>(0));
    } else {
        lemma_digits_decimal(n / 10, max);
        assert(decimal(n).drop_last() =~= decimal(n / 10));
    }
}

/// The first dot behind a decimal number ends it.
proof fn lemma_split_decimal(n: nat, rest: Seq<char>)
    ensures
        split_at_char(decimal(n) + seq!['.'] + rest, '.') == Some((decimal(n), rest)),
{
    lemma_decimal(n);
    let s = decimal(n) + seq!['.'] + rest;
    let k = decimal(n).len() as int;
    assert(s[k] == '.');
    s.index_of_first_ensures('.');
    let i = s.index_of_first('.')->0;
    if i < k {
        assert(s[i] == decimal(n)[i]);
    }
    assert(s.take(k) =~= decimal(n));
    assert(s.skip(k + 1) =~= rest);
}

/// What stands on the two sides of the first dot makes up the text.
proof fn lemma_split_rejoins(s: Seq<char>, c: char)
    ensures
        split_at_char(s, c) matches Some((a, b)) ==> s == a + seq![c] + b,
{
    if s.contains(c) {
        s.index_of_first_ensures(c);
        let i = s.index_of_first(c)->0;
        assert(s =~= s.take(i) + seq![c] + s.skip(i + 1));
    }
}

fn octet(s: &str) -> (r: Option<u8>)
    ensures
        match r {
            Some(v) => s@ == decimal(v as nat),
            None => forall|v: u8| s@ != #[trigger] decimal(v as nat),
        },
{
    proof {
        assert forall|v: u8| s@ == #[trigger] decimal(v as nat) implies number_value(s@, 255) == Ok::<
            nat,
            NumberFault,
        >(v as nat) by {
            law_decimal_reads_back(v as nat, 255);
        }
    }
    match parse_number(s, 255) {
        Ok(v) => if same(number(v).as_str(), s) {
            Some(v as u8)
        } else {
            None
        },
        Err(_) => None,
    }
}

/// Reads an address in dotted decimal notation: four numbers of at most 255
/// without leading zeros, with dots between them.
pub fn parse_ipv4(s: &str) -> (r: Option<Ipv4>)
    ensures
        match r {
            Some(ip) => ip.dotted() == s@,
            None => !is_ipv4(s@),
        },
{
    proof {
        assert forall|ip: Ipv4| #[trigger] ip.dotted() == s@ implies {
            &&& split_at_char(s@, '.') matches Some((a, rest))
            &&& a == decimal(ip.a as nat)
            &&& split_at_char(rest, '.') matches Some((b, rest2))
            &&& b == decimal(ip.b as nat)
            &&& split_at_char(rest2, '.') == Some((decimal(ip.c as nat), decimal(ip.d as nat)))
        } by {
            let tail = decimal(ip.c as nat) + seq!['.'] + decimal(ip.d as nat);
            lemma_split_decimal(ip.a as nat, decimal(ip.b as nat) + seq!['.'] + tail);
            lemma_split_decimal(ip.b as nat, tail);
            lemma_split_decimal(ip.c as nat, decimal(ip.d as nat));
        }
        lemma_split_rejoins(s@, '.');
    }
    let (a_text, rest): (&str, &str) = match split_once(s, '.') {
        Some(pair) => pair,
        None => {
            return None;
        },
    };
    proof {
        lemma_split_rejoins(rest@, '.');
    }
    let (b_text, rest2): (&str, &str) = match split_once(rest, '.') {
        Some(pair) => pair,
        None => {
            return None;
        },
    };
    proof {
        lemma_split_rejoins(rest2@, '.');
    }
    let (c_text, d_text): (&str, &str) = match split_once(rest2, '.') {
        Some(pair) => pair,
        None => {
            return None;
        },
    };
    match (octet(a_text), octet(b_text), octet(c_text), octet(d_text)) {
        (Some(a), Some(b), Some(c), Some(d)) => {
            let ip: Ipv4 = Ipv4 { a, b, c, d };
            assert(ip.dotted() == s@);
            Some(ip)
        },
        _ => None,
    }
}

/// How many addresses share a prefix of `prefix` bits.
pub open spec fn block_size(prefix: nat) -> nat {
    pow2((32 - prefix) as nat)
}

/// The first address of the block of `size` addresses that `value` lies in.
pub open spec fn block_start(value: nat, size: nat) -> int {
    value - value % size
}

fn power_of_two(n: u64) -> (r: u64)
    requires
        n < 32,
    ensures
        r == pow2(n as nat),
        0 < r <= 0x8000_0000,
{
    proof {
        lemma2_to64();
    }
    let mut r: u64 = 1;
    let mut i: u64 = 0;
    while i < n
        invariant
            i <= n < 32,
            r == pow2(i as nat),
            r <= pow2(31),
            pow2(31) == 0x8000_0000,
        decreases n - i,
    {
        proof {
            lemma_pow2_unfold((i + 1) as nat);
            if i + 1 < 31 {
                lemma_pow2_strictly_increases((i + 1) as nat, 31);
            }
        }
        r = r * 2;
        i = i + 1;
    }
    proof {
        lemma_pow2_pos(n as nat);
    }
    r
}

/// What is wrong with a verified private network, if anything is, else the
/// length of its prefix. Of several faults the first in this order counts.
pub open spec fn private_network(cidr: Seq<char>, private_ipv4: Seq<char>) -> Result<
    nat,
    Seq<char>,
> {
    match split_at_char(cidr, '/') {
        None => Err("verified Vultr VPC CIDR must use IPv4 prefix notation"@),
        Some((subnet_text, prefix_text)) => if !is_ipv4(subnet_text) {
            Err("verified Vultr VPC CIDR has invalid IPv4 subnet: invalid IPv4 address syntax"@)
        } else {
            let subnet = choose|ip: Ipv4| #[trigger] ip.dotted() == subnet_text;
            match number_value(prefix_text, 255) {
                Err(fault) => Err(
                    "verified Vultr VPC CIDR has invalid prefix: "@ + fault_words(fault),
                ),
                Ok(prefix) => if !(1 <= prefix <= 32) {
                    Err("verified Vultr VPC CIDR prefix must be in 1..=32"@)
                } else if !subnet.private() {
                    Err("verified Vultr VPC CIDR must be RFC1918 IPv4"@)
                } else if block_start(subnet.value(), block_size(prefix)) != subnet.value() {
                    Err("verified Vultr VPC CIDR must be canonical"@)
                } else if !is_ipv4(private_ipv4) {
                    Err("verified Vultr private IPv4 is invalid: invalid IPv4 address syntax"@)
                } else {
                    let ip = choose|ip: Ipv4| #[trigger] ip.dotted() == private_ipv4;
                    if !ip.private() {
                        Err("verified Vultr private IPv4 must be RFC1918"@)
                    } else if block_start(ip.value(), block_size(prefix)) != subnet.value() {
                        Err("verified Vultr private IPv4 is outside the verified VPC CIDR"@)
                    } else {
                        Ok(prefix)
                    }
                },
            }
        },
    }
}

/// Two addresses with one notation are one address.
pub proof fn law_notation_is_unique(x: Ipv4, y: Ipv4)
    requires
        x.dotted() == y.dotted(),
    ensures
        x == y,
{
    let xt = decimal(x.c as nat) + seq!['.'] + decimal(x.d as nat);
    let yt = decimal(y.c as nat) + seq!['.'] + decimal(y.d as nat);
    lemma_split_decimal(x.a as nat, decimal(x.b as nat) + seq!['.'] + xt);
    lemma_split_decimal(y.a as nat, decimal(y.b as nat) + seq!['.'] + yt);
    lemma_split_decimal(x.b as nat, xt);
    lemma_split_decimal(y.b as nat, yt);
    lemma_split_decimal(x.c as nat, decimal(x.d as nat));
    lemma_split_decimal(y.c as nat, decimal(y.d as nat));
    law_decimal_reads_back(x.a as nat, 255);
    law_decimal_reads_back(y.a as nat, 255);
    law_decimal_reads_back(x.b as nat, 255);
    law_decimal_reads_back(y.b as nat, 255);
    law_decimal_reads_back(x.c as nat, 255);
    law_decimal_reads_back(y.c as nat, 255);
    law_decimal_reads_back(x.d as nat, 255);
    law_decimal_reads_back(y.d as nat, 255);
}

/// Checks that a network in prefix notation is private and canonical and that
/// an address is private and lies in it; gives the length of the prefix.
pub fn validate_verified_private_network(cidr: &str, private_ipv4: &str) -> (r: Result<u8, String>)
    ensures
        match r {
            Ok(prefix) => private_network(cidr@, private_ipv4@) == Ok::<nat, Seq<char>>(
                prefix as nat,
            ),
            Err(e) => private_network(cidr@, private_ipv4@) == Err::<nat, Seq<char>>(e@),
        },
{
    let (subnet_text, prefix_text): (&str, &str) = match split_once(cidr, '/') {
        Some(pair) => pair,
        None => {
            return Err("verified Vultr VPC CIDR must use IPv4 prefix notation".to_owned());
        },
    };
    let subnet: Ipv4 = match parse_ipv4(subnet_text) {
        Some(ip) => ip,
        None => {
            return Err(
                "verified Vultr VPC CIDR has invalid IPv4 subnet: invalid IPv4 address syntax".to_owned(),
            );
        },
    };
    proof {
        let chosen = choose|ip: Ipv4| #[trigger] ip.dotted() == subnet_text@;
        law_notation_is_unique(chosen, subnet);
    }
    let prefix: u64 = match parse_number(prefix_text, 255) {
        Ok(n) => n,
        Err(fault) => {
            return Err(
                cat2("verified Vultr VPC CIDR has invalid prefix: ", fault.message()),
            );
        },
    };
    if prefix < 1 || prefix > 32 {
        return Err("verified Vultr VPC CIDR prefix must be in 1..=32".to_owned());
    }
    if !subnet.is_private() {
        return Err("verified Vultr VPC CIDR must be RFC1918 IPv4".to_owned());
    }
    let size: u64 = power_of_two(32 - prefix);
    let subnet_value: u64 = subnet.number();
    if subnet_value % size != 0 {
        return Err("verified Vultr VPC CIDR must be canonical".to_owned());
    }
    let ip: Ipv4 = match parse_ipv4(private_ipv4) {
        Some(ip) => ip,
        None => {
            return Err(
                "verified Vultr private IPv4 is invalid: invalid IPv4 address syntax".to_owned(),
            );
        },
    };
    proof {
        let chosen = choose|x: Ipv4| #[trigger] x.dotted() == private_ipv4@;
        law_notation_is_unique(chosen, ip);
    }
    if !ip.is_private() {
        return Err("verified Vultr private IPv4 must be RFC1918".to_owned());
    }
    let ip_value: u64 = ip.number();
    proof {
        vstd::arithmetic::div_mod::lemma_mod_decreases(ip_value as nat, size as nat);
    }
    if ip_value - ip_value % size != subnet_value {
        return Err("verified Vultr private IPv4 is outside the verified VPC CIDR".to_owned());
    }
    Ok(prefix as u8)
}

/// The private addresses are those of three ranges.
pub proof fn law_private_addresses_are_those_of_three_ranges(ip: Ipv4, r: bool, n: u64)
    requires
        call_ensures(Ipv4::is_private, (ip,), r),
        call_ensures(Ipv4::number, (ip,), n),
    ensures
        r <==> 0x0A00_0000 <= n < 0x0B00_0000 || 0xAC10_0000 <= n < 0xAC20_0000 || 0xC0A8_0000
            <= n < 0xC0A9_0000,
{
}

/// An address that is written is read back.
pub proof fn law_addresses_read_back(ip: Ipv4, s: &str, r: Option<Ipv4>)
    requires
        s@ == ip.dotted(),
        call_ensures(parse_ipv4, (s,), r),
    ensures
        r == Some(ip),
{
    assert(is_ipv4(s@));
    law_notation_is_unique(r->Some_0, ip);
}

proof fn lemma_no_slash(ip: Ipv4)
    ensures
        !ip.dotted().contains('/'),
{
    lemma_decimal(ip.a as nat);
    lemma_decimal(ip.b as nat);
    lemma_decimal(ip.c as nat);
    lemma_decimal(ip.d as nat);
    let s = ip.dotted();
    let a = decimal(ip.a as nat);
    let b = decimal(ip.b as nat);
    let c = decimal(ip.c as nat);
    let d = decimal(ip.d as nat);
    assert forall|i: int| 0 <= i < s.len() implies s[i] != '/' by {
        if i < a.len() {
            assert(s[i] == a[i]);
        } else if i == a.len() {
            assert(s[i] == '.');
        } else if i < a.len() + 1 + b.len() {
            assert(s[i] == b[i - a.len() - 1]);
        } else if i == a.len() + 1 + b.len() {
            assert(s[i] == '.');
        } else if i < a.len() + b.len() + c.len() + 2 {
            assert(s[i] == c[i - a.len() - b.len() - 2]);
        } else if i == a.len() + b.len() + c.len() + 2 {
            assert(s[i] == '.');
        } else {
            assert(s[i] == d[i - a.len() - b.len() - c.len() - 3]);
        }
    }
}

proof fn lemma_block(value: nat, size: nat, start: nat)
    requires
        size > 0,
        start % size == 0,
    ensures
        block_start(value, size) == start <==> start <= value < start + size,
{
    vstd::arithmetic::div_mod::lemma_fundamental_div_mod(value as int, size as int);
    vstd::arithmetic::div_mod::lemma_fundamental_div_mod(start as int, size as int);
    vstd::arithmetic::div_mod::lemma_mod_bound(value as int, size as int);
    if start <= value < start + size {
        let q = start as int / size as int;
        let rest = value - start;
        assert(value as int == q * size + rest) by (nonlinear_arith)
            requires
                start as int == size * q,
                rest == value - start,
        ;
        vstd::arithmetic::div_mod::lemma_fundamental_div_mod_converse(
            value as int,
            size as int,
            q,
            rest,
        );
    }
}

/// A network is accepted with an address exactly if it is written as a network,
/// begins where its size lets it, is private, and the address is a private one
/// within it.
pub proof fn law_private_networks_hold_their_address(
    cidr: &str,
    private_ipv4: &str,
    subnet: Ipv4,
    prefix: u8,
    ip: Ipv4,
    r: Result<u8, String>,
)
    requires
        cidr@ == subnet.dotted().push('/') + decimal(prefix as nat),
        private_ipv4@ == ip.dotted(),
        call_ensures(validate_verified_private_network, (cidr, private_ipv4), r),
    ensures
        r is Ok <==> {
            &&& 1 <= prefix <= 32
            &&& subnet.private()
            &&& ip.private()
            &&& subnet.value() % pow2((32 - prefix) as nat) == 0
            &&& subnet.value() <= ip.value() < subnet.value() + pow2((32 - prefix) as nat)
        },
        r matches Ok(p) ==> p == prefix,
{
    let s = subnet.dotted();
    lemma_no_slash(subnet);
    assert(cidr@[s.len() as int] == '/');
    assert(cidr@.contains('/'));
    cidr@.index_of_first_ensures('/');
    let i = cidr@.index_of_first('/')->0;
    assert(i == s.len()) by {
        if i < s.len() {
            assert(cidr@[i] == s[i]);
            assert(s.contains(s[i]));
        }
    }
    assert(cidr@.take(i) =~= s);
    assert(cidr@.skip(i + 1) =~= decimal(prefix as nat));
    law_decimal_reads_back(prefix as nat, 255);
    assert(is_ipv4(s));
    assert(is_ipv4(private_ipv4@));
    let x = choose|x: Ipv4| #[trigger] x.dotted() == s;
    law_notation_is_unique(x, subnet);
    let y = choose|y: Ipv4| #[trigger] y.dotted() == private_ipv4@;
    law_notation_is_unique(y, ip);
    if 1 <= prefix <= 32 {
        let size = block_size(prefix as nat);
        vstd::arithmetic::power2::lemma_pow2_pos((32 - prefix) as nat);
        if subnet.value() % size == 0 {
            lemma_block(ip.value(), size, subnet.value());
            lemma_block(subnet.value(), size, subnet.value());
        }
    }
}

} // verus!
