//! Host addresses and the identity of a target host.
//!
//! A target is identified by the triple of user name, address and port. The
//! triple is written `user@address:port`; an address that holds a colon is put
//! in square brackets so that the last colon always introduces the port.
//! Because an address holds neither `@` nor a bracket, the written form
//! determines the triple: it can serve as the key of a host.

use vstd::prelude::*;
use vstd::string::*;
use crate::text::{decimal, decimal_string, find_char, is_digit, lemma_decimal_digits, lemma_decimal_injective};

verus! {

/// Unique written identifier (`user@address:port`) of a target host.
pub type MasshHost = String;

/// The characters of which a numeric address is written: digits, the
/// lower-case hexadecimal digits, dots and colons.
pub open spec fn is_addr_char(c: char) -> bool {
    ||| ('0' <= c && c <= '9')
    ||| ('a' <= c && c <= 'f')
    ||| c == '.'
    ||| c == ':'
}

/// A numeric address in writing: not empty, and made of address characters
/// only.
pub open spec fn is_addr_text(s: Seq<char>) -> bool {
    &&& s.len() > 0
    &&& forall|i: int| 0 <= i < s.len() ==> is_addr_char(#[trigger] s[i])
}

/// Whether the written address holds a colon, as every IPv6 address does.
pub open spec fn has_colon(s: Seq<char>) -> bool {
    exists|i: int| 0 <= i < s.len() && s[i] == ':'
}

/// The address as it stands before the port: in brackets if it holds a colon.
pub open spec fn addr_text(addr: Seq<char>) -> Seq<char> {
    if has_colon(addr) {
        seq!['['] + addr + seq![']']
    } else {
        addr
    }
}

/// `address:port`.
pub open spec fn endpoint_text(addr: Seq<char>, port: nat) -> Seq<char> {
    addr_text(addr) + seq![':'] + decimal(port)
}

/// `user@address:port`.
pub open spec fn host_text(user: Seq<char>, addr: Seq<char>, port: nat) -> Seq<char> {
    user + seq!['@'] + endpoint_text(addr, port)
}

/// A text that is cut at the last occurrence of `c` can be cut in one way
/// only.
pub proof fn lemma_cut_at_last(x1: Seq<char>, y1: Seq<char>, x2: Seq<char>, y2: Seq<char>, c: char)
    requires
        x1 + seq![c] + y1 == x2 + seq![c] + y2,
        forall|i: int| 0 <= i < y1.len() ==> y1[i] != c,
        forall|i: int| 0 <= i < y2.len() ==> y2[i] != c,
    ensures
        x1 == x2,
        y1 == y2,
{
    let t1 = x1 + seq![c] + y1;
    let t2 = x2 + seq![c] + y2;
    assert(t1.len() == x1.len() + 1 + y1.len());
    assert(t2.len() == x2.len() + 1 + y2.len());
    if x1.len() < x2.len() {
        let k = x2.len() - x1.len() - 1;
        assert(t2[x2.len() as int] == c);
        assert(t1[x2.len() as int] == y1[k]);
        assert(false);
    }
    if x2.len() < x1.len() {
        let k = x1.len() - x2.len() - 1;
        assert(t1[x1.len() as int] == c);
        assert(t2[x1.len() as int] == y2[k]);
        assert(false);
    }
    assert(x1 =~= t1.subrange(0, x1.len() as int));
    assert(x2 =~= t2.subrange(0, x2.len() as int));
    assert(y1 =~= t1.subrange(x1.len() as int + 1, t1.len() as int));
    assert(y2 =~= t2.subrange(x2.len() as int + 1, t2.len() as int));
}

/// The form of an address before a port holds no `@`, and determines the
/// address.
pub proof fn lemma_addr_text(a: Seq<char>)
    requires
        is_addr_text(a),
    ensures
        addr_text(a).len() > 0,
        forall|i: int| 0 <= i < addr_text(a).len() ==> addr_text(a)[i] != '@',
        has_colon(a) <==> addr_text(a)[0] == '[',
        has_colon(a) ==> a == addr_text(a).subrange(1, addr_text(a).len() - 1),
{
    if has_colon(a) {
        let t = addr_text(a);
        assert forall|i: int| 0 <= i < t.len() implies t[i] != '@' by {
            if 0 < i && i < t.len() - 1 {
                assert(t[i] == a[i - 1]);
                assert(is_addr_char(a[i - 1]));
            }
        }
        assert(a =~= t.subrange(1, t.len() - 1));
    } else {
        assert(is_addr_char(a[0]));
    }
}

/// The written identity of a host determines its user, address and port.
pub proof fn lemma_host_text_injective(
    user1: Seq<char>,
    addr1: Seq<char>,
    port1: nat,
    user2: Seq<char>,
    addr2: Seq<char>,
    port2: nat,
)
    requires
        is_addr_text(addr1),
        is_addr_text(addr2),
        host_text(user1, addr1, port1) == host_text(user2, addr2, port2),
    ensures
        user1 == user2,
        addr1 == addr2,
        port1 == port2,
{
    let e1 = endpoint_text(addr1, port1);
    let e2 = endpoint_text(addr2, port2);
    lemma_addr_text(addr1);
    lemma_addr_text(addr2);
    lemma_decimal_digits(port1);
    lemma_decimal_digits(port2);
    assert forall|i: int| 0 <= i < e1.len() implies e1[i] != '@' by {
        let n = addr_text(addr1).len();
        if i < n {
            assert(e1[i] == addr_text(addr1)[i]);
        } else if i > n {
            assert(e1[i] == decimal(port1)[i - n - 1]);
            assert(is_digit(decimal(port1)[i - n - 1]));
        }
    }
    assert forall|i: int| 0 <= i < e2.len() implies e2[i] != '@' by {
        let n = addr_text(addr2).len();
        if i < n {
            assert(e2[i] == addr_text(addr2)[i]);
        } else if i > n {
            assert(e2[i] == decimal(port2)[i - n - 1]);
            assert(is_digit(decimal(port2)[i - n - 1]));
        }
    }
    lemma_cut_at_last(user1, e1, user2, e2, '@');
    assert forall|i: int| 0 <= i < decimal(port1).len() implies decimal(port1)[i] != ':' by {
        assert(is_digit(decimal(port1)[i]));
    }
    assert forall|i: int| 0 <= i < decimal(port2).len() implies decimal(port2)[i] != ':' by {
        assert(is_digit(decimal(port2)[i]));
    }
    lemma_cut_at_last(addr_text(addr1), decimal(port1), addr_text(addr2), decimal(port2), ':');
    lemma_decimal_injective(port1, port2);
}

/// A numeric network address (IPv4 or IPv6), held in its written form.
///
/// Equality is by the text. Two addresses are the same exactly if they are
/// written the same, so an address has to come in one form always, the
/// canonical one: an IPv4 address as four decimal numbers without leading
/// zeros, an IPv6 address in lower case with its longest run of zero groups
/// written `::`. Of that form only the characters are checked here: text
/// with any other character, an upper-case digit among them, is refused.
/// Two other writings of one address are two addresses, and make two
/// hosts.
#[derive(Debug, PartialEq, Eq)]
pub struct HostAddr {
    text: String,
}

impl View for HostAddr {
    type V = Seq<char>;

    closed spec fn view(&self) -> Seq<char> {
        self.text@
    }
}

impl Clone for HostAddr {
    fn clone(&self) -> (copy: Self)
        ensures
            copy == *self,
    {
        proof {
            use_type_invariant(self);
        }
        HostAddr { text: self.text.clone() }
    }
}

fn is_addr_char_exec(c: char) -> (b: bool)
    ensures
        b == is_addr_char(c),
{
    (c >= '0' && c <= '9') || (c >= 'a' && c <= 'f') || c == '.' || c == ':'
}

impl HostAddr {
    /// What holds of every address: it is not empty and is written with
    /// address characters only.
    #[verifier::type_invariant]
    pub open spec fn wf(&self) -> bool {
        is_addr_text(self@)
    }

    /// Takes `text` as an address if it is written with address characters
    /// only and is not empty.
    pub fn new(text: &str) -> (addr: Option<HostAddr>)
        ensures
            addr is Some <==> is_addr_text(text@),
            addr matches Some(a) ==> a@ == text@ && a.wf(),
    {
        let n: usize = text.unicode_len();
        if n == 0 {
            return None;
        }
        let mut i: usize = 0;
        while i < n
            invariant
                n == text@.len(),
                i <= n,
                forall|j: int| 0 <= j < i ==> is_addr_char(#[trigger] text@[j]),
            decreases n - i,
        {
            if !is_addr_char_exec(text.get_char(i)) {
                return None;
            }
            i = i + 1;
        }
        Some(HostAddr { text: String::from_str(text) })
    }

    /// The address as written.
    pub fn as_str(&self) -> (text: &str)
        ensures
            text@ == self@,
            self.wf(),
    {
        proof {
            use_type_invariant(self);
        }
        self.text.as_str()
    }

    /// Whether two addresses are the same.
    pub fn same(&self, other: &HostAddr) -> (b: bool)
        ensures
            b == (self@ == other@),
    {
        self.text == other.text
    }

    /// The address as it stands before a port.
    pub fn bracketed(&self) -> (text: String)
        ensures
            text@ == addr_text(self@),
    {
        match find_char(self.text.as_str(), ':') {
            Some(i) => {
                assert(has_colon(self@));
                let mut out: String = String::from_str("[");
                out.append(self.text.as_str());
                out.append("]");
                proof {
                    reveal_strlit("[");
                    reveal_strlit("]");
                    assert(out@ =~= addr_text(self@));
                }
                out
            },
            None => {
                assert(!has_colon(self@));
                self.text.clone()
            },
        }
    }
}

/// An address together with a port.
#[derive(Debug, PartialEq, Eq)]
pub struct Endpoint {
    /// Numeric address.
    pub addr: HostAddr,
    /// Port number.
    pub port: u16,
}

impl Clone for Endpoint {
    fn clone(&self) -> (copy: Self)
        ensures
            copy == *self,
    {
        Endpoint { addr: self.addr.clone(), port: self.port }
    }
}

impl Endpoint {
    /// Writes the endpoint as `address:port`.
    pub fn render(&self) -> (text: String)
        ensures
            text@ == endpoint_text(self.addr@, self.port as nat),
    {
        let mut out: String = self.addr.bracketed();
        out.append(":");
        let digits: String = decimal_string(self.port as u64);
        out.append(digits.as_str());
        proof {
            reveal_strlit(":");
            assert(out@ =~= endpoint_text(self.addr@, self.port as nat));
        }
        out
    }

    /// Whether two endpoints have the same address and port.
    pub fn same(&self, other: &Endpoint) -> (b: bool)
        ensures
            b == (self.addr@ == other.addr@ && self.port == other.port),
    {
        self.port == other.port && self.addr.same(&other.addr)
    }
}

/// Writes the identity of the host that `user` reaches at `endpoint`.
pub fn host_name(user: &str, endpoint: &Endpoint) -> (name: MasshHost)
    ensures
        name@ == host_text(user@, endpoint.addr@, endpoint.port as nat),
{
    let mut out: String = String::from_str(user);
    out.append("@");
    let rest: String = endpoint.render();
    out.append(rest.as_str());
    proof {
        reveal_strlit("@");
        assert(out@ =~= host_text(user@, endpoint.addr@, endpoint.port as nat));
    }
    out
}

} // verus!
