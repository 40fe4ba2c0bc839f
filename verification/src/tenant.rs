//! From the `Host` header to the tenant identifier.

use vstd::prelude::*;

verus! {

/// The identifier of the tenant that serves requests without a usable `Host` header.
pub const DEFAULT_TENANT: &'static str = "default";

/// A byte that may stand in a header value that is read as text: the tab and
/// the printable ASCII characters.
pub open spec fn is_visible(b: u8) -> bool {
    (32 <= b && b < 127) || b == 9
}

/// Whether a header value can be read as text: every byte of it is visible.
pub open spec fn decodable(value: Seq<u8>) -> bool {
    forall|i: int| 0 <= i < value.len() ==> is_visible(#[trigger] value[i])
}

/// The number of bytes before the first `:` of a header value (all of them
/// where it holds none).
pub open spec fn host_name_len(value: Seq<u8>) -> nat
    decreases value.len(),
{
    if value.len() == 0 || value[0] == 58u8 {
        0
    } else {
        1 + host_name_len(value.drop_first())
    }
}

/// The text that a sequence of ASCII bytes spells.
pub open spec fn ascii_text(bytes: Seq<u8>) -> Seq<char> {
    Seq::new(bytes.len(), |i: int| bytes[i] as char)
}

/// The tenant that a `Host` header names: the host name before the port, or
/// the default tenant where the header is absent, empty or not text.
pub open spec fn tenant_id(host: Option<Seq<u8>>) -> Seq<char> {
    match host {
        Some(value) if value.len() > 0 && decodable(value) => ascii_text(
            value.take(host_name_len(value) as int),
        ),
        _ => DEFAULT_TENANT@,
    }
}

/// `host_name_len` is the position of the first `:`. Nothing before it is a
/// `:`, and it is either the end of the value or the place of a `:`.
pub proof fn lemma_host_name_len(value: Seq<u8>)
    ensures
        host_name_len(value) <= value.len(),
        forall|i: int| 0 <= i < host_name_len(value) ==> value[i] != 58u8,
        host_name_len(value) < value.len() ==> value[host_name_len(value) as int] == 58u8,
    decreases value.len(),
{
    if value.len() == 0 || value[0] == 58u8 {
    } else {
        let rest = value.drop_first();
        lemma_host_name_len(rest);
        assert forall|i: int| 0 <= i < host_name_len(value) implies value[i] != 58u8 by {
            if i > 0 {
                assert(value[i] == rest[i - 1]);
            }
        }
        if host_name_len(value) < value.len() {
            assert(value[host_name_len(value) as int] == rest[host_name_len(rest) as int]);
        }
    }
}

/// A position with no `:` before it that is the end of the value or holds a
/// `:` is `host_name_len`.
pub proof fn lemma_host_name_len_unique(value: Seq<u8>, n: int)
    requires
        0 <= n <= value.len(),
        forall|i: int| 0 <= i < n ==> value[i] != 58u8,
        n < value.len() ==> value[n] == 58u8,
    ensures
        host_name_len(value) == n,
{
    lemma_host_name_len(value);
    let m = host_name_len(value) as int;
    if m < n {
        assert(value[m] == 58u8);
    } else if n < m {
        assert(value[n] == 58u8);
    }
}

/// Appends one character to a string, as `String::push` does.
#[verifier::external_body]
fn push_char(text: &mut String, c: char)
    ensures
        final(text)@ == old(text)@.push(c),
{
    text.push(c)
}

/// Tells whether every byte of a header value is visible.
pub fn is_decodable(value: &[u8]) -> (r: bool)
    ensures
        r == decodable(value@),
{
    let mut i: usize = 0;
    while i < value.len()
        invariant
            i <= value.len(),
            forall|j: int| 0 <= j < i ==> is_visible(#[trigger] value@[j]),
        decreases value.len() - i,
    {
        let b: u8 = value[i];
        if !((32 <= b && b < 127) || b == 9) {
            return false;
        }
        i += 1;
    }
    true
}

/// Resolves the tenant of a request from the raw value of its `Host` header.
///
/// Never fails: an absent, empty or undecodable header gives the default tenant.
pub fn resolve_tenant(host: Option<&[u8]>) -> (tenant: String)
    ensures
        tenant@ == tenant_id(
            match host {
                Some(value) => Some(value@),
                None => None,
            },
        ),
{
    match host {
        Some(value) => {
            if value.len() == 0 || !is_decodable(value) {
                return DEFAULT_TENANT.to_owned();
            }
            let mut name = String::new();
            let mut i: usize = 0;
            while i < value.len() && value[i] != 58u8
                invariant
                    i <= value.len(),
                    forall|j: int| 0 <= j < i ==> value@[j] != 58u8,
                    name@ == ascii_text(value@.take(i as int)),
                decreases value.len() - i,
            {
                push_char(&mut name, value[i] as char);
                i += 1;
                assert(name@ =~= ascii_text(value@.take(i as int)));
            }
            proof {
                lemma_host_name_len_unique(value@, i as int);
            }
            name
        },
        None => DEFAULT_TENANT.to_owned(),
    }
}

} // verus!
