//! Invites in the library's own encoding, which is not the one that daemons
//! issue elsewhere: `pi1`, a 64-digit hex identity, a 2-digit hex address
//! length, and the address.
use vstd::prelude::*;
use crate::text::{has_prefix, starts_with};

verus! {

// This is the library's own invite encoding, not the one that daemons issue
// elsewhere. An invite is written `pi1`, then the daemon's identity as 64 lowercase hex
// digits, then the length of its address as 2 lowercase hex digits, then the
// address itself in printable ASCII. The length field makes the text
// self-delimiting, so a truncated invite never reads as a valid one.

pub open spec fn is_hex(c: char) -> bool {
    ('0' <= c && c <= '9') || ('a' <= c && c <= 'f')
}

pub open spec fn hex_value(c: char) -> nat {
    if '0' <= c && c <= '9' {
        (c as int - '0' as int) as nat
    } else {
        (c as int - 'a' as int + 10) as nat
    }
}

pub open spec fn is_address_char(c: char) -> bool {
    '!' <= c && c <= '~'
}

/// Where the identity starts, where it ends and where the address starts.
pub open spec fn id_start() -> int {
    3
}

pub open spec fn id_end() -> int {
    67
}

pub open spec fn address_start() -> int {
    69
}

/// The length of the whole invite that `s` announces in its length field.
pub open spec fn announced_len(s: Seq<char>) -> int {
    address_start() + hex_value(s[67]) * 16 + hex_value(s[68])
}

/// `s` is a complete, well-formed invite.
pub open spec fn is_invite(s: Seq<char>) -> bool {
    &&& s.len() >= address_start()
    &&& starts_with(s, "pi1"@)
    &&& forall|j: int| id_start() <= j < address_start() ==> is_hex(#[trigger] s[j])
    &&& s.len() == announced_len(s)
    &&& forall|j: int| address_start() <= j < s.len() ==> is_address_char(#[trigger] s[j])
}

/// What an invite names: a daemon's identity and how to reach it.
#[derive(Debug)]
pub struct InviteWrapper {
    node_id: String,
    address: String,
}

impl InviteWrapper {
    /// The daemon's identity.
    pub closed spec fn id(&self) -> Seq<char> {
        self.node_id@
    }

    /// The daemon's address.
    pub closed spec fn endpoint(&self) -> Seq<char> {
        self.address@
    }

    /// Decodes an invite; malformed or truncated text gives `None`.
    pub fn decode(invite: &str) -> (r: Option<InviteWrapper>)
        ensures
            r.is_some() == is_invite(invite@),
            r matches Some(i) ==> i.id() == invite@.subrange(id_start(), id_end()) && i.endpoint()
                == invite@.subrange(address_start(), invite@.len() as int),
    {
        let n = invite.unicode_len();
        if n < 69 || !has_prefix(invite, "pi1") {
            return None;
        }
        let mut j: usize = 3;
        while j < 69
            invariant
                3 <= j <= 69 <= n == invite@.len(),
                forall|i: int| 3 <= i < j ==> is_hex(#[trigger] invite@[i]),
            decreases 69 - j,
        {
            let c = invite.get_char(j);
            if !(('0' <= c && c <= '9') || ('a' <= c && c <= 'f')) {
                assert(!is_hex(invite@[j as int]));
                return None;
            }
            j = j + 1;
        }
        let len = 69 + hex_digit(invite.get_char(67)) * 16 + hex_digit(invite.get_char(68));
        if n != len {
            return None;
        }
        while j < n
            invariant
                69 <= j <= n == invite@.len(),
                forall|i: int| 3 <= i < 69 ==> is_hex(#[trigger] invite@[i]),
                forall|i: int| 69 <= i < j ==> is_address_char(#[trigger] invite@[i]),
            decreases n - j,
        {
            let c = invite.get_char(j);
            if !('!' <= c && c <= '~') {
                assert(!is_address_char(invite@[j as int]));
                return None;
            }
            j = j + 1;
        }
        Some(
            InviteWrapper {
                node_id: String::from_str(invite.substring_char(3, 67)),
                address: String::from_str(invite.substring_char(69, n)),
            },
        )
    }

    /// The daemon's identity.
    pub fn node_id(&self) -> (r: String)
        ensures
            r@ == self.id(),
    {
        self.node_id.clone()
    }

    /// The daemon's address.
    pub fn address(&self) -> (r: String)
        ensures
            r@ == self.endpoint(),
    {
        self.address.clone()
    }
}

fn hex_digit(c: char) -> (r: usize)
    requires
        is_hex(c),
    ensures
        r == hex_value(c),
        r < 16,
{
    if '0' <= c && c <= '9' {
        (c as u32 - '0' as u32) as usize
    } else {
        (c as u32 - 'a' as u32 + 10) as usize
    }
}

/// No proper prefix of a valid invite is a valid invite.
pub proof fn lemma_truncated_invite_rejected(s: Seq<char>, n: int)
    requires
        is_invite(s),
        0 <= n < s.len(),
    ensures
        !is_invite(s.subrange(0, n)),
{
    let t = s.subrange(0, n);
    if n >= address_start() {
        assert(t[67] == s[67] && t[68] == s[68]);
    }
}

} // verus!
