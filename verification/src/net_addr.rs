//! A plain representation of an IPv4 socket address.
//!
//! Probes keep the target they were configured with in this form; the
//! caller that performs the actual connect converts it to whatever its
//! networking layer expects. Keeping the four octets and the port as plain
//! integers lets every address-dependent piece of text (failure reasons,
//! PROXY protocol preambles, `Host` headers) be specified exactly.

use vstd::prelude::*;

use crate::numfmt::{dec_chars, dec_string};

verus! {

/// An IPv4 address and port.
#[derive(Clone, Copy, Debug)]
pub struct SockAddr {
    /// The four address octets, most significant first.
    pub ip: [u8; 4],
    /// The port, in host order.
    pub port: u16,
}

impl SockAddr {
    /// The textual form `a.b.c.d:port`, as written in failure reasons and
    /// probe names.
    pub open spec fn spec_chars(self) -> Seq<char> {
        dec_chars(self.ip[0] as nat) + seq!['.'] + dec_chars(self.ip[1] as nat) + seq!['.']
            + dec_chars(self.ip[2] as nat) + seq!['.'] + dec_chars(self.ip[3] as nat) + seq![':']
            + dec_chars(self.port as nat)
    }

    /// Renders the address as `a.b.c.d:port`.
    pub fn to_text(&self) -> (s: String)
        ensures
            s@ == self.spec_chars(),
    {
        let mut s = dec_string(self.ip[0] as u64);
        s.append(".");
        let o1 = dec_string(self.ip[1] as u64);
        s.append(o1.as_str());
        s.append(".");
        let o2 = dec_string(self.ip[2] as u64);
        s.append(o2.as_str());
        s.append(".");
        let o3 = dec_string(self.ip[3] as u64);
        s.append(o3.as_str());
        s.append(":");
        let p = dec_string(self.port as u64);
        s.append(p.as_str());
        proof {
            reveal_strlit(".");
            reveal_strlit(":");
            assert(s@ =~= self.spec_chars());
        }
        s
    }
}

} // verus!
