//! Nodes of the mesh and the names they are shown and searched by.
use vstd::prelude::*;
use vstd::string::*;
use crate::radio::{device_role_name, device_role_str_name, hardware_model_name, hardware_model_str_name};
use crate::text::{
    decimal_digits, hex_digits, join_nonempty, joined_nonempty, lowercase, push_char, push_decimal, push_hex,
    to_lowercase, views,
};

verus! {

/// What a node tells about itself.
#[derive(Debug, Clone, Hash)]
pub struct NodeUser {
    pub id: String,
    pub short_name: String,
    pub long_name: String,
    pub role: i32,
    pub hw_model: i32,
    pub public_key: Vec<u8>,
    pub is_licensed: bool,
    pub is_unmessagable: Option<bool>,
}

/// A node of the mesh. `last_heard` is a Unix time in seconds; `snr_bits`
/// holds the bits of the 32-bit floating point signal to noise ratio.
#[derive(Debug, Clone)]
pub struct Node {
    pub key: u32,
    pub user: Option<NodeUser>,
    pub hops: Option<u32>,
    pub last_heard: Option<i64>,
    pub snr_bits: u32,
    pub rssi: Option<i32>,
    pub is_favorite: bool,
    pub is_ignored: bool,
    pub is_muted: bool,
    pub fulltext: String,
}

/// Why a radio record could not be turned into a node.
#[derive(Debug, Clone, Copy, PartialEq, Eq, Structural)]
pub enum NodeError {
    NoUserInformation,
}

/// The node id shown to users: `!` and the key in lower case hexadecimal.
pub open spec fn node_id_text(key: u32) -> Seq<char> {
    seq!['!'] + hex_digits(key as nat)
}

/// The last (at most) four characters of the node id.
pub open spec fn id_tail(key: u32) -> Seq<char> {
    let id = node_id_text(key);
    let start = if id.len() >= 4 { id.len() - 4 } else { 0 };
    id.subrange(start as int, id.len() as int)
}

/// The fallback text `"?"`.
pub open spec fn question_mark() -> Seq<char> {
    seq!['?']
}

impl Node {
    pub open spec fn spec_short_name(self) -> Seq<char> {
        match self.user {
            Some(u) => u.short_name@,
            None => id_tail(self.key),
        }
    }

    pub open spec fn spec_long_name(self) -> Seq<char> {
        match self.user {
            Some(u) => u.long_name@,
            None => "Meshtastic "@ + self.spec_short_name(),
        }
    }

    pub open spec fn spec_hw_model(self) -> Seq<char> {
        match self.user {
            Some(u) => match hardware_model_str_name(u.hw_model) {
                Some(n) => n,
                None => "UNKNOWN"@,
            },
            None => "UNKNOWN"@,
        }
    }

    pub open spec fn spec_role(self) -> Seq<char> {
        match self.user {
            Some(u) => match device_role_str_name(u.role) {
                Some(n) => n,
                None => "UNKNOWN"@,
            },
            None => "UNKNOWN"@,
        }
    }

    /// The words a node is found by in the node filter.
    pub open spec fn spec_fulltext_tokens(self) -> Seq<Seq<char>> {
        seq![
            lowercase(
                match self.user {
                    Some(u) => u.short_name@,
                    None => question_mark(),
                },
            ),
            lowercase(
                match self.user {
                    Some(u) => u.long_name@,
                    None => "unknown"@,
                },
            ),
            lowercase(self.spec_role()),
            lowercase(self.spec_hw_model()),
            node_id_text(self.key),
            match self.hops {
                Some(h) => if h == 0 {
                    "$direct"@
                } else {
                    "$remote"@
                },
                None => Seq::empty(),
            },
            match self.hops {
                Some(h) => "$hops"@ + decimal_digits(h as nat),
                None => Seq::empty(),
            },
            if self.is_favorite {
                "$favorite"@
            } else {
                Seq::empty()
            },
            if self.is_ignored {
                "$ignored"@
            } else {
                Seq::empty()
            },
            if self.is_muted {
                "$muted"@
            } else {
                Seq::empty()
            },
            if self.user is Some {
                "$stored"@
            } else {
                "$unknown"@
            },
        ]
    }

    /// The full text a node is searched in.
    pub open spec fn spec_fulltext(self) -> Seq<char> {
        joined_nonempty(self.spec_fulltext_tokens())
    }

    /// Whether the node's search text is up to date.
    pub open spec fn has_fulltext(self) -> bool {
        self.fulltext@ == self.spec_fulltext()
    }

    /// The id shown for the node: `!` and its key in hexadecimal.
    pub fn id(&self) -> (r: String)
        ensures
            r@ == node_id_text(self.key),
    {
        let mut s = String::new();
        push_char(&mut s, '!');
        push_hex(&mut s, self.key as u64);
        s
    }

    /// The short name the node gave itself, or the last four characters of its id.
    pub fn short_name(&self) -> (r: String)
        ensures
            r@ == self.spec_short_name(),
    {
        match &self.user {
            Some(u) => u.short_name.clone(),
            None => {
                let id = self.id();
                let len = id.as_str().unicode_len();
                let start = if len >= 4 {
                    len - 4
                } else {
                    0
                };
                id.as_str().substring_char(start, len).to_string()
            },
        }
    }

    /// The long name the node gave itself, or `Meshtastic` and its short name.
    pub fn long_name(&self) -> (r: String)
        ensures
            r@ == self.spec_long_name(),
    {
        match &self.user {
            Some(u) => u.long_name.clone(),
            None => {
                let mut s = String::new();
                s.append("Meshtastic ");
                let short = self.short_name();
                s.append(short.as_str());
                s
            },
        }
    }

    /// The protocol name of the node's hardware model, or `UNKNOWN`.
    pub fn hw_model(&self) -> (r: String)
        ensures
            r@ == self.spec_hw_model(),
    {
        match &self.user {
            Some(u) => match hardware_model_name(u.hw_model) {
                Some(n) => n,
                None => "UNKNOWN".to_string(),
            },
            None => "UNKNOWN".to_string(),
        }
    }

    /// The protocol name of the node's role, or `UNKNOWN`.
    pub fn role(&self) -> (r: String)
        ensures
            r@ == self.spec_role(),
    {
        match &self.user {
            Some(u) => match device_role_name(u.role) {
                Some(n) => n,
                None => "UNKNOWN".to_string(),
            },
            None => "UNKNOWN".to_string(),
        }
    }

    /// The node a radio's node database entry describes: key `num`, what it
    /// said about itself, hops away, last heard time, signal to noise ratio
    /// bits and flags. An entry without user information is refused.
    pub fn from_node_info(
        num: u32,
        user: Option<NodeUser>,
        hops_away: Option<u32>,
        last_heard: u32,
        snr_bits: u32,
        is_favorite: bool,
        is_ignored: bool,
        is_muted: bool,
    ) -> (r: Result<Node, NodeError>)
        ensures
            user is None ==> r == Err::<Node, NodeError>(NodeError::NoUserInformation),
            user is Some ==> (r matches Ok(n) && n.key == num && n.user == user && n.hops == hops_away
                && n.last_heard == Some(last_heard as i64) && n.snr_bits == snr_bits && n.rssi is None
                && n.is_favorite == is_favorite && n.is_ignored == is_ignored && n.is_muted == is_muted
                && n.has_fulltext()),
    {
        if user.is_none() {
            return Err(NodeError::NoUserInformation);
        }
        let mut node = Node {
            key: num,
            user,
            hops: hops_away,
            last_heard: Some(last_heard as i64),
            snr_bits,
            rssi: None,
            is_favorite,
            is_ignored,
            is_muted,
            fulltext: String::new(),
        };
        node.update_fulltext();
        Ok(node)
    }

    /// The node a received packet comes from: its sender `from`, with `user`
    /// when the packet carried one, hops taken (`hop_start - hop_limit`,
    /// zero when the limit is above the start), receive time, signal to noise
    /// ratio bits and signal strength.
    pub fn from_packet(
        from: u32,
        user: Option<NodeUser>,
        hop_start: u32,
        hop_limit: u32,
        rx_time: u32,
        rx_snr_bits: u32,
        rx_rssi: i32,
    ) -> (r: Node)
        ensures
            r.key == from,
            r.user == user,
            r.hops == Some((if hop_start >= hop_limit { hop_start - hop_limit } else { 0 }) as u32),
            r.last_heard == Some(rx_time as i64),
            r.snr_bits == rx_snr_bits,
            r.rssi == Some(rx_rssi),
            !r.is_favorite && !r.is_ignored && !r.is_muted,
            r.has_fulltext(),
    {
        let hops = if hop_start >= hop_limit {
            hop_start - hop_limit
        } else {
            0
        };
        let mut node = Node {
            key: from,
            user,
            hops: Some(hops),
            last_heard: Some(rx_time as i64),
            snr_bits: rx_snr_bits,
            rssi: Some(rx_rssi),
            is_favorite: false,
            is_ignored: false,
            is_muted: false,
            fulltext: String::new(),
        };
        node.update_fulltext();
        node
    }

    /// What the node says about itself, as it is broadcast: its own id and
    /// names, never licensed. A node without user information is refused.
    pub fn to_user(&self) -> (r: Result<NodeUser, NodeError>)
        ensures
            self.user is None ==> r == Err::<NodeUser, NodeError>(NodeError::NoUserInformation),
            self.user matches Some(u) ==> (r matches Ok(v) && v.id@ == node_id_text(self.key)
                && v.short_name@ == u.short_name@ && v.long_name@ == u.long_name@ && v.role == u.role
                && v.hw_model == u.hw_model && v.public_key@ == u.public_key@ && !v.is_licensed
                && v.is_unmessagable == u.is_unmessagable),
    {
        match &self.user {
            Some(u) => Ok(
                NodeUser {
                    id: self.id(),
                    short_name: u.short_name.clone(),
                    long_name: u.long_name.clone(),
                    role: u.role,
                    hw_model: u.hw_model,
                    public_key: u.public_key.clone(),
                    is_licensed: false,
                    is_unmessagable: u.is_unmessagable,
                },
            ),
            None => Err(NodeError::NoUserInformation),
        }
    }

    /// Recomputes the text the node is searched in.
    pub fn update_fulltext(&mut self)
        ensures
            final(self).has_fulltext(),
            final(self).key == old(self).key,
            final(self).user == old(self).user,
            final(self).hops == old(self).hops,
            final(self).last_heard == old(self).last_heard,
            final(self).snr_bits == old(self).snr_bits,
            final(self).rssi == old(self).rssi,
            final(self).is_favorite == old(self).is_favorite,
            final(self).is_ignored == old(self).is_ignored,
            final(self).is_muted == old(self).is_muted,
    {
        let reach = match self.hops {
            Some(h) => if h == 0 {
                "$direct".to_string()
            } else {
                "$remote".to_string()
            },
            None => String::new(),
        };
        let mut tokens: Vec<String> = Vec::new();
        let short = match &self.user {
            Some(u) => to_lowercase(u.short_name.as_str()),
            None => to_lowercase("?"),
        };
        tokens.push(short);
        let long = match &self.user {
            Some(u) => to_lowercase(u.long_name.as_str()),
            None => to_lowercase("unknown"),
        };
        tokens.push(long);
        let role = self.role();
        tokens.push(to_lowercase(role.as_str()));
        let hw = self.hw_model();
        tokens.push(to_lowercase(hw.as_str()));
        tokens.push(self.id());
        tokens.push(reach);
        let hops_token = match self.hops {
            Some(h) => {
                let mut s = String::new();
                s.append("$hops");
                push_decimal(&mut s, h as u64);
                s
            },
            None => String::new(),
        };
        tokens.push(hops_token);
        tokens.push(
            if self.is_favorite {
                "$favorite".to_string()
            } else {
                String::new()
            },
        );
        tokens.push(
            if self.is_ignored {
                "$ignored".to_string()
            } else {
                String::new()
            },
        );
        tokens.push(
            if self.is_muted {
                "$muted".to_string()
            } else {
                String::new()
            },
        );
        tokens.push(
            if self.user.is_some() {
                "$stored".to_string()
            } else {
                "$unknown".to_string()
            },
        );
        proof {
            assert(question_mark() == "?"@) by {
                reveal_strlit("?");
            }
            assert(views(tokens@) =~= self.spec_fulltext_tokens());
        }
        self.fulltext = join_nonempty(&tokens);
    }
}

} // verus!
