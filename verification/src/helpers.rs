//! Text and status helpers the user interface is drawn with.
use vstd::prelude::*;
use vstd::string::*;
use vstd::utf8::encode_utf8;
use crate::radio::{is_protocol_name_char, modem_preset_name, modem_preset_str_name, routing_error_name, routing_error_str_name};
use crate::text::{decimal_digits, push_char, push_decimal, push_signed_decimal, signed_decimal, trim_end, trimmed_end, views};

verus! {

/// `lines` with trailing whitespace cut from each, and the empty lines at the
/// end dropped.
pub open spec fn trimmed_lines_of(lines: Seq<Seq<char>>) -> Seq<Seq<char>> {
    drop_trailing_empty(lines.map_values(|l: Seq<char>| trimmed_end(l)))
}

/// `ts` without the empty strings at its end.
pub open spec fn drop_trailing_empty(ts: Seq<Seq<char>>) -> Seq<Seq<char>>
    decreases ts.len(),
{
    if ts.len() > 0 && ts.last().len() == 0 {
        drop_trailing_empty(ts.drop_last())
    } else {
        ts
    }
}

/// Cuts trailing whitespace from every line and drops the empty lines at the end.
pub fn trim_lines(lines: &Vec<String>) -> (r: Vec<String>)
    ensures
        views(r@) == trimmed_lines_of(views(lines@)),
{
    let mut trimmed: Vec<String> = Vec::new();
    let mut i: usize = 0;
    while i < lines.len()
        invariant
            0 <= i <= lines.len(),
            views(trimmed@) =~= views(lines@).take(i as int).map_values(|l: Seq<char>| trimmed_end(l)),
        decreases lines.len() - i,
    {
        let t = trim_end(lines[i].as_str());
        let ghost old_trimmed = views(trimmed@);
        trimmed.push(t);
        proof {
            assert(views(trimmed@) =~= old_trimmed.push(trimmed_end(lines@[i as int]@)));
            assert(views(lines@).take(i + 1) =~= views(lines@).take(i as int).push(lines@[i as int]@));
        }
        i = i + 1;
    }
    proof {
        assert(views(lines@).take(lines.len() as int) =~= views(lines@));
    }
    while trimmed.len() > 0 && trimmed[trimmed.len() - 1].as_str().unicode_len() == 0
        invariant
            drop_trailing_empty(views(trimmed@)) == trimmed_lines_of(views(lines@)),
        decreases trimmed.len(),
    {
        let ghost before = views(trimmed@);
        trimmed.pop();
        proof {
            assert(views(trimmed@) =~= before.drop_last());
        }
    }
    trimmed
}

/// The number of characters the text of `lines` takes with a newline
/// between lines.
pub open spec fn text_char_len(lines: Seq<Seq<char>>) -> int {
    let total = char_len_sum(lines) + lines.len();
    if total >= 1 { total - 1 } else { 0 }
}

/// The sum of the lengths in characters of `lines`.
pub open spec fn char_len_sum(lines: Seq<Seq<char>>) -> int
    decreases lines.len(),
{
    if lines.len() == 0 {
        0
    } else {
        char_len_sum(lines.drop_last()) + lines.last().len()
    }
}

/// The length in characters of the text the trimmed `lines` make,
/// newlines included (at most `usize::MAX`).
pub fn trimmed_len(lines: &Vec<String>) -> (r: usize)
    ensures
        r as int == if text_char_len(trimmed_lines_of(views(lines@))) > usize::MAX {
            usize::MAX as int
        } else {
            text_char_len(trimmed_lines_of(views(lines@)))
        },
{
    let trimmed = trim_lines(lines);
    let mut total: u128 = 0;
    let mut i: usize = 0;
    while i < trimmed.len()
        invariant
            0 <= i <= trimmed.len(),
            total as int == char_len_sum(views(trimmed@).take(i as int)),
            total <= i * (usize::MAX as int),
        decreases trimmed.len() - i,
    {
        proof {
            assert(views(trimmed@).take(i + 1).drop_last() =~= views(trimmed@).take(i as int));
        }
        let n = trimmed[i].as_str().unicode_len();
        proof {
            assert(views(trimmed@).take(i + 1).last() == trimmed@[i as int]@);
            assert(total + n <= (i + 1) * (usize::MAX as int)) by (nonlinear_arith)
                requires
                    total <= i * (usize::MAX as int),
                    n <= usize::MAX,
            ;
            assert((i + 1) * (usize::MAX as int) < u128::MAX) by (nonlinear_arith)
                requires
                    i < usize::MAX,
            ;
        }
        total = total + n as u128;
        i = i + 1;
    }
    proof {
        assert(views(trimmed@).take(trimmed.len() as int) =~= views(trimmed@));
        assert(total <= (usize::MAX as int) * (usize::MAX as int)) by (nonlinear_arith)
            requires
                total <= i * (usize::MAX as int),
                i <= usize::MAX,
        ;
    }
    let with_newlines: u128 = total + trimmed.len() as u128;
    let r: u128 = if with_newlines >= 1 {
        with_newlines - 1
    } else {
        0
    };
    if r > usize::MAX as u128 {
        usize::MAX
    } else {
        r as usize
    }
}

/// A sequence of `n` spaces.
pub open spec fn spaces(n: nat) -> Seq<char> {
    Seq::new(n, |i: int| ' ')
}

/// The width in terminal columns of a string with these characters.
pub uninterp spec fn display_width(s: Seq<char>) -> nat;

/// `UnicodeWidthStr::width` from the `unicode-width` crate: the number of
/// terminal columns the string takes. The contract names the result and
/// states the crate's rule for printable ASCII, one column a character; the
/// crate's width tables for the rest are not written out.
#[verifier::external_body]
fn unicode_width(s: &str) -> (r: usize)
    ensures
        r as nat == display_width(s@),
        printable_ascii(s@) ==> r == s@.len(),
{
    unicode_width::UnicodeWidthStr::width(s)
}

fn push_spaces(s: &mut String, n: usize)
    ensures
        final(s)@ == old(s)@ + spaces(n as nat),
{
    let mut i: usize = 0;
    while i < n
        invariant
            0 <= i <= n,
            s@ == old(s)@ + spaces(i as nat),
        decreases n - i,
    {
        push_char(s, ' ');
        proof {
            assert(spaces((i + 1) as nat) =~= spaces(i as nat).push(' '));
        }
        i = i + 1;
    }
}

/// Every character is printable ASCII, from space to tilde.
pub open spec fn printable_ascii(s: Seq<char>) -> bool {
    forall|i: int| 0 <= i < s.len() ==> 0x20 <= (#[trigger] s[i]) as u32 <= 0x7e
}

/// `s` centred in `width` columns: the padding is split in two, the extra
/// column (if any) on the right. Text already as wide as `width` is kept as is.
pub open spec fn padded_center(s: Seq<char>, width: nat) -> Seq<char> {
    padded_center_of_width(s, display_width(s), width)
}

/// `s`, `w` columns wide, centred in `width` columns.
pub open spec fn padded_center_of_width(s: Seq<char>, w: nat, width: nat) -> Seq<char> {
    if w >= width {
        s
    } else {
        let padding = (width - w) as nat;
        let left = padding / 2;
        spaces(left) + s + spaces((padding - left) as nat)
    }
}

/// Centres `s` in `width` terminal columns.
pub fn pad_center(s: &str, width: usize) -> (r: String)
    ensures
        r@ == padded_center(s@, width as nat),
        printable_ascii(s@) ==> r@ == padded_center_of_width(s@, s@.len(), width as nat),
{
    let w = unicode_width(s);
    if w >= width {
        return s.to_string();
    }
    let padding = width - w;
    let left = padding / 2;
    let right = padding - left;
    let mut r = String::new();
    push_spaces(&mut r, left);
    r.append(s);
    push_spaces(&mut r, right);
    r
}

/// How long ago something happened, as shown to users.
#[derive(Debug, Clone, Copy, PartialEq, Eq, Structural)]
pub enum HumanDuration {
    /// less than a minute
    Now,
    Minutes(i64),
    Hours(i64),
    Days(i64),
}

/// The shown form of a time span of `seconds`: under a minute is now, then
/// whole minutes under an hour, whole hours under two days, whole days.
pub open spec fn spec_humanize(seconds: int) -> HumanDuration {
    if seconds < 60 {
        HumanDuration::Now
    } else if seconds / 60 < 60 {
        HumanDuration::Minutes((seconds / 60) as i64)
    } else if seconds / 3600 < 48 {
        HumanDuration::Hours((seconds / 3600) as i64)
    } else {
        HumanDuration::Days((seconds / 86400) as i64)
    }
}

/// How a time span of `seconds` is shown.
pub fn humanize_duration(seconds: i64) -> (r: HumanDuration)
    ensures
        r == spec_humanize(seconds as int),
{
    if seconds < 60 {
        return HumanDuration::Now;
    }
    if seconds / 60 < 60 {
        return HumanDuration::Minutes(seconds / 60);
    }
    if seconds / 3600 < 48 {
        return HumanDuration::Hours(seconds / 3600);
    }
    HumanDuration::Days(seconds / 86400)
}

impl HumanDuration {
    /// The shown text: `now`, or the count and its unit, like `5m`.
    pub open spec fn spec_text(self) -> Seq<char> {
        match self {
            HumanDuration::Now => "now"@,
            HumanDuration::Minutes(n) => signed_decimal(n as int) + seq!['m'],
            HumanDuration::Hours(n) => signed_decimal(n as int) + seq!['h'],
            HumanDuration::Days(n) => signed_decimal(n as int) + seq!['d'],
        }
    }

    /// What follows the text: ` ago` after a count, nothing after `now`.
    pub open spec fn spec_suffix(self) -> Seq<char> {
        match self {
            HumanDuration::Now => Seq::empty(),
            _ => " ago"@,
        }
    }

    pub fn suffix(&self) -> (r: &'static str)
        ensures
            r@ == self.spec_suffix(),
    {
        proof {
            reveal_strlit("");
            assert(""@ =~= Seq::<char>::empty());
        }
        match self {
            HumanDuration::Now => "",
            _ => " ago",
        }
    }

    pub fn text(&self) -> (r: String)
        ensures
            r@ == self.spec_text(),
    {
        let mut s = String::new();
        match self {
            HumanDuration::Now => {
                s.append("now");
            },
            HumanDuration::Minutes(n) => {
                push_signed_decimal(&mut s, *n);
                push_char(&mut s, 'm');
            },
            HumanDuration::Hours(n) => {
                push_signed_decimal(&mut s, *n);
                push_char(&mut s, 'h');
            },
            HumanDuration::Days(n) => {
                push_signed_decimal(&mut s, *n);
                push_char(&mut s, 'd');
            },
        }
        s
    }
}

/// When a node was last heard, as shown in lists.
#[derive(Debug, Clone, Copy, PartialEq, Eq, Structural)]
pub enum LastHeard {
    /// the user's own node, always current
    Mine,
    Ago(HumanDuration),
    Unknown,
}

/// `x` clamped to the range of `i64`.
pub open spec fn clamp_i64(x: int) -> int {
    if x > i64::MAX {
        i64::MAX as int
    } else if x < i64::MIN {
        i64::MIN as int
    } else {
        x
    }
}

/// How a node last heard at `last_heard` is shown at time `now` (Unix
/// seconds); `my` marks the user's own node.
pub fn last_heard_label(last_heard: Option<i64>, my: bool, now: i64) -> (r: LastHeard)
    ensures
        last_heard is None ==> r == LastHeard::Unknown,
        last_heard is Some && my ==> r == LastHeard::Mine,
        last_heard matches Some(t) ==> (!my ==> r == LastHeard::Ago(spec_humanize(clamp_i64(now - t)))),
{
    match last_heard {
        Some(_) if my => LastHeard::Mine,
        Some(t) => {
            let delta: i128 = now as i128 - t as i128;
            let clamped: i64 = if delta > i64::MAX as i128 {
                i64::MAX
            } else if delta < i64::MIN as i128 {
                i64::MIN
            } else {
                delta as i64
            };
            LastHeard::Ago(humanize_duration(clamped))
        },
        None => LastHeard::Unknown,
    }
}

/// The colour class of a signal measure.
#[derive(Debug, Clone, Copy, PartialEq, Eq, Structural)]
pub enum SignalLevel {
    /// shown red
    Bad,
    /// shown yellow
    Fair,
    /// shown green
    Good,
}

/// The class of a received signal strength in dBm: below -100 is bad, below
/// -85 fair, the rest good.
pub fn rssi_level(rssi: i32) -> (r: SignalLevel)
    ensures
        rssi < -100 ==> r == SignalLevel::Bad,
        -100 <= rssi < -85 ==> r == SignalLevel::Fair,
        -85 <= rssi ==> r == SignalLevel::Good,
{
    if rssi < -100 {
        SignalLevel::Bad
    } else if rssi < -85 {
        SignalLevel::Fair
    } else {
        SignalLevel::Good
    }
}

/// The class of a channel key length: no key is bad, the one byte default
/// key fair, a real key good.
pub fn psk_len_level(len: usize) -> (r: SignalLevel)
    ensures
        len == 0 ==> r == SignalLevel::Bad,
        len == 1 ==> r == SignalLevel::Fair,
        len > 1 ==> r == SignalLevel::Good,
{
    if len == 0 {
        SignalLevel::Bad
    } else if len == 1 {
        SignalLevel::Fair
    } else {
        SignalLevel::Good
    }
}

/// How the route to a node or a message's sender is shown.
#[derive(Debug, Clone, Copy, PartialEq, Eq, Structural)]
pub enum HopsLabel {
    /// the user's own node
    MyNode,
    /// heard directly: the signal to noise ratio is shown, with the signal
    /// strength when it is known
    Direct { rssi: Option<i32> },
    OneHop,
    Hops(u32),
    Unknown,
}

impl HopsLabel {
    /// The signal strength shown after the signal to noise ratio of a
    /// direct route: a slash, then the strength and `dbm`; nothing when the
    /// strength is unknown or the route is not direct.
    pub open spec fn spec_rssi_parts(self) -> Seq<Seq<char>> {
        match self {
            HopsLabel::Direct { rssi: Some(r) } => seq![seq!['/'], signed_decimal(r as int) + "dbm"@],
            _ => Seq::empty(),
        }
    }

    pub fn rssi_parts(&self) -> (r: Vec<String>)
        ensures
            views(r@) == self.spec_rssi_parts(),
    {
        let mut r: Vec<String> = Vec::new();
        match self {
            HopsLabel::Direct { rssi: Some(x) } => {
                let mut slash = String::new();
                push_char(&mut slash, '/');
                let mut strength = String::new();
                push_signed_decimal(&mut strength, *x as i64);
                strength.append("dbm");
                r.push(slash);
                r.push(strength);
                proof {
                    assert(Seq::<char>::empty().push('/') =~= seq!['/']);
                    assert(views(r@) =~= self.spec_rssi_parts());
                }
            },
            _ => {
                assert(views(r@) =~= self.spec_rssi_parts());
            },
        }
        r
    }

    /// The text of the label: `my node`, `1 hop`, `N hops` or `unknown`;
    /// `None` for a direct route, shown by its signal to noise ratio.
    pub open spec fn spec_text(self) -> Option<Seq<char>> {
        match self {
            HopsLabel::MyNode => Some("my node"@),
            HopsLabel::Direct { .. } => None,
            HopsLabel::OneHop => Some("1 hop"@),
            HopsLabel::Hops(h) => Some(decimal_digits(h as nat) + " hops"@),
            HopsLabel::Unknown => Some("unknown"@),
        }
    }

    pub fn text(&self) -> (r: Option<String>)
        ensures
            match self.spec_text() {
                Some(t) => r matches Some(s) && s@ == t,
                None => r is None,
            },
    {
        match self {
            HopsLabel::MyNode => Some("my node".to_string()),
            HopsLabel::Direct { .. } => None,
            HopsLabel::OneHop => Some("1 hop".to_string()),
            HopsLabel::Hops(h) => {
                let mut s = String::new();
                push_decimal(&mut s, *h as u64);
                s.append(" hops");
                Some(s)
            },
            HopsLabel::Unknown => Some("unknown".to_string()),
        }
    }
}

/// How a route of `hops` hops with signal strength `rssi` is shown; `my`
/// marks the user's own node.
pub fn hops_label(hops: Option<u32>, rssi: Option<i32>, my: bool) -> (r: HopsLabel)
    ensures
        my ==> r == HopsLabel::MyNode,
        !my && hops == Some(0u32) ==> r == (HopsLabel::Direct { rssi }),
        !my && hops == Some(1u32) ==> r == HopsLabel::OneHop,
        hops matches Some(h) ==> (!my && h > 1 ==> r == HopsLabel::Hops(h)),
        !my && hops is None ==> r == HopsLabel::Unknown,
{
    if my {
        return HopsLabel::MyNode;
    }
    match hops {
        Some(0) => HopsLabel::Direct { rssi },
        Some(1) => HopsLabel::OneHop,
        Some(h) => HopsLabel::Hops(h),
        None => HopsLabel::Unknown,
    }
}

/// How the delivery of a sent message stands.
#[derive(Debug, Clone, PartialEq)]
pub enum DeliveryLabel {
    /// no answer yet
    Sent,
    /// acknowledged by the mesh
    Acked,
    /// refused, with the protocol name of the error (or its code when the
    /// code is unknown)
    Failed(String),
}

/// The routing error code that means success.
pub const ROUTING_ERROR_NONE: i32 = 0;

/// How a message with routing answer `error` (a routing error code) is shown.
pub fn delivery_label(error: Option<i32>) -> (r: DeliveryLabel)
    ensures
        error is None ==> r == DeliveryLabel::Sent,
        error == Some(ROUTING_ERROR_NONE) ==> r == DeliveryLabel::Acked,
        error matches Some(e) ==> (e != ROUTING_ERROR_NONE ==> (r matches DeliveryLabel::Failed(t)
            && t@ == match routing_error_str_name(e) {
            Some(n) => n,
            None => signed_decimal(e as int),
        })),
{
    match error {
        None => DeliveryLabel::Sent,
        Some(e) => {
            if e == ROUTING_ERROR_NONE {
                DeliveryLabel::Acked
            } else {
                match routing_error_name(e) {
                    Some(n) => DeliveryLabel::Failed(n),
                    None => {
                        let mut s = String::new();
                        push_signed_decimal(&mut s, e as i64);
                        DeliveryLabel::Failed(s)
                    },
                }
            }
        },
    }
}

/// The lower case of an upper case ASCII letter; other characters unchanged.
pub open spec fn ascii_lower(c: char) -> char {
    if 'A' <= c <= 'Z' {
        ((c as u32) + 32) as char
    } else {
        c
    }
}

/// The upper case of a lower case ASCII letter; other characters unchanged.
pub open spec fn ascii_upper(c: char) -> char {
    if 'a' <= c <= 'z' {
        ((c as u32) - 32) as char
    } else {
        c
    }
}

/// The channel name a protocol name stands for: the words between
/// underscores, each with an upper case first letter and the rest in lower
/// case, written together (`LONG_FAST` is `LongFast`).
pub open spec fn channel_name_of(name: Seq<char>) -> Seq<char>
    decreases name.len(),
{
    if name.len() == 0 {
        Seq::empty()
    } else {
        let prev = channel_name_of(name.drop_last());
        let c = name.last();
        if c == '_' {
            prev
        } else if name.len() == 1 || name[name.len() - 2] == '_' {
            prev.push(ascii_upper(ascii_lower(c)))
        } else {
            prev.push(ascii_lower(c))
        }
    }
}

fn to_ascii_lower(c: char) -> (r: char)
    ensures
        r == ascii_lower(c),
{
    if 'A' <= c && c <= 'Z' {
        ((c as u8) + 32) as char
    } else {
        c
    }
}

fn to_ascii_upper(c: char) -> (r: char)
    ensures
        r == ascii_upper(c),
{
    if 'a' <= c && c <= 'z' {
        ((c as u8) - 32) as char
    } else {
        c
    }
}

/// The channel name of a protocol name made of letters, digits and underscores.
pub fn channel_name_from_preset_name(name: &str) -> (r: String)
    requires
        forall|i: int| 0 <= i < name@.len() ==> is_protocol_name_char(#[trigger] name@[i]),
    ensures
        r@ == channel_name_of(name@),
{
    let len = name.unicode_len();
    let mut r = String::new();
    let mut i: usize = 0;
    while i < len
        invariant
            0 <= i <= len,
            len == name@.len(),
            r@ == channel_name_of(name@.take(i as int)),
        decreases len - i,
    {
        let c = name.get_char(i);
        proof {
            assert(name@.take(i + 1).drop_last() =~= name@.take(i as int));
            assert(name@.take(i + 1).last() == c);
            if i > 0 {
                assert(name@.take(i + 1)[i - 1] == name@[i - 1]);
            }
        }
        if c != '_' {
            let lower = to_ascii_lower(c);
            if i == 0 || name.get_char(i - 1) == '_' {
                push_char(&mut r, to_ascii_upper(lower));
            } else {
                push_char(&mut r, lower);
            }
        }
        i = i + 1;
    }
    proof {
        assert(name@.take(len as int) =~= name@);
    }
    r
}

/// The channel name of the modem preset with code `code` (the name of its
/// protocol name, see `channel_name_of`), or `None` for an unknown preset.
pub fn modem_preset_channel_name(code: i32) -> (r: Option<String>)
    ensures
        r is None <==> modem_preset_str_name(code) is None,
        r matches Some(s) ==> s@ == channel_name_of(modem_preset_str_name(code).unwrap()),
{
    match modem_preset_name(code) {
        Some(n) => Some(channel_name_from_preset_name(n.as_str())),
        None => None,
    }
}

} // verus!
