use vstd::prelude::*;

verus! {

/// Vendor ID of the Microsoft Xbox 360 Controller, which the virtual
/// controllers present (required for the xusb22.sys binding).
pub const XBOX360_VID: u16 = 0x045E;

/// Product ID of the Microsoft Xbox 360 Controller.
pub const XBOX360_PID: u16 = 0x028E;

/// Why a "VID:PID" filter entry was not accepted.
#[derive(Clone, Copy, Debug, PartialEq, Eq, Structural)]
pub enum DeviceFilterError {
    /// The entry has no ':' between the two IDs.
    MissingSeparator,
    /// One of the IDs is not a hexadecimal number that fits in 16 bits.
    InvalidHex,
}

/// What to do with a gamepad that was just connected.
#[derive(Clone, Copy, Debug, PartialEq, Eq, Structural)]
pub enum Admission {
    /// Its VID:PID is on the block list (e.g. one of our own virtual pads).
    Blocked,
    /// The maximum number of active controllers is reached.
    LimitReached,
    /// It already has a session.
    AlreadyActive,
    /// Open it and give it a virtual controller.
    Open,
}

/// The value of a hexadecimal digit ('0'-'9', 'a'-'f', 'A'-'F'), or -1.
pub open spec fn spec_hex_digit(c: char) -> int {
    if '0' <= c <= '9' {
        c as int - '0' as int
    } else if 'a' <= c <= 'f' {
        c as int - 'a' as int + 10
    } else if 'A' <= c <= 'F' {
        c as int - 'A' as int + 10
    } else {
        -1
    }
}

/// Whether every character is a hexadecimal digit.
pub open spec fn spec_all_hex(s: Seq<char>) -> bool {
    forall|i: int| 0 <= i < s.len() ==> spec_hex_digit(#[trigger] s[i]) >= 0
}

/// The number that hexadecimal digits spell, most significant first.
pub open spec fn spec_hex_value(s: Seq<char>) -> int
    decreases s.len(),
{
    if s.len() == 0 {
        0
    } else {
        spec_hex_value(s.drop_last()) * 16 + spec_hex_digit(s.last())
    }
}

/// `u16::from_str_radix(s, 16)`: an optional '+' and then one or more
/// hexadecimal digits whose value fits in 16 bits.
pub open spec fn spec_parse_hex_u16(s: Seq<char>) -> Option<u16> {
    let digits = if s.len() > 0 && s[0] == '+' { s.drop_first() } else { s };
    if digits.len() == 0 || !spec_all_hex(digits) || spec_hex_value(digits) > u16::MAX {
        None
    } else {
        Some(spec_hex_value(digits) as u16)
    }
}

/// `s` without its leading "0x" prefixes (all of them, as
/// `str::trim_start_matches("0x")` removes).
pub open spec fn spec_strip_hex_prefix(s: Seq<char>) -> Seq<char>
    decreases s.len(),
{
    if s.len() >= 2 && s[0] == '0' && s[1] == 'x' {
        spec_strip_hex_prefix(s.subrange(2, s.len() as int))
    } else {
        s
    }
}

/// The index of the first ':' in `s`, if any.
pub open spec fn spec_first_colon(s: Seq<char>) -> Option<int>
    decreases s.len(),
{
    if s.len() == 0 {
        None
    } else {
        match spec_first_colon(s.drop_last()) {
            Some(k) => Some(k),
            None => if s.last() == ':' {
                Some(s.len() - 1)
            } else {
                None
            },
        }
    }
}

/// A "VID:PID" filter entry: the text up to the first ':' and the text after
/// it, each with leading "0x" prefixes removed, as 16-bit hexadecimal numbers.
pub open spec fn spec_parse_filter_device(s: Seq<char>) -> Result<(u16, u16), DeviceFilterError> {
    match spec_first_colon(s) {
        None => Err(DeviceFilterError::MissingSeparator),
        Some(k) => {
            let vid = spec_parse_hex_u16(spec_strip_hex_prefix(s.subrange(0, k)));
            let pid = spec_parse_hex_u16(spec_strip_hex_prefix(s.subrange(k + 1, s.len() as int)));
            if vid is Some && pid is Some {
                Ok((vid->0, pid->0))
            } else {
                Err(DeviceFilterError::InvalidHex)
            }
        },
    }
}

/// `known` extended, in order, by each accepted entry of `raw` that it does
/// not hold yet.
pub open spec fn spec_collect_devices(known: Seq<(u16, u16)>, raw: Seq<String>) -> Seq<(u16, u16)>
    decreases raw.len(),
{
    if raw.len() == 0 {
        known
    } else {
        let prev = spec_collect_devices(known, raw.drop_last());
        match spec_parse_filter_device(raw.last()@) {
            Ok(p) => if prev.contains(p) {
                prev
            } else {
                prev.push(p)
            },
            Err(_) => prev,
        }
    }
}

/// The block list at start-up: the Xbox 360 VID:PID unless the filter starts
/// empty, then every accepted "VID:PID" entry.
pub open spec fn spec_initial_blocked(empty_device_filter: bool, raw: Seq<String>) -> Seq<(u16, u16)> {
    let base: Seq<(u16, u16)> = if empty_device_filter {
        Seq::empty()
    } else {
        seq![(XBOX360_VID, XBOX360_PID)]
    };
    spec_collect_devices(base, raw)
}

/// What becomes of a connected gamepad: blocked devices are ignored first,
/// then anything over the controller limit, then devices that already have a
/// session; the rest are opened.
pub open spec fn spec_admit_device(
    vid: u16,
    pid: u16,
    blocked: Seq<(u16, u16)>,
    active: usize,
    max_controllers: usize,
    already_active: bool,
) -> Admission {
    if blocked.contains((vid, pid)) {
        Admission::Blocked
    } else if active >= max_controllers {
        Admission::LimitReached
    } else if already_active {
        Admission::AlreadyActive
    } else {
        Admission::Open
    }
}

/// The characters of a string.
pub fn chars_of(s: &str) -> (v: Vec<char>)
    ensures
        v@ == s@,
{
    let n = s.unicode_len();
    let mut v: Vec<char> = Vec::new();
    let mut i: usize = 0;
    while i < n
        invariant
            n == s@.len(),
            i <= n,
            v@ == s@.take(i as int),
        decreases n - i,
    {
        v.push(s.get_char(i));
        i = i + 1;
        assert(v@ =~= s@.take(i as int));
    }
    assert(s@.take(n as int) =~= s@);
    v
}

/// The value of one hexadecimal digit, if `c` is one.
fn hex_digit(c: char) -> (d: Option<u32>)
    ensures
        spec_hex_digit(c) >= 0 ==> d == Some(spec_hex_digit(c) as u32),
        spec_hex_digit(c) < 0 ==> d is None,
{
    if '0' <= c && c <= '9' {
        Some((c as u32) - ('0' as u32))
    } else if 'a' <= c && c <= 'f' {
        Some((c as u32) - ('a' as u32) + 10)
    } else if 'A' <= c && c <= 'F' {
        Some((c as u32) - ('A' as u32) + 10)
    } else {
        None
    }
}

/// A longer run of hexadecimal digits never spells a smaller number.
proof fn lemma_hex_value_prefix(s: Seq<char>, k: int)
    requires
        spec_all_hex(s),
        0 <= k <= s.len(),
    ensures
        0 <= spec_hex_value(s.take(k)) <= spec_hex_value(s),
    decreases s.len(),
{
    if s.len() > 0 {
        let init = s.drop_last();
        assert(spec_all_hex(init)) by {
            assert forall|i: int| 0 <= i < init.len() implies spec_hex_digit(#[trigger] init[i]) >= 0 by {
                assert(init[i] == s[i]);
            }
        }
        assert(spec_hex_digit(s[s.len() - 1]) >= 0);
        if k < s.len() {
            lemma_hex_value_prefix(init, k);
            assert(init.take(k) =~= s.take(k));
        } else {
            lemma_hex_value_prefix(init, 0);
            assert(s.take(k) =~= s);
        }
    } else {
        assert(s.take(k) =~= s);
    }
}

/// `u16::from_str_radix` in base 16 on the characters `v[lo..hi]`.
fn parse_hex_u16(v: &Vec<char>, lo: usize, hi: usize) -> (r: Option<u16>)
    requires
        lo <= hi <= v@.len(),
    ensures
        r == spec_parse_hex_u16(v@.subrange(lo as int, hi as int)),
{
    let ghost s = v@.subrange(lo as int, hi as int);
    let mut start = lo;
    if lo < hi && v[lo] == '+' {
        start = lo + 1;
    }
    let ghost digits = v@.subrange(start as int, hi as int);
    assert(digits =~= (if s.len() > 0 && s[0] == '+' { s.drop_first() } else { s }));
    if start == hi {
        return None;
    }
    let mut acc: u32 = 0;
    let mut i = start;
    assert(digits.take(0) =~= Seq::<char>::empty());
    while i < hi
        invariant
            lo <= start <= i <= hi <= v@.len(),
            start < hi,
            s == v@.subrange(lo as int, hi as int),
            digits == v@.subrange(start as int, hi as int),
            digits == (if s.len() > 0 && s[0] == '+' { s.drop_first() } else { s }),
            spec_all_hex(digits.take(i - start)),
            acc == spec_hex_value(digits.take(i - start)),
            acc <= 0xFFFF,
        decreases hi - i,
    {
        let ghost k = i - start;
        assert(digits[k] == v@[i as int]);
        assert(digits.take(k + 1).drop_last() =~= digits.take(k));
        match hex_digit(v[i]) {
            None => {
                assert(!spec_all_hex(digits));
                return None;
            },
            Some(d) => {
                let next = acc * 16 + d;
                assert(spec_all_hex(digits.take(k + 1))) by {
                    assert forall|j: int| 0 <= j < k + 1 implies spec_hex_digit(
                        #[trigger] digits.take(k + 1)[j],
                    ) >= 0 by {
                        if j < k {
                            assert(digits.take(k + 1)[j] == digits.take(k)[j]);
                        }
                    }
                }
                if next > 0xFFFF {
                    proof {
                        if spec_all_hex(digits) {
                            lemma_hex_value_prefix(digits, k + 1);
                        }
                    }
                    return None;
                }
                acc = next;
            },
        }
        i = i + 1;
    }
    assert(digits.take(hi - start) =~= digits);
    Some(acc as u16)
}

/// The index just past the leading "0x" prefixes of `v[lo..hi]`.
fn strip_hex_prefix(v: &Vec<char>, lo: usize, hi: usize) -> (start: usize)
    requires
        lo <= hi <= v@.len(),
    ensures
        lo <= start <= hi,
        v@.subrange(start as int, hi as int) == spec_strip_hex_prefix(
            v@.subrange(lo as int, hi as int),
        ),
{
    let mut start = lo;
    while hi - start >= 2 && v[start] == '0' && v[start + 1] == 'x'
        invariant
            lo <= start <= hi <= v@.len(),
            spec_strip_hex_prefix(v@.subrange(start as int, hi as int)) == spec_strip_hex_prefix(
                v@.subrange(lo as int, hi as int),
            ),
        decreases hi - start,
    {
        let ghost s = v@.subrange(start as int, hi as int);
        assert(s.subrange(2, s.len() as int) =~= v@.subrange(start + 2, hi as int));
        start = start + 2;
    }
    start
}

/// The index of the first ':' in `v`.
fn first_colon(v: &Vec<char>) -> (r: Option<usize>)
    ensures
        match spec_first_colon(v@) {
            Some(k) => r == Some(k as usize),
            None => r is None,
        },
        spec_first_colon(v@) matches Some(k) ==> 0 <= k < v@.len(),
{
    let mut i: usize = 0;
    assert(v@.take(0) =~= Seq::<char>::empty());
    while i < v.len()
        invariant
            i <= v@.len(),
            spec_first_colon(v@.take(i as int)) is None,
        decreases v@.len() - i,
    {
        assert(v@.take(i + 1).drop_last() =~= v@.take(i as int));
        if v[i] == ':' {
            proof {
                lemma_first_colon_extends(v@, i as int);
            }
            return Some(i);
        }
        i = i + 1;
    }
    assert(v@.take(v@.len() as int) =~= v@);
    None
}

/// A ':' at `i` with none before it is the first ':' of the whole text.
proof fn lemma_first_colon_extends(s: Seq<char>, i: int)
    requires
        0 <= i < s.len(),
        s[i] == ':',
        spec_first_colon(s.take(i)) is None,
    ensures
        spec_first_colon(s) == Some(i),
    decreases s.len(),
{
    if s.len() - 1 > i {
        assert(s.drop_last().take(i) =~= s.take(i));
        lemma_first_colon_extends(s.drop_last(), i);
    } else {
        assert(s.drop_last() =~= s.take(i));
    }
}

/// Parses one "VID:PID" filter entry (hex, e.g. "045E:028E"; a "0x" prefix
/// on either ID is accepted).
pub fn parse_filter_device(s: &str) -> (r: Result<(u16, u16), DeviceFilterError>)
    ensures
        r == spec_parse_filter_device(s@),
{
    let v = chars_of(s);
    let colon = match first_colon(&v) {
        None => return Err(DeviceFilterError::MissingSeparator),
        Some(k) => k,
    };
    let vid_start = strip_hex_prefix(&v, 0, colon);
    let vid = parse_hex_u16(&v, vid_start, colon);
    let pid_start = strip_hex_prefix(&v, colon + 1, v.len());
    let pid = parse_hex_u16(&v, pid_start, v.len());
    match (vid, pid) {
        (Some(vid), Some(pid)) => Ok((vid, pid)),
        _ => Err(DeviceFilterError::InvalidHex),
    }
}

/// Whether `devices` holds the pair.
fn contains_device(devices: &Vec<(u16, u16)>, p: (u16, u16)) -> (r: bool)
    ensures
        r == devices@.contains(p),
{
    let mut i: usize = 0;
    while i < devices.len()
        invariant
            i <= devices@.len(),
            forall|j: int| 0 <= j < i ==> devices@[j] != p,
        decreases devices@.len() - i,
    {
        if devices[i].0 == p.0 && devices[i].1 == p.1 {
            assert(devices@[i as int] == p);
            return true;
        }
        i = i + 1;
    }
    false
}

/// Adds each accepted entry of `raw` that `devices` does not hold yet.
fn extend_devices(devices: &mut Vec<(u16, u16)>, raw: &Vec<String>)
    ensures
        final(devices)@ == spec_collect_devices(old(devices)@, raw@),
{
    let ghost known = devices@;
    let mut i: usize = 0;
    assert(raw@.take(0) =~= Seq::<String>::empty());
    while i < raw.len()
        invariant
            i <= raw@.len(),
            devices@ == spec_collect_devices(known, raw@.take(i as int)),
        decreases raw@.len() - i,
    {
        assert(raw@.take(i + 1).drop_last() =~= raw@.take(i as int));
        match parse_filter_device(raw[i].as_str()) {
            Ok(p) => {
                if !contains_device(devices, p) {
                    devices.push(p);
                }
            },
            Err(_) => {},
        }
        i = i + 1;
    }
    assert(raw@.take(raw@.len() as int) =~= raw@);
}

/// Parses "VID:PID" hex strings (e.g. "045E:028E") into distinct (VID, PID)
/// pairs, in the order they first appear; malformed entries are skipped.
pub fn parse_filter_devices(raw: &Vec<String>) -> (devices: Vec<(u16, u16)>)
    ensures
        devices@ == spec_collect_devices(Seq::empty(), raw@),
{
    let mut devices: Vec<(u16, u16)> = Vec::new();
    extend_devices(&mut devices, raw);
    devices
}

/// The block list at start-up: the Xbox 360 VID:PID (so that our own virtual
/// controllers are ignored) unless `empty_device_filter`, extended by the
/// "VID:PID" entries given.
pub fn initial_blocked_devices(empty_device_filter: bool, filter_devices: &Vec<String>) -> (blocked: Vec<(u16, u16)>)
    ensures
        blocked@ == spec_initial_blocked(empty_device_filter, filter_devices@),
{
    let mut blocked: Vec<(u16, u16)> = Vec::new();
    if !empty_device_filter {
        blocked.push((XBOX360_VID, XBOX360_PID));
    }
    proof {
        let base: Seq<(u16, u16)> = if empty_device_filter {
            Seq::empty()
        } else {
            seq![(XBOX360_VID, XBOX360_PID)]
        };
        assert(blocked@ =~= base);
    }
    extend_devices(&mut blocked, filter_devices);
    blocked
}

/// Decides what to do with a gamepad that was just connected.
pub fn admit_device(
    vid: u16,
    pid: u16,
    blocked: &Vec<(u16, u16)>,
    active: usize,
    max_controllers: usize,
    already_active: bool,
) -> (a: Admission)
    ensures
        a == spec_admit_device(vid, pid, blocked@, active, max_controllers, already_active),
{
    if contains_device(blocked, (vid, pid)) {
        Admission::Blocked
    } else if active >= max_controllers {
        Admission::LimitReached
    } else if already_active {
        Admission::AlreadyActive
    } else {
        Admission::Open
    }
}

/// The polling period in microseconds for a polling rate in Hz.
pub fn tick_micros(polling_rate: u32) -> (micros: u64)
    requires
        polling_rate > 0,
    ensures
        micros == 1_000_000int / (polling_rate as int),
{
    1_000_000u64 / (polling_rate as u64)
}

/// Collecting keeps what was known, adds exactly the accepted entries, and
/// never holds a pair twice when the known pairs were distinct.
pub proof fn lemma_collect_devices(known: Seq<(u16, u16)>, raw: Seq<String>)
    requires
        known.no_duplicates(),
    ensures
        spec_collect_devices(known, raw).no_duplicates(),
        forall|p: (u16, u16)|
            #![trigger spec_collect_devices(known, raw).contains(p)]
            spec_collect_devices(known, raw).contains(p) <==> (known.contains(p) || exists|i: int|
                0 <= i < raw.len() && spec_parse_filter_device((#[trigger] raw[i])@) == Ok::<
                    (u16, u16),
                    DeviceFilterError,
                >(p)),
    decreases raw.len(),
{
    if raw.len() > 0 {
        let init = raw.drop_last();
        lemma_collect_devices(known, init);
        let prev = spec_collect_devices(known, init);
        let last = raw[raw.len() - 1];
        assert(raw.last() == last);
        match spec_parse_filter_device(last@) {
            Ok(q) => {
                if !prev.contains(q) {
                    let next = prev.push(q);
                    assert forall|p: (u16, u16)| next.contains(p) <==> (prev.contains(p) || p == q) by {
                        if p == q {
                            assert(next[prev.len() as int] == q);
                        }
                        if prev.contains(p) {
                            let k = choose|k: int| 0 <= k < prev.len() && prev[k] == p;
                            assert(next[k] == p);
                        }
                        if next.contains(p) {
                            let k = choose|k: int| 0 <= k < next.len() && next[k] == p;
                            if k < prev.len() {
                                assert(prev[k] == p);
                            }
                        }
                    }
                    assert forall|a: int, b: int| 0 <= a < b < next.len() implies next[a] != next[b] by {
                        if b == prev.len() {
                            assert(next[a] == prev[a]);
                        }
                    }
                }
            },
            Err(_) => {},
        }
        assert forall|p: (u16, u16)|
            #![trigger spec_collect_devices(known, raw).contains(p)]
            spec_collect_devices(known, raw).contains(p) <==> (known.contains(p) || exists|i: int|
                0 <= i < raw.len() && spec_parse_filter_device((#[trigger] raw[i])@) == Ok::<
                    (u16, u16),
                    DeviceFilterError,
                >(p)) by {
            assert(prev.contains(p) <==> (known.contains(p) || exists|i: int|
                0 <= i < init.len() && spec_parse_filter_device((#[trigger] init[i])@) == Ok::<
                    (u16, u16),
                    DeviceFilterError,
                >(p)));
            if exists|i: int|
                0 <= i < init.len() && spec_parse_filter_device((#[trigger] init[i])@) == Ok::<
                    (u16, u16),
                    DeviceFilterError,
                >(p) {
                let i = choose|i: int|
                    0 <= i < init.len() && spec_parse_filter_device((#[trigger] init[i])@) == Ok::<
                        (u16, u16),
                        DeviceFilterError,
                    >(p);
                assert(raw[i] == init[i]);
            }
            if exists|i: int|
                0 <= i < raw.len() && spec_parse_filter_device((#[trigger] raw[i])@) == Ok::<
                    (u16, u16),
                    DeviceFilterError,
                >(p) {
                let i = choose|i: int|
                    0 <= i < raw.len() && spec_parse_filter_device((#[trigger] raw[i])@) == Ok::<
                        (u16, u16),
                        DeviceFilterError,
                    >(p);
                if i < raw.len() - 1 {
                    assert(init[i] == raw[i]);
                }
            }
        }
    }
}

/// The filter list behaves as a set: no pair twice, and a pair is in it
/// exactly when some entry parses to it.
pub proof fn law_filter_devices_is_set(raw: Seq<String>)
    ensures
        spec_collect_devices(Seq::empty(), raw).no_duplicates(),
        forall|p: (u16, u16)|
            #![trigger spec_collect_devices(Seq::empty(), raw).contains(p)]
            spec_collect_devices(Seq::empty(), raw).contains(p) <==> exists|i: int|
                0 <= i < raw.len() && spec_parse_filter_device((#[trigger] raw[i])@) == Ok::<
                    (u16, u16),
                    DeviceFilterError,
                >(p),
{
    lemma_collect_devices(Seq::empty(), raw);
}

/// Feedback-loop protection: unless the filter starts empty, the Xbox 360
/// VID:PID that our own virtual controllers present is blocked, so such a
/// controller is never opened, whatever else is filtered or connected.
pub proof fn law_own_virtual_controllers_ignored(
    raw: Seq<String>,
    active: usize,
    max_controllers: usize,
    already_active: bool,
)
    ensures
        spec_admit_device(
            XBOX360_VID,
            XBOX360_PID,
            spec_initial_blocked(false, raw),
            active,
            max_controllers,
            already_active,
        ) == Admission::Blocked,
{
    let base = seq![(XBOX360_VID, XBOX360_PID)];
    assert(base[0] == (XBOX360_VID, XBOX360_PID));
    lemma_collect_devices(base, raw);
    assert(spec_collect_devices(base, raw).contains((XBOX360_VID, XBOX360_PID)));
}

/// The block list is a set: the default pair (unless the filter starts empty)
/// and exactly the pairs that some entry parses to.
pub proof fn law_initial_blocked_is_set(empty_device_filter: bool, raw: Seq<String>)
    ensures
        spec_initial_blocked(empty_device_filter, raw).no_duplicates(),
        forall|p: (u16, u16)|
            #![trigger spec_initial_blocked(empty_device_filter, raw).contains(p)]
            spec_initial_blocked(empty_device_filter, raw).contains(p) <==> ((!empty_device_filter
                && p == (XBOX360_VID, XBOX360_PID)) || exists|i: int|
                0 <= i < raw.len() && spec_parse_filter_device((#[trigger] raw[i])@) == Ok::<
                    (u16, u16),
                    DeviceFilterError,
                >(p)),
{
    let base: Seq<(u16, u16)> = if empty_device_filter {
        Seq::empty()
    } else {
        seq![(XBOX360_VID, XBOX360_PID)]
    };
    lemma_collect_devices(base, raw);
    assert forall|p: (u16, u16)| base.contains(p) <==> (!empty_device_filter && p == (XBOX360_VID, XBOX360_PID)) by {
        if !empty_device_filter && p == (XBOX360_VID, XBOX360_PID) {
            assert(base[0] == p);
        }
    }
}

/// A device is opened only when it is not blocked, has no session yet, and
/// the controller limit leaves room for it.
pub proof fn law_admission_respects_limit(
    vid: u16,
    pid: u16,
    blocked: Seq<(u16, u16)>,
    active: usize,
    max_controllers: usize,
    already_active: bool,
)
    ensures
        spec_admit_device(vid, pid, blocked, active, max_controllers, already_active) == Admission::Open
            <==> (!blocked.contains((vid, pid)) && active < max_controllers && !already_active),
        blocked.contains((vid, pid)) ==> spec_admit_device(
            vid,
            pid,
            blocked,
            active,
            max_controllers,
            already_active,
        ) == Admission::Blocked,
        !blocked.contains((vid, pid)) && active >= max_controllers ==> spec_admit_device(
            vid,
            pid,
            blocked,
            active,
            max_controllers,
            already_active,
        ) == Admission::LimitReached,
        !blocked.contains((vid, pid)) && active < max_controllers && already_active
            ==> spec_admit_device(vid, pid, blocked, active, max_controllers, already_active)
            == Admission::AlreadyActive,
{
}

/// The character that `{:X}` prints for a digit in 0..=15.
pub open spec fn spec_upper_hex_char(d: int) -> char {
    if d < 10 {
        (48 + d) as char
    } else {
        (55 + d) as char
    }
}

/// A 16-bit ID as `{:04X}` prints it: four upper-case hexadecimal digits.
pub open spec fn spec_hex4(v: u16) -> Seq<char> {
    let w = v as int;
    seq![
        spec_upper_hex_char(w / 4096),
        spec_upper_hex_char((w / 256) % 16),
        spec_upper_hex_char((w / 16) % 16),
        spec_upper_hex_char(w % 16),
    ]
}

proof fn lemma_upper_hex_char(d: int)
    requires
        0 <= d < 16,
    ensures
        spec_hex_digit(spec_upper_hex_char(d)) == d,
        spec_upper_hex_char(d) != ':',
        spec_upper_hex_char(d) != 'x',
        spec_upper_hex_char(d) != '+',
{
}

/// A text without ':' has no first ':'.
proof fn lemma_no_colon(s: Seq<char>)
    requires
        forall|i: int| 0 <= i < s.len() ==> s[i] != ':',
    ensures
        spec_first_colon(s) is None,
    decreases s.len(),
{
    if s.len() > 0 {
        let init = s.drop_last();
        assert forall|i: int| 0 <= i < init.len() implies init[i] != ':' by {
            assert(init[i] == s[i]);
        }
        lemma_no_colon(init);
    }
}

/// Four upper-case hex digits parse back to the ID they print.
proof fn lemma_hex4_parses(v: u16)
    ensures
        spec_parse_hex_u16(spec_strip_hex_prefix(spec_hex4(v))) == Some(v),
        forall|i: int| 0 <= i < 4 ==> #[trigger] spec_hex4(v)[i] != ':',
        spec_hex4(v).len() == 4,
{
    let h = spec_hex4(v);
    let w = v as int;
    let d3 = w / 4096;
    let d2 = (w / 256) % 16;
    let d1 = (w / 16) % 16;
    let d0 = w % 16;
    lemma_upper_hex_char(d3);
    lemma_upper_hex_char(d2);
    lemma_upper_hex_char(d1);
    lemma_upper_hex_char(d0);
    assert(h[0] == spec_upper_hex_char(d3));
    assert(h[1] == spec_upper_hex_char(d2));
    assert(h[2] == spec_upper_hex_char(d1));
    assert(h[3] == spec_upper_hex_char(d0));
    assert(spec_strip_hex_prefix(h) == h);
    assert(spec_all_hex(h));
    assert(h.drop_last().drop_last().drop_last().drop_last() =~= Seq::<char>::empty());
    assert(h.drop_last().drop_last().drop_last() =~= seq![h[0]]);
    assert(h.drop_last().drop_last() =~= seq![h[0], h[1]]);
    assert(h.drop_last() =~= seq![h[0], h[1], h[2]]);
    assert(spec_hex_value(seq![h[0]]) == d3) by {
        assert(seq![h[0]].drop_last() =~= Seq::<char>::empty());
        assert(spec_hex_value(Seq::<char>::empty()) == 0);
        assert(seq![h[0]].last() == h[0]);
    }
    assert(spec_hex_value(seq![h[0], h[1]]) == d3 * 16 + d2) by {
        assert(seq![h[0], h[1]].drop_last() =~= seq![h[0]]);
    }
    assert(spec_hex_value(seq![h[0], h[1], h[2]]) == (d3 * 16 + d2) * 16 + d1) by {
        assert(seq![h[0], h[1], h[2]].drop_last() =~= seq![h[0], h[1]]);
    }
    assert(((d3 * 16 + d2) * 16 + d1) * 16 + d0 == w) by (nonlinear_arith)
        requires
            0 <= w < 65536,
            d3 == w / 4096,
            d2 == (w / 256) % 16,
            d1 == (w / 16) % 16,
            d0 == w % 16,
    ;
    assert(spec_hex_value(h) == v);
}

/// Round trip: an ID pair printed as `{:04X}:{:04X}` (as the block list is
/// shown) is accepted as a "VID:PID" filter entry and gives the same pair.
pub proof fn law_filter_entry_roundtrip(vid: u16, pid: u16)
    ensures
        spec_parse_filter_device(spec_hex4(vid) + seq![':'] + spec_hex4(pid)) == Ok::<
            (u16, u16),
            DeviceFilterError,
        >((vid, pid)),
{
    let s = spec_hex4(vid) + seq![':'] + spec_hex4(pid);
    lemma_hex4_parses(vid);
    lemma_hex4_parses(pid);
    assert(s.take(4) =~= spec_hex4(vid));
    lemma_no_colon(s.take(4));
    assert(s[4] == ':');
    lemma_first_colon_extends(s, 4);
    assert(s.subrange(0, 4) =~= spec_hex4(vid));
    assert(s.subrange(5, s.len() as int) =~= spec_hex4(pid));
}


/// A lower-case hex letter 'a'..='f' as its upper-case form; every other
/// character unchanged.
pub open spec fn upper_hex_letter(c: char) -> char {
    if 'a' <= c <= 'f' {
        ((c as int) - 32) as char
    } else {
        c
    }
}

/// `s` with its lower-case hex letters 'a'..='f' upper-cased.
pub open spec fn spec_upper_hex_letters(s: Seq<char>) -> Seq<char>
    decreases s.len(),
{
    if s.len() == 0 {
        Seq::empty()
    } else {
        spec_upper_hex_letters(s.drop_last()).push(upper_hex_letter(s.last()))
    }
}

/// Hex digit values: '0'..='9' are 0..=9, 'A'..='F' are 10..=15, and each
/// lower-case letter 'a'..='f' has the value of its upper-case form; nothing
/// else is a digit.
pub proof fn law_hex_digit_values(c: char)
    ensures
        '0' <= c <= '9' ==> spec_hex_digit(c) == c as int - 48,
        'A' <= c <= 'F' ==> spec_hex_digit(c) == c as int - 55,
        'a' <= c <= 'f' ==> spec_hex_digit(c) == c as int - 87 && spec_hex_digit(c)
            == spec_hex_digit(upper_hex_letter(c)),
        !('0' <= c <= '9' || 'A' <= c <= 'F' || 'a' <= c <= 'f') ==> spec_hex_digit(c) < 0,
{
}

proof fn lemma_upper_char(c: char)
    ensures
        spec_hex_digit(upper_hex_letter(c)) == spec_hex_digit(c),
        (upper_hex_letter(c) == ':') == (c == ':'),
        (upper_hex_letter(c) == '0') == (c == '0'),
        (upper_hex_letter(c) == 'x') == (c == 'x'),
        (upper_hex_letter(c) == '+') == (c == '+'),
{
}

proof fn lemma_upper_facts(s: Seq<char>)
    ensures
        spec_upper_hex_letters(s).len() == s.len(),
        forall|i: int| 0 <= i < s.len() ==> #[trigger] spec_upper_hex_letters(s)[i] == upper_hex_letter(s[i]),
    decreases s.len(),
{
    if s.len() > 0 {
        lemma_upper_facts(s.drop_last());
        let r = spec_upper_hex_letters(s);
        assert forall|i: int| 0 <= i < s.len() implies #[trigger] r[i] == upper_hex_letter(s[i]) by {
            if i < s.len() - 1 {
                assert(s.drop_last()[i] == s[i]);
            }
        }
    }
}

proof fn lemma_upper_subrange(s: Seq<char>, i: int, j: int)
    requires
        0 <= i <= j <= s.len(),
    ensures
        spec_upper_hex_letters(s).subrange(i, j) == spec_upper_hex_letters(s.subrange(i, j)),
{
    lemma_upper_facts(s);
    lemma_upper_facts(s.subrange(i, j));
    assert(spec_upper_hex_letters(s).subrange(i, j) =~= spec_upper_hex_letters(s.subrange(i, j)));
}

proof fn lemma_upper_first_colon(s: Seq<char>)
    ensures
        spec_first_colon(spec_upper_hex_letters(s)) == spec_first_colon(s),
    decreases s.len(),
{
    if s.len() > 0 {
        lemma_upper_first_colon(s.drop_last());
        let u = spec_upper_hex_letters(s);
        lemma_upper_facts(s);
        assert(u.drop_last() =~= spec_upper_hex_letters(s.drop_last()));
        assert(u.last() == upper_hex_letter(s.last()));
        lemma_upper_char(s.last());
    }
}

proof fn lemma_upper_strip(s: Seq<char>)
    ensures
        spec_strip_hex_prefix(spec_upper_hex_letters(s)) == spec_upper_hex_letters(spec_strip_hex_prefix(s)),
    decreases s.len(),
{
    let u = spec_upper_hex_letters(s);
    lemma_upper_facts(s);
    if s.len() >= 2 {
        lemma_upper_char(s[0]);
        lemma_upper_char(s[1]);
    }
    if s.len() >= 2 && s[0] == '0' && s[1] == 'x' {
        lemma_upper_subrange(s, 2, s.len() as int);
        lemma_upper_strip(s.subrange(2, s.len() as int));
    }
}

proof fn lemma_upper_hex_value(s: Seq<char>)
    ensures
        spec_all_hex(spec_upper_hex_letters(s)) == spec_all_hex(s),
        spec_hex_value(spec_upper_hex_letters(s)) == spec_hex_value(s),
    decreases s.len(),
{
    let u = spec_upper_hex_letters(s);
    lemma_upper_facts(s);
    assert forall|i: int| 0 <= i < s.len() implies spec_hex_digit(#[trigger] u[i]) == spec_hex_digit(s[i]) by {
        lemma_upper_char(s[i]);
    }
    if spec_all_hex(s) {
        assert forall|i: int| 0 <= i < u.len() implies spec_hex_digit(#[trigger] u[i]) >= 0 by {
            assert(spec_hex_digit(s[i]) >= 0);
        }
    }
    if spec_all_hex(u) {
        assert forall|i: int| 0 <= i < s.len() implies spec_hex_digit(#[trigger] s[i]) >= 0 by {
            assert(spec_hex_digit(u[i]) >= 0);
        }
    }
    if s.len() > 0 {
        lemma_upper_hex_value(s.drop_last());
        assert(u.drop_last() =~= spec_upper_hex_letters(s.drop_last()));
        lemma_upper_char(s.last());
    }
}

proof fn lemma_upper_parse_hex(s: Seq<char>)
    ensures
        spec_parse_hex_u16(spec_upper_hex_letters(s)) == spec_parse_hex_u16(s),
{
    let u = spec_upper_hex_letters(s);
    lemma_upper_facts(s);
    if s.len() > 0 {
        lemma_upper_char(s[0]);
    }
    if s.len() > 0 && s[0] == '+' {
        lemma_upper_subrange(s, 1, s.len() as int);
        assert(u.drop_first() =~= u.subrange(1, u.len() as int));
        assert(s.drop_first() =~= s.subrange(1, s.len() as int));
        lemma_upper_hex_value(s.drop_first());
    } else {
        lemma_upper_hex_value(s);
    }
}

/// Hex IDs are case-insensitive: a filter entry parses to the same result as
/// the entry with its letters 'a'..='f' upper-cased.
pub proof fn law_filter_entry_case_insensitive(s: Seq<char>)
    ensures
        spec_parse_filter_device(spec_upper_hex_letters(s)) == spec_parse_filter_device(s),
{
    let u = spec_upper_hex_letters(s);
    lemma_upper_facts(s);
    lemma_upper_first_colon(s);
    if let Some(k) = spec_first_colon(s) {
        lemma_first_colon_bound(s);
        lemma_upper_subrange(s, 0, k);
        lemma_upper_subrange(s, k + 1, s.len() as int);
        lemma_upper_strip(s.subrange(0, k));
        lemma_upper_strip(s.subrange(k + 1, s.len() as int));
        lemma_upper_parse_hex(spec_strip_hex_prefix(s.subrange(0, k)));
        lemma_upper_parse_hex(spec_strip_hex_prefix(s.subrange(k + 1, s.len() as int)));
    }
}

proof fn lemma_first_colon_bound(s: Seq<char>)
    ensures
        spec_first_colon(s) matches Some(k) ==> 0 <= k < s.len(),
    decreases s.len(),
{
    if s.len() > 0 {
        lemma_first_colon_bound(s.drop_last());
    }
}

} // verus!
