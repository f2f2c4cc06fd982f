//! Request parameters in canonical order, and the query strings built from
//! them.

use std::time::SystemTime;
use vstd::prelude::*;
use vstd::string::*;
use vstd::utf8::*;

use crate::errors::Error;
use crate::text::compare_str;
use crate::text::decimal;
use crate::text::lemma_str_less_irreflexive;
use crate::text::lemma_str_less_total;
use crate::text::lemma_str_less_transitive;
use crate::text::str_less;
use crate::text::u64_to_string;
use crate::text::KeyOrder;

verus! {

/// A list of parameters as mathematics sees it: pairs of key and value.
pub type Entries = Seq<(Seq<char>, Seq<char>)>;

/// The keys grow strictly from each entry to the next, so no key occurs twice.
pub open spec fn sorted_keys(s: Entries) -> bool {
    forall|i: int, j: int| 0 <= i < j < s.len() ==> str_less(#[trigger] s[i].0, #[trigger] s[j].0)
}

/// The entries `s` with `key` set to `value`: an entry with that key is
/// replaced, otherwise the new entry goes before the first larger key.
pub open spec fn with_entry(s: Entries, key: Seq<char>, value: Seq<char>) -> Entries
    decreases s.len(),
{
    if s.len() == 0 {
        seq![(key, value)]
    } else if s[0].0 == key {
        seq![(key, value)] + s.drop_first()
    } else if str_less(key, s[0].0) {
        seq![(key, value)] + s
    } else {
        seq![s[0]] + with_entry(s.drop_first(), key, value)
    }
}

/// The value that `s` holds for `key`, if any.
pub open spec fn lookup(s: Entries, key: Seq<char>) -> Option<Seq<char>>
    decreases s.len(),
{
    if s.len() == 0 {
        None
    } else if s[0].0 == key {
        Some(s[0].1)
    } else {
        lookup(s.drop_first(), key)
    }
}

/// The query string of a list of parameters: `k1=v1&k2=v2&...`, in the order
/// of the list, with no separator at the end.
pub open spec fn query_string(s: Entries) -> Seq<char>
    decreases s.len(),
{
    if s.len() == 0 {
        Seq::empty()
    } else if s.len() == 1 {
        s[0].0 + seq!['='] + s[0].1
    } else {
        query_string(s.drop_last()) + seq!['&'] + s.last().0 + seq!['='] + s.last().1
    }
}

/// Request parameters, kept in the order of their keys (the order of their
/// UTF-8 bytes), each key at most once.
#[derive(Debug)]
pub struct Params {
    entries: Vec<(String, String)>,
}

impl View for Params {
    type V = Entries;

    closed spec fn view(&self) -> Entries {
        self.entries@.map_values(|e: (String, String)| (e.0@, e.1@))
    }
}

impl Params {
    #[verifier::type_invariant]
    spec fn ordered(self) -> bool {
        sorted_keys(self@)
    }

    /// No parameters.
    pub fn new() -> (r: Self)
        ensures
            r@ == Entries::empty(),
    {
        let r = Params { entries: Vec::new() };
        assert(r@ =~= Entries::empty());
        r
    }

    /// The number of parameters.
    pub fn len(&self) -> (n: usize)
        ensures
            n == self@.len(),
    {
        self.entries.len()
    }

    pub fn is_empty(&self) -> (b: bool)
        ensures
            b == (self@.len() == 0),
    {
        self.entries.len() == 0
    }

    /// Sets `key` to `value`, replacing the value the key had, if any.
    pub fn insert(&mut self, key: String, value: String)
        ensures
            final(self)@ == with_entry(old(self)@, key@, value@),
            sorted_keys(final(self)@),
    {
        proof {
            use_type_invariant(&*self);
        }
        let ghost before = self@;
        let n = self.entries.len();
        let mut out: Vec<(String, String)> = Vec::new();
        let mut i: usize = 0;
        let mut placed = false;
        assert(before.skip(0) =~= before);
        assert(entries_of(out@) =~= Entries::empty());
        while i < n
            invariant
                n == self.entries@.len(),
                self@ == before,
                sorted_keys(before),
                i <= n,
                !placed ==> out@.len() == i,
                !placed ==> forall|j: int| 0 <= j < i ==> str_less(before[j].0, key@),
                !placed ==> with_entry(before, key@, value@) =~= entries_of(out@) + with_entry(
                    before.skip(i as int),
                    key@,
                    value@,
                ),
                placed ==> with_entry(before, key@, value@) =~= entries_of(out@) + before.skip(
                    i as int,
                ),
            decreases n - i,
        {
            let ghost rest = before.skip(i as int);
            assert(rest.len() > 0 && rest[0] == before[i as int]);
            assert(rest.drop_first() =~= before.skip(i + 1));
            assert(before[i as int] == (self.entries@[i as int].0@, self.entries@[i as int].1@));
            let ghost prev = entries_of(out@);
            if placed {
                out.push((self.entries[i].0.clone(), self.entries[i].1.clone()));
                assert(entries_of(out@) =~= prev.push(before[i as int]));
                assert(rest =~= seq![before[i as int]] + before.skip(i + 1));
            } else {
                match compare_str(key.as_str(), self.entries[i].0.as_str()) {
                    KeyOrder::Same => {
                        out.push((key.clone(), value.clone()));
                        placed = true;
                        assert(entries_of(out@) =~= prev.push((key@, value@)));
                    },
                    KeyOrder::Before => {
                        out.push((key.clone(), value.clone()));
                        out.push((self.entries[i].0.clone(), self.entries[i].1.clone()));
                        placed = true;
                        assert(entries_of(out@) =~= prev.push((key@, value@)).push(
                            before[i as int],
                        ));
                        assert(rest =~= seq![before[i as int]] + before.skip(i + 1));
                    },
                    KeyOrder::After => {
                        out.push((self.entries[i].0.clone(), self.entries[i].1.clone()));
                        assert(entries_of(out@) =~= prev.push(before[i as int]));
                        proof {
                            lemma_str_less_irreflexive(key@);
                            if str_less(key@, before[i as int].0) {
                                lemma_str_less_transitive(key@, before[i as int].0, key@);
                            }
                        }
                    },
                }
            }
            i += 1;
        }
        if !placed {
            assert(before.skip(n as int) =~= Entries::empty());
            let ghost prev = entries_of(out@);
            out.push((key, value));
            assert(entries_of(out@) =~= prev.push((key@, value@)));
        } else {
            assert(before.skip(n as int) =~= Entries::empty());
        }
        proof {
            lemma_with_entry_sorted(before, key@, value@);
            assert(entries_of(out@) =~= with_entry(before, key@, value@));
        }
        self.entries = out;
    }

    /// The value of `key`, if these parameters hold one.
    pub fn get(&self, key: &str) -> (r: Option<&String>)
        ensures
            r is Some <==> lookup(self@, key@) is Some,
            r matches Some(v) ==> lookup(self@, key@) == Some(v@),
    {
        let n = self.entries.len();
        let mut i: usize = 0;
        assert(self@.skip(0) =~= self@);
        while i < n
            invariant
                n == self.entries@.len(),
                i <= n,
                lookup(self@, key@) == lookup(self@.skip(i as int), key@),
            decreases n - i,
        {
            let ghost rest = self@.skip(i as int);
            assert(rest.len() > 0 && rest[0] == self@[i as int]);
            assert(rest.drop_first() =~= self@.skip(i + 1));
            if compare_str(self.entries[i].0.as_str(), key) == KeyOrder::Same {
                return Some(&self.entries[i].1);
            }
            i += 1;
        }
        assert(self@.skip(n as int).len() == 0);
        None
    }
}

impl Clone for Params {
    fn clone(&self) -> (r: Self)
        ensures
            r@ == self@,
    {
        proof {
            use_type_invariant(self);
        }
        let n = self.entries.len();
        let mut out: Vec<(String, String)> = Vec::new();
        let mut i: usize = 0;
        while i < n
            invariant
                n == self.entries@.len(),
                i <= n,
                entries_of(out@) =~= self@.take(i as int),
            decreases n - i,
        {
            let ghost prev = entries_of(out@);
            out.push((self.entries[i].0.clone(), self.entries[i].1.clone()));
            assert(entries_of(out@) =~= prev.push(self@[i as int]));
            i += 1;
        }
        assert(self@.take(n as int) =~= self@);
        Params { entries: out }
    }
}

/// The query string of `parameters`: `k1=v1&k2=v2&...` in the order of the
/// keys, without a separator at the end; empty for no parameters.
pub fn build_request(parameters: Params) -> (request: String)
    ensures
        request@ == query_string(parameters@),
{
    let n = parameters.entries.len();
    let mut request = String::new();
    let mut i: usize = 0;
    proof {
        reveal_strlit("&");
        reveal_strlit("=");
        assert(parameters@.take(0) =~= Entries::empty());
    }
    while i < n
        invariant
            n == parameters.entries@.len(),
            i <= n,
            "&"@ == seq!['&'],
            "="@ == seq!['='],
            request@ == query_string(parameters@.take(i as int)),
        decreases n - i,
    {
        let ghost next = parameters@.take(i + 1);
        assert(next.drop_last() =~= parameters@.take(i as int));
        assert(next.last() == parameters@[i as int]);
        assert(parameters@[i as int] == (
            parameters.entries@[i as int].0@,
            parameters.entries@[i as int].1@,
        ));
        if i > 0 {
            request.append("&");
        }
        request.append(parameters.entries[i].0.as_str());
        request.append("=");
        request.append(parameters.entries[i].1.as_str());
        assert(request@ =~= query_string(next));
        i += 1;
    }
    assert(parameters@.take(n as int) =~= parameters@);
    request
}

/// The part of a time after the epoch that this crate reads: whole seconds
/// and the nanoseconds of the second that has begun.
#[derive(Clone, Copy, Debug, PartialEq, Eq, Structural)]
pub struct SinceEpoch {
    pub secs: u64,
    pub subsec_nanos: u32,
}

#[verifier::external_type_specification]
#[verifier::external_body]
pub struct ExSystemTime(SystemTime);

/// Reads the clock: `SystemTime::now()`. Nothing is known of the time that
/// comes back.
#[verifier::external_body]
fn system_now() -> SystemTime {
    SystemTime::now()
}

/// The time that a `SystemTime` lies after the Unix epoch, as
/// `SystemTime::duration_since` gives it; `None` for a time before the epoch.
pub uninterp spec fn epoch_offset(time: SystemTime) -> Option<SinceEpoch>;

/// The time that `start` lies after the Unix epoch, from
/// `SystemTime::duration_since`; `None` where `start` lies before it. The
/// result is a function of `start` alone, named `epoch_offset`. The
/// nanoseconds are those of `Duration::subsec_nanos`, which stay below one
/// second.
#[verifier::external_body]
fn since_epoch(start: &SystemTime) -> (r: Option<SinceEpoch>)
    ensures
        r == epoch_offset(*start),
        r matches Some(t) ==> t.subsec_nanos < 1_000_000_000,
{
    match start.duration_since(std::time::UNIX_EPOCH) {
        Ok(d) => Some(SinceEpoch { secs: d.as_secs(), subsec_nanos: d.subsec_nanos() }),
        Err(_) => None,
    }
}

/// The whole seconds from the epoch to now, by the system's clock: those of
/// the time that the clock gave, and `None` where that time lies before the
/// epoch.
pub(crate) fn now_secs() -> (r: Option<u64>)
    ensures
        exists|time: SystemTime| r == seconds_of(#[trigger] epoch_offset(time)),
{
    let time = system_now();
    match since_epoch(&time) {
        Some(t) => Some(t.secs),
        None => None,
    }
}

/// The whole seconds of a time that lies `offset` after the epoch; `None`
/// for a time before the epoch.
pub open spec fn seconds_of(offset: Option<SinceEpoch>) -> Option<u64> {
    match offset {
        Some(t) => Some(t.secs),
        None => None,
    }
}

/// The whole milliseconds in `t`.
pub open spec fn millis(t: SinceEpoch) -> int {
    t.secs * 1000 + t.subsec_nanos / 1_000_000
}

/// The timestamp of a time that lies `offset` after the epoch: its whole
/// milliseconds, or `Error::Clock` where the time lies before the epoch or
/// the milliseconds do not fit in 64 bits.
pub open spec fn timestamp_of(offset: Option<SinceEpoch>) -> Result<u64, Error> {
    match offset {
        Some(t) => if millis(t) <= u64::MAX {
            Ok(millis(t) as u64)
        } else {
            Err(Error::Clock)
        },
        None => Err(Error::Clock),
    }
}

/// The milliseconds between the epoch and a time that lies `t` after it.
/// Fails with `Error::Clock` exactly when the number does not fit in 64 bits.
pub fn timestamp_millis(t: SinceEpoch) -> (r: Result<u64, Error>)
    ensures
        r == timestamp_of(Some(t)),
{
    let sub: u64 = (t.subsec_nanos / 1_000_000) as u64;
    match t.secs.checked_mul(1000) {
        Some(ms) => match ms.checked_add(sub) {
            Some(total) => Ok(total),
            None => Err(Error::Clock),
        },
        None => Err(Error::Clock),
    }
}

/// The milliseconds from the epoch to `start`. Fails with `Error::Clock`
/// where `start` lies before the epoch or too far after it.
pub fn get_timestamp(start: SystemTime) -> (r: Result<u64, Error>)
    ensures
        r == timestamp_of(epoch_offset(start)),
{
    match since_epoch(&start) {
        Some(t) => timestamp_millis(t),
        None => Err(Error::Clock),
    }
}

/// The milliseconds from the epoch to now, by the system's clock: the
/// timestamp of the time that the clock gave, and `Error::Clock` where that
/// time has none.
pub(crate) fn get_timestamp_now() -> (r: Result<u64, Error>)
    ensures
        exists|time: SystemTime| r == timestamp_of(#[trigger] epoch_offset(time)),
        r matches Err(e) ==> e == Error::Clock,
{
    let time = system_now();
    get_timestamp(time)
}

/// The parameters of a signed request: `parameters` with `recvWindow` set
/// when `recv_window` is positive, and `timestamp` set to `timestamp`.
pub open spec fn stamped(parameters: Entries, recv_window: u64, timestamp: u64) -> Entries {
    let windowed = if recv_window > 0 {
        with_entry(parameters, "recvWindow"@, decimal(recv_window as nat))
    } else {
        parameters
    };
    with_entry(windowed, "timestamp"@, decimal(timestamp as nat))
}

/// The query string of a signed request stamped with `timestamp`, in
/// milliseconds since the epoch: that of `stamped(..)`.
pub fn build_stamped_request(mut parameters: Params, recv_window: u64, timestamp: u64) -> (request:
    String)
    ensures
        request@ == query_string(stamped(parameters@, recv_window, timestamp)),
{
    if recv_window > 0 {
        parameters.insert(String::from_str("recvWindow"), u64_to_string(recv_window));
    }
    parameters.insert(String::from_str("timestamp"), u64_to_string(timestamp));
    build_request(parameters)
}

/// The query string of a signed request made at `start`: that of the
/// parameters stamped with the timestamp of `start`. Fails with
/// `Error::Clock`, and only with it, where `start` has no timestamp.
pub fn build_signed_request_custom(
    parameters: Params,
    recv_window: u64,
    start: SystemTime,
) -> (r: Result<String, Error>)
    ensures
        match timestamp_of(epoch_offset(start)) {
            Ok(timestamp) => (r matches Ok(request) && request@ == query_string(
                stamped(parameters@, recv_window, timestamp),
            )),
            Err(_) => r == Err::<String, Error>(Error::Clock),
        },
{
    match get_timestamp(start) {
        Ok(timestamp) => Ok(build_stamped_request(parameters, recv_window, timestamp)),
        Err(_) => Err(Error::Clock),
    }
}

/// The query string of a signed request made now, by the system's clock:
/// that of the parameters stamped with some timestamp, or `Error::Clock`.
pub fn build_signed_request(parameters: Params, recv_window: u64) -> (r: Result<String, Error>)
    ensures
        r matches Ok(request) ==> exists|timestamp: u64|
            request@ == query_string(#[trigger] stamped(parameters@, recv_window, timestamp)),
        r matches Err(e) ==> e == Error::Clock,
{
    build_signed_request_custom(parameters, recv_window, system_now())
}

/// `entries` with `key` set to the numeral of `value`, where there is one.
pub open spec fn with_optional(entries: Entries, key: Seq<char>, value: Option<u64>) -> Entries {
    match value {
        Some(v) => with_entry(entries, key, decimal(v as nat)),
        None => entries,
    }
}

/// `entries` with `key` set to `value`, where there is one.
pub open spec fn with_optional_text(entries: Entries, key: Seq<char>, value: Option<Seq<char>>)
    -> Entries {
    match value {
        Some(v) => with_entry(entries, key, v),
        None => entries,
    }
}

impl Params {
    /// Sets `key` to `value`.
    pub fn set(&mut self, key: &str, value: &str)
        ensures
            final(self)@ == with_entry(old(self)@, key@, value@),
    {
        self.insert(String::from_str(key), String::from_str(value));
    }

    /// Sets `key` to the numeral of `value`.
    pub fn set_number(&mut self, key: &str, value: u64)
        ensures
            final(self)@ == with_entry(old(self)@, key@, decimal(value as nat)),
    {
        self.insert(String::from_str(key), u64_to_string(value));
    }

    /// Sets `key` to the numeral of `value`, where there is one.
    pub fn set_optional(&mut self, key: &str, value: Option<u64>)
        ensures
            final(self)@ == with_optional(old(self)@, key@, value),
    {
        match value {
            Some(v) => {
                self.set_number(key, v);
            },
            None => {},
        }
    }

    /// Sets `key` to `value`, where there is one.
    pub fn set_optional_text(&mut self, key: &str, value: &Option<String>)
        ensures
            final(self)@ == with_optional_text(
                old(self)@,
                key@,
                match *value {
                    Some(v) => Some(v@),
                    None => None,
                },
            ),
    {
        match value {
            Some(v) => {
                self.insert(String::from_str(key), v.clone());
            },
            None => {},
        }
    }
}

/// The pairs of a vector of parameters.
pub open spec fn entries_of(v: Seq<(String, String)>) -> Entries {
    v.map_values(|e: (String, String)| (e.0@, e.1@))
}

/// Every key of `with_entry(s, key, value)` is `key` or a key of `s`.
proof fn lemma_with_entry_keys(s: Entries, key: Seq<char>, value: Seq<char>, i: int)
    requires
        0 <= i < with_entry(s, key, value).len(),
    ensures
        with_entry(s, key, value)[i].0 == key || exists|j: int|
            0 <= j < s.len() && s[j].0 == with_entry(s, key, value)[i].0,
    decreases s.len(),
{
    if s.len() == 0 {
    } else if s[0].0 == key {
        if i > 0 {
            assert(s.drop_first()[i - 1] == s[i]);
        }
    } else if str_less(key, s[0].0) {
        if i > 0 {
            assert(with_entry(s, key, value)[i] == s[i - 1]);
        }
    } else {
        if i > 0 {
            lemma_with_entry_keys(s.drop_first(), key, value, i - 1);
            let r = with_entry(s.drop_first(), key, value);
            if r[i - 1].0 != key {
                let t = s.drop_first();
                let j = choose|j: int| 0 <= j < t.len() && t[j].0 == r[i - 1].0;
                assert(s[j + 1].0 == r[i - 1].0);
            }
        } else {
            assert(s[0].0 == with_entry(s, key, value)[0].0);
        }
    }
}

/// Setting a key keeps the keys in strictly growing order.
pub proof fn lemma_with_entry_sorted(s: Entries, key: Seq<char>, value: Seq<char>)
    requires
        sorted_keys(s),
    ensures
        sorted_keys(with_entry(s, key, value)),
    decreases s.len(),
{
    let r = with_entry(s, key, value);
    if s.len() == 0 {
    } else if s[0].0 == key {
        assert forall|i: int, j: int| 0 <= i < j < r.len() implies str_less(r[i].0, r[j].0) by {
            assert(r[j] == s[j]);
            if i > 0 {
                assert(r[i] == s[i]);
            } else {
                assert(str_less(s[0].0, s[j].0));
            }
        }
    } else if str_less(key, s[0].0) {
        assert forall|i: int, j: int| 0 <= i < j < r.len() implies str_less(r[i].0, r[j].0) by {
            assert(r[j] == s[j - 1]);
            if i > 0 {
                assert(r[i] == s[i - 1]);
            } else if j > 1 {
                assert(str_less(s[0].0, s[j - 1].0));
                lemma_str_less_transitive(key, s[0].0, s[j - 1].0);
            }
        }
    } else {
        let t = s.drop_first();
        assert(sorted_keys(t)) by {
            assert forall|i: int, j: int| 0 <= i < j < t.len() implies str_less(t[i].0, t[j].0) by {
                assert(t[i] == s[i + 1] && t[j] == s[j + 1]);
            }
        }
        lemma_with_entry_sorted(t, key, value);
        let u = with_entry(t, key, value);
        lemma_str_less_total(key, s[0].0);
        assert forall|i: int, j: int| 0 <= i < j < r.len() implies str_less(r[i].0, r[j].0) by {
            assert(r[j] == u[j - 1]);
            if i > 0 {
                assert(r[i] == u[i - 1]);
            } else {
                lemma_with_entry_keys(t, key, value, j - 1);
                if u[j - 1].0 != key {
                    let k = choose|k: int| 0 <= k < t.len() && t[k].0 == u[j - 1].0;
                    assert(t[k] == s[k + 1]);
                    assert(str_less(s[0].0, s[k + 1].0));
                }
            }
        }
    }
}

/// After a key is set, it has the value it was set to.
pub proof fn lemma_lookup_set_key(s: Entries, key: Seq<char>, value: Seq<char>)
    ensures
        lookup(with_entry(s, key, value), key) == Some(value),
    decreases s.len(),
{
    let r = with_entry(s, key, value);
    if s.len() == 0 {
    } else if s[0].0 == key {
    } else if str_less(key, s[0].0) {
    } else {
        lemma_lookup_set_key(s.drop_first(), key, value);
        assert(r.drop_first() =~= with_entry(s.drop_first(), key, value));
    }
}

/// Setting a key leaves the values of all other keys as they are.
pub proof fn lemma_lookup_other_key(s: Entries, key: Seq<char>, value: Seq<char>, other: Seq<char>)
    requires
        other != key,
    ensures
        lookup(with_entry(s, key, value), other) == lookup(s, other),
    decreases s.len(),
{
    let r = with_entry(s, key, value);
    if s.len() == 0 {
        assert(r.drop_first() =~= s);
    } else if s[0].0 == key {
        assert(r.drop_first() =~= s.drop_first());
    } else if str_less(key, s[0].0) {
        assert(r.drop_first() =~= s);
    } else {
        lemma_lookup_other_key(s.drop_first(), key, value, other);
        assert(r.drop_first() =~= with_entry(s.drop_first(), key, value));
    }
}

/// The order in which two different keys are set does not matter: the
/// parameters, and so the query string, come out the same.
pub proof fn lemma_with_entry_commutes(
    s: Entries,
    k1: Seq<char>,
    v1: Seq<char>,
    k2: Seq<char>,
    v2: Seq<char>,
)
    requires
        sorted_keys(s),
        k1 != k2,
    ensures
        with_entry(with_entry(s, k1, v1), k2, v2) == with_entry(with_entry(s, k2, v2), k1, v1),
    decreases s.len(),
{
    let a = with_entry(with_entry(s, k1, v1), k2, v2);
    let b = with_entry(with_entry(s, k2, v2), k1, v1);
    lemma_str_less_total(k1, k2);
    lemma_str_less_irreflexive(k1);
    lemma_str_less_irreflexive(k2);
    if str_less(k1, k2) && str_less(k2, k1) {
        lemma_str_less_transitive(k1, k2, k1);
    }
    if s.len() == 0 {
        reveal_with_fuel(with_entry, 3);
        assert(seq![(k1, v1)].drop_first() =~= Entries::empty());
        assert(seq![(k2, v2)].drop_first() =~= Entries::empty());
        assert(a =~= b);
    } else {
        let h = s[0].0;
        let t = s.drop_first();
        lemma_str_less_total(k1, h);
        lemma_str_less_total(k2, h);
        lemma_str_less_irreflexive(h);
        if str_less(k1, h) && str_less(h, k1) {
            lemma_str_less_transitive(k1, h, k1);
        }
        if str_less(k2, h) && str_less(h, k2) {
            lemma_str_less_transitive(k2, h, k2);
        }
        if str_less(k1, k2) && str_less(k2, h) {
            lemma_str_less_transitive(k1, k2, h);
        }
        if str_less(k2, k1) && str_less(k1, h) {
            lemma_str_less_transitive(k2, k1, h);
        }
        if str_less(h, k1) && str_less(k1, k2) {
            lemma_str_less_transitive(h, k1, k2);
        }
        if str_less(h, k2) && str_less(k2, k1) {
            lemma_str_less_transitive(h, k2, k1);
        }
        let x = with_entry(s, k1, v1);
        let y = with_entry(s, k2, v2);
        if k1 != h && !str_less(k1, h) && k2 != h && !str_less(k2, h) {
            assert(sorted_keys(t)) by {
                assert forall|i: int, j: int| 0 <= i < j < t.len() implies str_less(
                    t[i].0,
                    t[j].0,
                ) by {
                    assert(t[i] == s[i + 1] && t[j] == s[j + 1]);
                }
            }
            lemma_with_entry_commutes(t, k1, v1, k2, v2);
            assert(x.drop_first() =~= with_entry(t, k1, v1));
            assert(y.drop_first() =~= with_entry(t, k2, v2));
            assert(a =~= seq![s[0]] + with_entry(with_entry(t, k1, v1), k2, v2));
            assert(b =~= seq![s[0]] + with_entry(with_entry(t, k2, v2), k1, v1));
        } else if k1 == h {
            assert(x.drop_first() =~= t);
            if str_less(k2, h) {
                assert(y.drop_first() =~= s);
                assert(a =~= seq![(k2, v2), (k1, v1)] + t);
                assert(b =~= seq![(k2, v2), (k1, v1)] + t);
            } else {
                assert(y.drop_first() =~= with_entry(t, k2, v2));
                assert(a =~= seq![(k1, v1)] + with_entry(t, k2, v2));
                assert(b =~= seq![(k1, v1)] + with_entry(t, k2, v2));
            }
        } else if k2 == h {
            assert(y.drop_first() =~= t);
            if str_less(k1, h) {
                assert(x.drop_first() =~= s);
                assert(a =~= seq![(k1, v1), (k2, v2)] + t);
                assert(b =~= seq![(k1, v1), (k2, v2)] + t);
            } else {
                assert(x.drop_first() =~= with_entry(t, k1, v1));
                assert(a =~= seq![(k2, v2)] + with_entry(t, k1, v1));
                assert(b =~= seq![(k2, v2)] + with_entry(t, k1, v1));
            }
        } else if str_less(k1, h) && str_less(k2, h) {
            assert(x.drop_first() =~= s);
            assert(y.drop_first() =~= s);
            if str_less(k1, k2) {
                assert(a =~= seq![(k1, v1), (k2, v2)] + s);
                assert(b =~= seq![(k1, v1), (k2, v2)] + s);
            } else {
                assert(a =~= seq![(k2, v2), (k1, v1)] + s);
                assert(b =~= seq![(k2, v2), (k1, v1)] + s);
            }
        } else if str_less(k1, h) {
            assert(x.drop_first() =~= s);
            assert(y.drop_first() =~= with_entry(t, k2, v2));
            assert(a =~= seq![(k1, v1), s[0]] + with_entry(t, k2, v2));
            assert(b =~= seq![(k1, v1), s[0]] + with_entry(t, k2, v2));
        } else {
            assert(y.drop_first() =~= s);
            assert(x.drop_first() =~= with_entry(t, k1, v1));
            assert(a =~= seq![(k2, v2), s[0]] + with_entry(t, k1, v1));
            assert(b =~= seq![(k2, v2), s[0]] + with_entry(t, k1, v1));
        }
    }
}

/// The key `recvWindow` sorts before the key `timestamp`.
proof fn lemma_window_before_timestamp()
    ensures
        str_less("recvWindow"@, "timestamp"@),
        "recvWindow"@ != "timestamp"@,
{
    reveal_strlit("recvWindow");
    reveal_strlit("timestamp");
    let a = "recvWindow"@;
    let b = "timestamp"@;
    assert(is_ascii_chars(a));
    assert(is_ascii_chars(b));
    is_ascii_chars_encode_utf8(a);
    is_ascii_chars_encode_utf8(b);
    assert(a[0] == 'r' && b[0] == 't');
    assert(encode_utf8(a)[0] == 114u8);
    assert(encode_utf8(b)[0] == 116u8);
}

/// A signed request without parameters of its own, with a positive
/// window, is `recvWindow=<window>&timestamp=<timestamp>`.
pub proof fn lemma_bare_signed_request(recv_window: u64, timestamp: u64)
    requires
        recv_window > 0,
    ensures
        query_string(stamped(Entries::empty(), recv_window, timestamp)) == "recvWindow"@
            + seq!['='] + decimal(recv_window as nat) + seq!['&'] + "timestamp"@ + seq!['=']
            + decimal(timestamp as nat),
{
    lemma_window_before_timestamp();
    lemma_str_less_irreflexive("timestamp"@);
    if str_less("timestamp"@, "recvWindow"@) {
        lemma_str_less_transitive("timestamp"@, "recvWindow"@, "timestamp"@);
    }
    reveal_with_fuel(with_entry, 3);
    reveal_with_fuel(query_string, 3);
    let window = ("recvWindow"@, decimal(recv_window as nat));
    let stamp = ("timestamp"@, decimal(timestamp as nat));
    let one = with_entry(Entries::empty(), window.0, window.1);
    assert(one =~= seq![window]);
    assert(one.drop_first() =~= Entries::empty());
    let two = with_entry(one, stamp.0, stamp.1);
    assert(two =~= seq![window, stamp]);
    assert(two.drop_last() =~= seq![window]);
    assert(stamped(Entries::empty(), recv_window, timestamp) == two);
}

/// The parameters `s` with the character at position `at` of the value of
/// entry `i` replaced by `c`.
pub open spec fn with_changed_value(s: Entries, i: int, at: int, c: char) -> Entries {
    s.update(i, (s[i].0, s[i].1.update(at, c)))
}

/// Changing one character of one value keeps the length of the query
/// string.
pub proof fn lemma_changed_value_keeps_length(s: Entries, i: int, at: int, c: char)
    requires
        0 <= i < s.len(),
        0 <= at < s[i].1.len(),
    ensures
        query_string(with_changed_value(s, i, at, c)).len() == query_string(s).len(),
    decreases s.len(),
{
    let t = with_changed_value(s, i, at, c);
    if s.len() == 1 {
    } else if i == s.len() - 1 {
        assert(t.drop_last() =~= s.drop_last());
    } else {
        assert(t.drop_last() =~= with_changed_value(s.drop_last(), i, at, c));
        assert(t.last() == s.last());
        lemma_changed_value_keeps_length(s.drop_last(), i, at, c);
    }
}

/// Changing one character of one value changes the query string: no two
/// lists of parameters that differ in this way are sent as the same text.
pub proof fn lemma_changed_value_changes_request(s: Entries, i: int, at: int, c: char)
    requires
        0 <= i < s.len(),
        0 <= at < s[i].1.len(),
        c != s[i].1[at],
    ensures
        query_string(with_changed_value(s, i, at, c)) != query_string(s),
    decreases s.len(),
{
    let t = with_changed_value(s, i, at, c);
    let key = s[i].0;
    if s.len() == 1 {
        let head = key + seq!['='];
        assert(query_string(s)[head.len() + at] == s[i].1[at]);
        assert(query_string(t)[head.len() + at] == c);
    } else if i == s.len() - 1 {
        assert(t.drop_last() =~= s.drop_last());
        let head = query_string(s.drop_last()) + seq!['&'] + key + seq!['='];
        assert(query_string(s)[head.len() + at] == s[i].1[at]);
        assert(query_string(t)[head.len() + at] == c);
    } else {
        let front = s.drop_last();
        assert(t.drop_last() =~= with_changed_value(front, i, at, c));
        assert(t.last() == s.last());
        lemma_changed_value_changes_request(front, i, at, c);
        lemma_changed_value_keeps_length(front, i, at, c);
        let a = query_string(front);
        let b = query_string(t.drop_last());
        if query_string(t) == query_string(s) {
            assert(query_string(s).subrange(0, a.len() as int) =~= a);
            assert(query_string(t).subrange(0, b.len() as int) =~= b);
        }
    }
}

} // verus!
