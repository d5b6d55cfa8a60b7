//! Choosing where the live file goes when it rotates, and when to rotate.
//!
//! Rotated siblings are named `<live path>.<N>` with `N` a decimal id.
use vstd::prelude::*;
use vstd::string::*;
use crate::metrics::{MetricName, MetricUpdate};
use crate::writer::rotation_policy::{is_midnight_after, period_after, Instant, RotationPolicy};
use crate::text::{lemma_lex_lt_irreflexive, lemma_lex_lt_transitive, lex_lt, text_eq, text_lt};

verus! {

/// Ids above this do not parse, as with a 32-bit signed id.
pub const MAX_ID: u64 = 2_147_483_647;

pub open spec fn is_digit(c: char) -> bool {
    '0' <= c && c <= '9'
}

pub open spec fn digit_value(c: char) -> int {
    (c as u32) - ('0' as u32)
}

pub open spec fn digit_char(d: int) -> char {
    (('0' as u32) + d) as char
}

/// The number of decimal digits that end `s`.
pub open spec fn trailing_digit_count(s: Seq<char>) -> nat
    decreases s.len(),
{
    if s.len() > 0 && is_digit(s.last()) {
        1 + trailing_digit_count(s.drop_last())
    } else {
        0
    }
}

/// The value of a run of decimal digits.
pub open spec fn digits_value(d: Seq<char>) -> int
    decreases d.len(),
{
    if d.len() == 0 {
        0
    } else {
        digits_value(d.drop_last()) * 10 + digit_value(d.last())
    }
}

/// The id at the end of a rotated file's name: its trailing decimal digits,
/// when there are some and their value is at most `MAX_ID`.
pub open spec fn trailing_id(s: Seq<char>) -> Option<int> {
    let k = trailing_digit_count(s);
    let v = digits_value(s.subrange(s.len() - k, s.len() as int));
    if k > 0 && v <= MAX_ID {
        Some(v)
    } else {
        None
    }
}

/// The decimal text of `n`, without leading zeros.
pub open spec fn decimal_text(n: nat) -> Seq<char>
    decreases n,
{
    if n < 10 {
        seq![digit_char(n as int)]
    } else {
        decimal_text(n / 10) + seq![digit_char((n % 10) as int)]
    }
}

proof fn lemma_trailing_digit_count_bound(s: Seq<char>)
    ensures
        trailing_digit_count(s) <= s.len(),
        forall|i: int|
            s.len() - trailing_digit_count(s) <= i < s.len() ==> #[trigger] is_digit(s[i]),
        trailing_digit_count(s) < s.len() ==> !is_digit(s[s.len() - trailing_digit_count(s) - 1]),
    decreases s.len(),
{
    if s.len() > 0 && is_digit(s.last()) {
        lemma_trailing_digit_count_bound(s.drop_last());
        assert forall|i: int|
            s.len() - trailing_digit_count(s) <= i < s.len() implies #[trigger] is_digit(s[i]) by {
            if i < s.len() - 1 {
                assert(s.drop_last()[i] == s[i]);
            }
        }
        if trailing_digit_count(s) < s.len() {
            assert(s.drop_last()[s.len() - trailing_digit_count(s) - 1] == s[s.len()
                - trailing_digit_count(s) - 1]);
        }
    }
}

/// The id at the end of `s`, as `trailing_id` defines it.
pub fn parse_trailing_id(s: &str) -> (r: Option<u64>)
    ensures
        r matches Some(v) ==> trailing_id(s@) == Some(v as int),
        r is None ==> trailing_id(s@) is None,
{
    let n = s.unicode_len();
    let mut start: usize = n;
    assert(s@.subrange(0, n as int) =~= s@);
    while start > 0
        invariant
            n == s@.len(),
            start <= n,
            trailing_digit_count(s@) == trailing_digit_count(s@.subrange(0, start as int)) + (n
                - start),
        ensures
            start == 0 || !is_digit(s@[start - 1]),
            trailing_digit_count(s@) == trailing_digit_count(s@.subrange(0, start as int)) + (n
                - start),
        decreases start,
    {
        let c = s.get_char(start - 1);
        if !('0' <= c && c <= '9') {
            break;
        }
        let ghost pre = s@.subrange(0, start as int);
        assert(pre.drop_last() =~= s@.subrange(0, start - 1));
        start = start - 1;
    }
    proof {
        let pre = s@.subrange(0, start as int);
        if start > 0 {
            assert(pre.last() == s@[start - 1]);
        }
        assert(trailing_digit_count(pre) == 0);
    }
    if start == n {
        return None;
    }
    // Accumulate the value, capped just above the largest id.
    let cap: u64 = MAX_ID + 1;
    assert(cap == 2_147_483_648u64);
    let mut v: u64 = 0;
    let mut i: usize = start;
    proof {
        lemma_trailing_digit_count_bound(s@);
        assert(s@.subrange(start as int, start as int) =~= Seq::<char>::empty());
    }
    while i < n
        invariant
            n == s@.len(),
            start <= i <= n,
            start < n,
            trailing_digit_count(s@) == n - start,
            forall|j: int| start <= j < n ==> #[trigger] is_digit(s@[j]),
            v <= cap,
            cap == 2_147_483_648u64,
            v == (if digits_value(s@.subrange(start as int, i as int)) < cap {
                digits_value(s@.subrange(start as int, i as int))
            } else {
                cap as int
            }),
            digits_value(s@.subrange(start as int, i as int)) >= 0,
        decreases n - i,
    {
        let c = s.get_char(i);
        assert(is_digit(s@[i as int]));
        let d: u64 = (c as u32 - '0' as u32) as u64;
        assert(d <= 9);
        let ghost prev = digits_value(s@.subrange(start as int, i as int));
        let ghost next_seq = s@.subrange(start as int, i + 1);
        assert(next_seq.drop_last() =~= s@.subrange(start as int, i as int));
        assert(digits_value(next_seq) == prev * 10 + d);
        if v >= cap {
            assert(prev >= cap);
            assert(prev * 10 + d >= cap);
            v = cap;
        } else {
            assert(v * 10 + d <= 21_474_836_489) by (nonlinear_arith)
                requires
                    v < 2_147_483_648u64,
                    d <= 9,
            ;
            let next = v * 10 + d;
            if next >= cap {
                v = cap;
            } else {
                v = next;
            }
        }
        i = i + 1;
    }
    if v >= cap {
        None
    } else {
        Some(v)
    }
}

/// The one-character text of the digit `d`.
fn digit_str(d: u64) -> (r: &'static str)
    requires
        d < 10,
    ensures
        r@ == seq![digit_char(d as int)],
{
    proof {
        reveal_strlit("0");
        reveal_strlit("1");
        reveal_strlit("2");
        reveal_strlit("3");
        reveal_strlit("4");
        reveal_strlit("5");
        reveal_strlit("6");
        reveal_strlit("7");
        reveal_strlit("8");
        reveal_strlit("9");
    }
    let r = if d == 0 {
        "0"
    } else if d == 1 {
        "1"
    } else if d == 2 {
        "2"
    } else if d == 3 {
        "3"
    } else if d == 4 {
        "4"
    } else if d == 5 {
        "5"
    } else if d == 6 {
        "6"
    } else if d == 7 {
        "7"
    } else if d == 8 {
        "8"
    } else {
        "9"
    };
    assert(r@ =~= seq![digit_char(d as int)]);
    r
}

/// Appends the decimal text of `n` to `s`.
pub fn append_decimal(s: &mut String, n: u64)
    ensures
        final(s)@ == old(s)@ + decimal_text(n as nat),
    decreases n,
{
    if n >= 10 {
        append_decimal(s, n / 10);
    }
    s.append(digit_str(n % 10));
    assert(final(s)@ =~= old(s)@ + decimal_text(n as nat)) by {
        if n >= 10 {
            assert(old(s)@ + decimal_text((n / 10) as nat) + seq![digit_char((n % 10) as int)]
                =~= old(s)@ + decimal_text(n as nat));
        }
    }
}

/// One more than the largest id among `files`' names, or 0 when none has one.
pub open spec fn next_id(files: Seq<String>) -> int
    decreases files.len(),
{
    if files.len() == 0 {
        0
    } else {
        let rest = next_id(files.drop_last());
        match trailing_id(files.last()@) {
            Some(v) => if v + 1 > rest {
                v + 1
            } else {
                rest
            },
            None => rest,
        }
    }
}

/// The name that a new rotated sibling of `live` with id `id` gets.
pub open spec fn sibling_name(live: Seq<char>, id: int) -> Seq<char> {
    live + "."@ + decimal_text(id as nat)
}

/// The path for a fresh rotated sibling of `file_path`: its id is one more
/// than the largest id among `files`, or 0 when none has one.
pub fn next_path(file_path: &str, files: &Vec<String>) -> (r: String)
    ensures
        r@ == sibling_name(file_path@, next_id(files@)),
{
    let mut id: u64 = 0;
    let mut i: usize = 0;
    assert(files@.subrange(0, 0) =~= Seq::<String>::empty());
    while i < files.len()
        invariant
            i <= files.len(),
            id == next_id(files@.subrange(0, i as int)),
            id <= MAX_ID + 1,
        decreases files.len() - i,
    {
        let ghost pre = files@.subrange(0, i + 1);
        assert(pre.drop_last() =~= files@.subrange(0, i as int));
        assert(pre.last() == files@[i as int]);
        match parse_trailing_id(files[i].as_str()) {
            Some(v) => {
                if v + 1 > id {
                    id = v + 1;
                }
            },
            None => {},
        }
        i = i + 1;
    }
    assert(files@.subrange(0, files.len() as int) =~= files@);
    let mut r = String::from_str(file_path);
    r.append(".");
    append_decimal(&mut r, id);
    r
}

/// A rotated sibling found on disk, with its last-modified time.
#[derive(Debug, Clone)]
pub struct Sibling {
    pub path: String,
    /// Nanoseconds since the Unix epoch.
    pub modified_nanos: i128,
}

/// Rank of a name among equally old siblings: its id, with names that carry
/// none after all that do.
pub open spec fn id_rank(p: Seq<char>) -> int {
    match trailing_id(p) {
        Some(v) => v,
        None => MAX_ID + 1,
    }
}

/// `a` is reclaimed before `b`: it was modified earlier; on equal times it has
/// the lower id; on equal ids its name comes first.
pub open spec fn older_than(a: Sibling, b: Sibling) -> bool {
    ||| a.modified_nanos < b.modified_nanos
    ||| a.modified_nanos == b.modified_nanos && id_rank(a.path@) < id_rank(b.path@)
    ||| a.modified_nanos == b.modified_nanos && id_rank(a.path@) == id_rank(b.path@) && lex_lt(
        a.path@,
        b.path@,
    )
}

pub proof fn lemma_older_than_strict_order(a: Sibling, b: Sibling, c: Sibling)
    ensures
        !older_than(a, a),
        older_than(a, b) && older_than(b, c) ==> older_than(a, c),
{
    lemma_lex_lt_irreflexive(a.path@);
    if older_than(a, b) && older_than(b, c) && lex_lt(a.path@, b.path@) && lex_lt(b.path@, c.path@) {
        lemma_lex_lt_transitive(a.path@, b.path@, c.path@);
    }
}

fn id_rank_exec(p: &str) -> (r: u64)
    ensures
        r == id_rank(p@),
{
    match parse_trailing_id(p) {
        Some(v) => v,
        None => MAX_ID + 1,
    }
}

/// Whether `a` is reclaimed before `b`.
pub fn is_older(a: &Sibling, b: &Sibling) -> (r: bool)
    ensures
        r == older_than(*a, *b),
{
    if a.modified_nanos != b.modified_nanos {
        return a.modified_nanos < b.modified_nanos;
    }
    let ra = id_rank_exec(a.path.as_str());
    let rb = id_rank_exec(b.path.as_str());
    if ra != rb {
        return ra < rb;
    }
    text_lt(a.path.as_str(), b.path.as_str())
}

/// True when `s` may be reclaimed: it is not the live file itself.
pub open spec fn eligible(live: Seq<char>, s: Sibling) -> bool {
    s.path@ != live
}

/// The position of the sibling to reclaim: the oldest one that is not the live
/// file; `None` when there is none.
pub fn oldest_sibling(live: &str, siblings: &Vec<Sibling>) -> (r: Option<usize>)
    ensures
        r matches Some(i) ==> {
            &&& i < siblings.len()
            &&& eligible(live@, siblings@[i as int])
            &&& forall|j: int|
                0 <= j < siblings.len() && eligible(live@, siblings@[j]) ==> !older_than(
                    #[trigger] siblings@[j],
                    siblings@[i as int],
                )
        },
        r is None ==> forall|j: int|
            0 <= j < siblings.len() ==> !eligible(live@, #[trigger] siblings@[j]),
{
    let mut best: Option<usize> = None;
    let mut i: usize = 0;
    while i < siblings.len()
        invariant
            i <= siblings.len(),
            best matches Some(b) ==> {
                &&& b < i
                &&& eligible(live@, siblings@[b as int])
                &&& forall|j: int|
                    0 <= j < i && eligible(live@, siblings@[j]) ==> !older_than(
                        #[trigger] siblings@[j],
                        siblings@[b as int],
                    )
            },
            best is None ==> forall|j: int| 0 <= j < i ==> !eligible(live@, #[trigger] siblings@[j]),
        decreases siblings.len() - i,
    {
        if !text_eq(siblings[i].path.as_str(), live) {
            match best {
                None => {
                    proof {
                        lemma_older_than_strict_order(siblings@[i as int], siblings@[i as int], siblings@[i as int]);
                    }
                    best = Some(i);
                },
                Some(b) => {
                    if is_older(&siblings[i], &siblings[b]) {
                        proof {
                            assert forall|j: int|
                                0 <= j < i + 1 && eligible(live@, siblings@[j]) implies !older_than(
                                #[trigger] siblings@[j],
                                siblings@[i as int],
                            ) by {
                                lemma_older_than_strict_order(siblings@[j], siblings@[i as int], siblings@[b as int]);
                            }
                        }
                        best = Some(i);
                    }
                },
            }
        }
        i = i + 1;
    }
    best
}

/// The names of `siblings`, in order.
pub open spec fn sibling_paths(siblings: Seq<Sibling>) -> Seq<String> {
    siblings.map_values(|s: Sibling| s.path)
}

/// True when `target` is where the live file goes, given the siblings found and
/// the number of rotated files to keep: below that number, a fresh name with
/// the next id; otherwise the oldest sibling that is not the live file, or
/// `<live>.0` when there is none.
pub open spec fn is_rotation_target(
    live: Seq<char>,
    siblings: Seq<Sibling>,
    max_files: int,
    target: Seq<char>,
) -> bool {
    if siblings.len() < max_files {
        target == sibling_name(live, next_id(sibling_paths(siblings)))
    } else {
        ||| exists|i: int|
            0 <= i < siblings.len() && eligible(live, siblings[i]) && target == siblings[i].path@
                && forall|j: int|
                0 <= j < siblings.len() && eligible(live, siblings[j]) ==> !older_than(
                    #[trigger] siblings[j],
                    siblings[i],
                )
        ||| (forall|j: int| 0 <= j < siblings.len() ==> !eligible(live, #[trigger] siblings[j]))
            && target == live + ".0"@
    }
}

/// Where the live file `live` goes on rotation, keeping at most `max_files`
/// rotated files.
pub fn rotation_target(live: &str, siblings: &Vec<Sibling>, max_files: i32) -> (r: String)
    ensures
        is_rotation_target(live@, siblings@, max_files as int, r@),
{
    if max_files > 0 && siblings.len() < max_files as usize {
        let mut paths: Vec<String> = Vec::new();
        let mut i: usize = 0;
        while i < siblings.len()
            invariant
                i <= siblings.len(),
                paths@ == sibling_paths(siblings@).subrange(0, i as int),
            decreases siblings.len() - i,
        {
            paths.push(siblings[i].path.clone());
            assert(paths@ =~= sibling_paths(siblings@).subrange(0, i + 1));
            i = i + 1;
        }
        assert(paths@ =~= sibling_paths(siblings@));
        return next_path(live, &paths);
    }
    match oldest_sibling(live, siblings) {
        Some(i) => siblings[i].path.clone(),
        None => {
            let mut r = String::from_str(live);
            r.append(".0");
            r
        },
    }
}

/// How long the scheduler waits before trying again after a failed rotation.
pub const RETRY_DELAY_MILLIS: u64 = 1000;

/// What the rotation scheduler does next.
#[derive(Debug, Clone, Copy, PartialEq, Eq, Structural)]
pub enum SchedulerAction {
    /// Sleep until the instant (waking early on shutdown), then ask again.
    SleepUntil(Instant),
    /// Rotate now: pick the target and send the rename command.
    Rotate,
    /// The due instant could not be computed: wait this many milliseconds.
    RetryAfter(u64),
}

/// The action for a due instant `due` (if known) at the instant `now`.
pub open spec fn action_for(due: Option<Instant>, now: Instant) -> SchedulerAction {
    match due {
        Some(t) => if t.millis > now.millis {
            SchedulerAction::SleepUntil(t)
        } else {
            SchedulerAction::Rotate
        },
        None => SchedulerAction::RetryAfter(RETRY_DELAY_MILLIS),
    }
}

/// The state of the rotation scheduler: its schedule and the last rotation.
#[derive(Debug, Clone, Copy)]
pub struct RotationScheduler {
    pub policy: RotationPolicy,
    pub last_rotation: Instant,
}

impl RotationScheduler {
    /// A scheduler whose last rotation is taken to be `start`.
    pub fn new(policy: RotationPolicy, start: Instant) -> (r: RotationScheduler)
        ensures
            r.policy == policy,
            r.last_rotation == start,
    {
        RotationScheduler { policy, last_rotation: start }
    }

    /// The action for a known due instant: sleep while it lies ahead, rotate
    /// once it is reached, retry later when it is unknown.
    pub fn decide(due: Option<Instant>, now: Instant) -> (r: SchedulerAction)
        ensures
            r == action_for(due, now),
    {
        match due {
            Some(t) => {
                if t.millis > now.millis {
                    SchedulerAction::SleepUntil(t)
                } else {
                    SchedulerAction::Rotate
                }
            },
            None => SchedulerAction::RetryAfter(RETRY_DELAY_MILLIS),
        }
    }

    /// What to do at `now`, given the schedule and the last rotation.
    pub fn next_action(&self, now: Instant) -> (r: SchedulerAction)
        ensures
            match self.policy {
                RotationPolicy::ByDuration(p) => r == action_for(
                    period_after(self.last_rotation, p.duration_secs),
                    now,
                ),
                RotationPolicy::ByDay(_) => {
                    &&& r matches SchedulerAction::SleepUntil(x) ==> x.millis > now.millis
                        && is_midnight_after(self.last_rotation, x)
                    &&& r matches SchedulerAction::RetryAfter(d) ==> d == RETRY_DELAY_MILLIS
                },
            },
    {
        let due = self.policy.next_rotation(self.last_rotation);
        Self::decide(due, now)
    }

    /// Records that a rename command was sent at `now`.
    pub fn rotation_sent(&mut self, now: Instant)
        ensures
            final(self).last_rotation == now,
            final(self).policy == old(self).policy,
    {
        self.last_rotation = now;
    }
}

/// A rotation was requested.
pub fn event() -> (r: MetricUpdate)
    ensures
        r == MetricUpdate::Counter(MetricName::FileRotationEvents, 1),
{
    MetricUpdate::Counter(MetricName::FileRotationEvents, 1)
}

/// A rotation attempt failed.
pub fn error() -> (r: MetricUpdate)
    ensures
        r == MetricUpdate::Counter(MetricName::FileRotationErrors, 1),
{
    MetricUpdate::Counter(MetricName::FileRotationErrors, 1)
}

proof fn lemma_digit_char(d: int)
    requires
        0 <= d < 10,
    ensures
        is_digit(digit_char(d)),
        digit_value(digit_char(d)) == d,
{
}

proof fn lemma_decimal_text(n: nat)
    ensures
        decimal_text(n).len() >= 1,
        forall|i: int| 0 <= i < decimal_text(n).len() ==> #[trigger] is_digit(decimal_text(n)[i]),
        digits_value(decimal_text(n)) == n,
    decreases n,
{
    if n < 10 {
        lemma_digit_char(n as int);
        assert(decimal_text(n).drop_last() =~= Seq::<char>::empty());
        assert(digits_value(Seq::<char>::empty()) == 0);
        assert(decimal_text(n).last() == digit_char(n as int));
    } else {
        lemma_decimal_text(n / 10);
        lemma_digit_char((n % 10) as int);
        let t = decimal_text(n);
        assert(t.drop_last() =~= decimal_text(n / 10));
        assert forall|i: int| 0 <= i < t.len() implies #[trigger] is_digit(t[i]) by {
            if i < t.len() - 1 {
                assert(t[i] == decimal_text(n / 10)[i]);
            }
        }
        assert(t.last() == digit_char((n % 10) as int));
        assert(digits_value(t) == digits_value(decimal_text(n / 10)) * 10 + (n % 10));
        assert((n / 10) * 10 + n % 10 == n) by (nonlinear_arith);
    }
}

proof fn lemma_trailing_count_append(x: Seq<char>, d: Seq<char>)
    requires
        x.len() > 0,
        !is_digit(x.last()),
        forall|i: int| 0 <= i < d.len() ==> #[trigger] is_digit(d[i]),
    ensures
        trailing_digit_count(x + d) == d.len(),
    decreases d.len(),
{
    if d.len() == 0 {
        assert(x + d =~= x);
    } else {
        assert((x + d).drop_last() =~= x + d.drop_last());
        assert((x + d).last() == d[d.len() - 1]);
        lemma_trailing_count_append(x, d.drop_last());
    }
}

/// A fresh sibling name carries its id back.
proof fn lemma_sibling_name_id(live: Seq<char>, n: int)
    requires
        0 <= n <= MAX_ID,
    ensures
        trailing_id(sibling_name(live, n)) == Some(n),
{
    let d = decimal_text(n as nat);
    lemma_decimal_text(n as nat);
    reveal_strlit(".");
    let x = live + "."@;
    assert(x.last() == '.');
    lemma_trailing_count_append(x, d);
    let s = sibling_name(live, n);
    assert(s =~= x + d);
    assert(s.subrange(s.len() - d.len(), s.len() as int) =~= d);
}

/// Every id among `files` lies below `next_id(files)`; with all ids below
/// `MAX_ID`, `next_id` is at most `MAX_ID`.
proof fn lemma_next_id_bounds(files: Seq<String>)
    ensures
        next_id(files) >= 0,
        forall|k: int|
            0 <= k < files.len() ==> (#[trigger] trailing_id(files[k]@) matches Some(v) ==> v
                < next_id(files)),
        (forall|k: int|
            0 <= k < files.len() ==> (#[trigger] trailing_id(files[k]@) matches Some(v) ==> v
                < MAX_ID)) ==> next_id(files) <= MAX_ID,
    decreases files.len(),
{
    if files.len() > 0 {
        let init = files.drop_last();
        lemma_next_id_bounds(init);
        assert forall|k: int|
            0 <= k < files.len() implies (#[trigger] trailing_id(files[k]@) matches Some(v) ==> v
            < next_id(files)) by {
            if k < files.len() - 1 {
                assert(files[k] == init[k]);
            }
        }
        if forall|k: int|
            0 <= k < files.len() ==> (#[trigger] trailing_id(files[k]@) matches Some(v) ==> v
                < MAX_ID) {
            assert forall|k: int|
                0 <= k < init.len() implies (#[trigger] trailing_id(init[k]@) matches Some(v) ==> v
                < MAX_ID) by {
                assert(files[k] == init[k]);
            }
            assert(trailing_id(files[files.len() - 1]@) == trailing_id(files.last()@));
        }
    }
}

/// The set of names among `siblings`.
pub open spec fn sibling_names(siblings: Seq<Sibling>) -> Set<Seq<char>> {
    siblings.map_values(|s: Sibling| s.path@).to_set()
}

/// Retention: when the rotated siblings of the live file are distinct names
/// with ids below `MAX_ID`, and there are at most `max_files` of them, the
/// rotation target leaves `min(count + 1, max_files)` siblings: a fresh name
/// while below the limit, an existing one (reclaimed) at the limit. So after N
/// rotations from none, `min(N, max_files)` siblings exist.
pub proof fn lemma_retention(live: Seq<char>, siblings: Seq<Sibling>, max_files: int, target: Seq<char>)
    requires
        max_files >= 1,
        siblings.len() <= max_files,
        is_rotation_target(live, siblings, max_files, target),
        forall|i: int, j: int|
            0 <= i < j < siblings.len() ==> #[trigger] siblings[i].path@ != #[trigger] siblings[j].path@,
        forall|i: int|
            0 <= i < siblings.len() ==> eligible(live, #[trigger] siblings[i]) && (trailing_id(
                siblings[i].path@,
            ) matches Some(v) && v < MAX_ID),
    ensures
        sibling_names(siblings).insert(target).len() as int == if siblings.len() < max_files {
            siblings.len() + 1int
        } else {
            max_files
        },
{
    let names = siblings.map_values(|s: Sibling| s.path@);
    assert(names.no_duplicates()) by {
        assert forall|i: int, j: int| 0 <= i < names.len() && 0 <= j < names.len() && i != j implies names[i] != names[j] by {
            if i < j {
                assert(siblings[i].path@ != siblings[j].path@);
            } else {
                assert(siblings[j].path@ != siblings[i].path@);
            }
        }
    }
    names.unique_seq_to_set();
    let set = sibling_names(siblings);
    assert(set.len() == siblings.len());
    if siblings.len() < max_files {
        let paths = sibling_paths(siblings);
        lemma_next_id_bounds(paths);
        assert forall|k: int|
            0 <= k < paths.len() implies (#[trigger] trailing_id(paths[k]@) matches Some(v) ==> v
            < MAX_ID) by {
            assert(paths[k] == siblings[k].path);
        }
        let n = next_id(paths);
        lemma_sibling_name_id(live, n);
        if set.contains(target) {
            let k = choose|k: int| 0 <= k < names.len() && names[k] == target;
            assert(paths[k] == siblings[k].path);
            assert(trailing_id(paths[k]@) == Some(n));
        }
        assert(!set.contains(target));
    } else {
        if forall|j: int| 0 <= j < siblings.len() ==> !eligible(live, #[trigger] siblings[j]) {
            assert(!eligible(live, siblings[0]));
        }
        let i = choose|i: int|
            0 <= i < siblings.len() && eligible(live, siblings[i]) && target == siblings[i].path@
                && forall|j: int|
                0 <= j < siblings.len() && eligible(live, siblings[j]) ==> !older_than(
                    #[trigger] siblings[j],
                    siblings[i],
                );
        assert(names[i] == target);
        assert(set.contains(target));
        assert(set.insert(target) =~= set);
    }
}

/// Composing `lemma_retention` over a run of rotations: if each rotation takes
/// the sibling count from `c` to `min(c + 1, max_files)`, then starting from no
/// siblings, after `N` rotations there are `min(N, max_files)`.
pub proof fn lemma_retention_after_rotations(counts: Seq<int>, max_files: int)
    requires
        max_files >= 1,
        counts.len() >= 1,
        counts[0] == 0,
        forall|k: int|
            0 <= k < counts.len() - 1 ==> #[trigger] counts[k + 1] == if counts[k] < max_files {
                counts[k] + 1
            } else {
                max_files
            },
    ensures
        forall|n: int|
            0 <= n < counts.len() ==> #[trigger] counts[n] == if n < max_files {
                n
            } else {
                max_files
            },
    decreases counts.len(),
{
    if counts.len() > 1 {
        let init = counts.drop_last();
        assert forall|k: int| 0 <= k < init.len() - 1 implies #[trigger] init[k + 1] == if init[k]
            < max_files {
            init[k] + 1
        } else {
            max_files
        } by {
            assert(init[k + 1] == counts[k + 1]);
            assert(init[k] == counts[k]);
        }
        lemma_retention_after_rotations(init, max_files);
        assert forall|n: int| 0 <= n < counts.len() implies #[trigger] counts[n] == if n
            < max_files {
            n
        } else {
            max_files
        } by {
            if n < counts.len() - 1 {
                assert(init[n] == counts[n]);
            } else {
                let k = n - 1;
                assert(init[k] == counts[k]);
                assert(counts[k + 1] == if counts[k] < max_files {
                    counts[k] + 1
                } else {
                    max_files
                });
            }
        }
    }
}

} // verus!
