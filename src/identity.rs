//! The persisted identity record: the decimal text of one process id.
use vstd::prelude::*;

verus! {

/// Bytes that surround the number and are ignored when reading it back.
pub open spec fn is_blank(b: u8) -> bool {
    b == 32u8 || b == 9u8 || b == 10u8 || b == 13u8
}

pub open spec fn is_digit(b: u8) -> bool {
    48u8 <= b && b <= 57u8
}

pub open spec fn all_digits(s: Seq<u8>) -> bool {
    forall|i: int| 0 <= i < s.len() ==> is_digit(#[trigger] s[i])
}

/// The number that a run of decimal digits denotes.
pub open spec fn digits_value(s: Seq<u8>) -> nat
    decreases s.len(),
{
    if s.len() == 0 {
        0
    } else {
        digits_value(s.drop_last()) * 10 + (s.last() - 48) as nat
    }
}

pub open spec fn trim_start(s: Seq<u8>) -> Seq<u8>
    decreases s.len(),
{
    if s.len() > 0 && is_blank(s[0]) {
        trim_start(s.drop_first())
    } else {
        s
    }
}

pub open spec fn trim_end(s: Seq<u8>) -> Seq<u8>
    decreases s.len(),
{
    if s.len() > 0 && is_blank(s.last()) {
        trim_end(s.drop_last())
    } else {
        s
    }
}

pub open spec fn trimmed(s: Seq<u8>) -> Seq<u8> {
    trim_end(trim_start(s))
}

/// The process id that a record's content names, if it names one: after
/// blanks are stripped, a non-empty run of digits whose value is a positive
/// `u32`. Anything else is a malformed record.
pub open spec fn identity_of(s: Seq<u8>) -> Option<u32> {
    let t = trimmed(s);
    if t.len() > 0 && all_digits(t) && 0 < digits_value(t) <= u32::MAX {
        Some(digits_value(t) as u32)
    } else {
        None
    }
}

/// The decimal text of `n`, without leading zeros.
pub open spec fn decimal(n: nat) -> Seq<u8>
    decreases n,
{
    if n < 10 {
        seq![(n + 48) as u8]
    } else {
        decimal(n / 10).push((n % 10 + 48) as u8)
    }
}

/// What a host finds where the record is kept.
#[derive(Clone, Copy, PartialEq, Eq, Structural, Debug)]
pub enum IdentityRecord {
    /// No record exists.
    Missing,
    /// A record exists, but it names no process id.
    Malformed,
    /// A record naming this process id.
    Pid(u32),
}

impl IdentityRecord {
    pub open spec fn is_present(self) -> bool {
        !(self is Missing)
    }
}

/// What a record holding `content` means; `None` stands for no record.
pub open spec fn record_of(content: Option<Seq<u8>>) -> IdentityRecord {
    match content {
        None => IdentityRecord::Missing,
        Some(s) => match identity_of(s) {
            Some(p) => IdentityRecord::Pid(p),
            None => IdentityRecord::Malformed,
        },
    }
}

proof fn lemma_trim_start_skip(s: Seq<u8>, i: int)
    requires
        0 <= i < s.len(),
        is_blank(s[i]),
    ensures
        trim_start(s.subrange(i, s.len() as int)) == trim_start(s.subrange(i + 1, s.len() as int)),
{
    let t = s.subrange(i, s.len() as int);
    assert(t.drop_first() =~= s.subrange(i + 1, s.len() as int));
}

proof fn lemma_trim_end_skip(s: Seq<u8>, i: int, j: int)
    requires
        0 <= i < j <= s.len(),
        is_blank(s[j - 1]),
    ensures
        trim_end(s.subrange(i, j)) == trim_end(s.subrange(i, j - 1)),
{
    let t = s.subrange(i, j);
    assert(t.drop_last() =~= s.subrange(i, j - 1));
}

proof fn lemma_digits_prefix_le(s: Seq<u8>, k: int)
    requires
        0 <= k <= s.len(),
        all_digits(s),
    ensures
        digits_value(s.subrange(0, k)) <= digits_value(s),
    decreases s.len(),
{
    if k < s.len() {
        let d = s.drop_last();
        assert(all_digits(d)) by {
            assert forall|i: int| 0 <= i < d.len() implies is_digit(#[trigger] d[i]) by {
                assert(d[i] == s[i]);
            }
        }
        lemma_digits_prefix_le(d, k);
        assert(d.subrange(0, k) =~= s.subrange(0, k));
    } else {
        assert(s.subrange(0, k) =~= s);
    }
}

proof fn lemma_digits_step(s: Seq<u8>, i: int, k: int)
    requires
        0 <= i <= k < s.len(),
    ensures
        digits_value(s.subrange(i, k + 1)) == digits_value(s.subrange(i, k)) * 10 + (s[k] - 48) as nat,
{
    let t = s.subrange(i, k + 1);
    assert(t.drop_last() =~= s.subrange(i, k));
}

proof fn lemma_decimal(n: nat)
    ensures
        decimal(n).len() > 0,
        all_digits(decimal(n)),
        digits_value(decimal(n)) == n,
    decreases n,
{
    if n < 10 {
        let s = decimal(n);
        assert(s.drop_last() =~= Seq::<u8>::empty());
        assert(s.last() == (n + 48) as u8);
        assert(((n + 48) as u8) as int == n + 48);
        assert(digits_value(s) == digits_value(s.drop_last()) * 10 + (s.last() - 48) as nat);
        assert(digits_value(Seq::<u8>::empty()) == 0);
    } else {
        lemma_decimal(n / 10);
        let s = decimal(n);
        assert(s.drop_last() =~= decimal(n / 10));
        assert(s.last() == (n % 10 + 48) as u8);
        assert(((n % 10 + 48) as u8) as int == n % 10 + 48);
        assert(n == (n / 10) * 10 + n % 10);
        assert(digits_value(s) == digits_value(decimal(n / 10)) * 10 + (s.last() - 48) as nat);
        assert forall|i: int| 0 <= i < s.len() implies is_digit(#[trigger] s[i]) by {
            if i < s.len() - 1 {
                assert(s[i] == decimal(n / 10)[i]);
            }
        }
    }
}

/// Writing a record for a process and reading it back yields that process:
/// the text that `render_identity` produces is what `parse_identity` reads.
pub proof fn lemma_identity_round_trip(pid: u32)
    requires
        pid > 0,
    ensures
        identity_of(decimal(pid as nat)) == Some(pid),
        record_of(Some(decimal(pid as nat))) == IdentityRecord::Pid(pid),
{
    let s = decimal(pid as nat);
    lemma_decimal(pid as nat);
    assert(is_digit(s[0]) && is_digit(s.last()));
    assert(trim_start(s) == s);
    assert(trim_end(s) == s);
}

/// Reads the process id out of a record's content.
pub fn parse_identity(content: &[u8]) -> (r: Option<u32>)
    ensures
        r == identity_of(content@),
{
    let n = content.len();
    let mut i: usize = 0;
    assert(content@.subrange(0, n as int) =~= content@);
    while i < n && (content[i] == 32u8 || content[i] == 9u8 || content[i] == 10u8 || content[i] == 13u8)
        invariant
            i <= n == content@.len(),
            trim_start(content@) == trim_start(content@.subrange(i as int, n as int)),
        decreases n - i,
    {
        proof {
            lemma_trim_start_skip(content@, i as int);
        }
        i = i + 1;
    }
    assert(trim_start(content@) == content@.subrange(i as int, n as int));
    let mut j: usize = n;
    while j > i && (content[j - 1] == 32u8 || content[j - 1] == 9u8 || content[j - 1] == 10u8 || content[j - 1] == 13u8)
        invariant
            i <= j <= n == content@.len(),
            trimmed(content@) == trim_end(content@.subrange(i as int, j as int)),
        decreases j,
    {
        proof {
            lemma_trim_end_skip(content@, i as int, j as int);
        }
        j = j - 1;
    }
    let ghost t = content@.subrange(i as int, j as int);
    assert(trimmed(content@) == t);
    if i == j {
        return None;
    }
    let mut acc: u64 = 0;
    let mut k: usize = i;
    while k < j
        invariant
            i <= k <= j <= n == content@.len(),
            t == content@.subrange(i as int, j as int),
            trimmed(content@) == t,
            acc == digits_value(content@.subrange(i as int, k as int)),
            acc <= u32::MAX,
            all_digits(content@.subrange(i as int, k as int)),
        decreases j - k,
    {
        let b = content[k];
        if b < 48u8 || b > 57u8 {
            assert(t[k - i] == content@[k as int]);
            assert(!is_digit(t[k - i]));
            return None;
        }
        proof {
            lemma_digits_step(content@, i as int, k as int);
        }
        acc = acc * 10 + (b - 48u8) as u64;
        assert(acc == digits_value(content@.subrange(i as int, k + 1)));
        assert(all_digits(content@.subrange(i as int, k + 1))) by {
            let p = content@.subrange(i as int, k + 1);
            assert forall|x: int| 0 <= x < p.len() implies is_digit(#[trigger] p[x]) by {
                if x < k - i {
                    assert(p[x] == content@.subrange(i as int, k as int)[x]);
                }
            }
        }
        k = k + 1;
        if acc > 0xffff_ffffu64 {
            proof {
                if all_digits(t) {
                    lemma_digits_prefix_le(t, k - i);
                    assert(t.subrange(0, k - i) =~= content@.subrange(i as int, k as int));
                    assert(digits_value(t) > u32::MAX);
                }
                assert(identity_of(content@) is None);
            }
            return None;
        }
    }
    assert(content@.subrange(i as int, j as int) =~= t);
    if acc == 0 {
        return None;
    }
    Some(acc as u32)
}

/// Classifies what a host read where the record is kept (`None`: no record).
pub fn classify_record(content: Option<&[u8]>) -> (r: IdentityRecord)
    ensures
        r == record_of(match content {
            None => None,
            Some(s) => Some(s@),
        }),
{
    match content {
        None => IdentityRecord::Missing,
        Some(s) => match parse_identity(s) {
            Some(p) => IdentityRecord::Pid(p),
            None => IdentityRecord::Malformed,
        },
    }
}

/// The content to write into the record for process `pid`.
pub fn render_identity(pid: u32) -> (r: Vec<u8>)
    ensures
        r@ == decimal(pid as nat),
    decreases pid,
{
    if pid < 10 {
        let d: u8 = (pid + 48) as u8;
        vec![d]
    } else {
        let mut v = render_identity(pid / 10);
        let d: u8 = (pid % 10 + 48) as u8;
        v.push(d);
        v
    }
}

} // verus!
