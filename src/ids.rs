//! Session identifiers: `sess-<stamp>`, where stamps strictly increase over
//! the life of a registry, so that no identifier is ever handed out twice.

use vstd::prelude::*;

verus! {

/// The ten decimal digits, in order.
pub open spec fn digit_chars() -> Seq<char> {
    seq!['0', '1', '2', '3', '4', '5', '6', '7', '8', '9']
}

/// The decimal rendering of `n`, without leading zeros.
pub open spec fn decimal(n: nat) -> Seq<char>
    decreases n,
{
    if n < 10 {
        seq![digit_chars()[n as int]]
    } else {
        decimal(n / 10).push(digit_chars()[(n % 10) as int])
    }
}

/// The literal prefix of every session identifier.
pub open spec fn session_prefix() -> Seq<char> {
    seq!['s', 'e', 's', 's', '-']
}

/// The identifier of the session created with `stamp`.
pub open spec fn session_id_spec(stamp: nat) -> Seq<char> {
    session_prefix() + decimal(stamp)
}

/// The stamp that the next session gets: the current time in milliseconds when
/// it is later than every stamp given so far, else one past the last stamp;
/// `None` when the last stamp is already the largest `u64`.
pub open spec fn next_stamp_spec(last: Option<u64>, now: u64) -> Option<u64> {
    match last {
        None => Some(now),
        Some(l) => if now > l {
            Some(now)
        } else if l < u64::MAX {
            Some((l + 1) as u64)
        } else {
            None
        },
    }
}

/// The identifiers that a registry whose last stamp is `last` has handed out
/// or may have handed out: those of every stamp up to `last`.
pub open spec fn issued_ids(last: Option<u64>) -> Set<Seq<char>> {
    Set::new(
        |id: Seq<char>|
            exists|s: u64| #[trigger]
                session_id_spec(s as nat) == id && (last matches Some(l) && s <= l),
    )
}

/// Each digit stands at one place only among the ten digits, and none is `-`.
pub proof fn lemma_digits_distinct()
    ensures
        forall|i: int, j: int|
            0 <= i < 10 && 0 <= j < 10 && #[trigger] digit_chars()[i] == #[trigger] digit_chars()[j]
                ==> i == j,
        !digit_chars().contains('-'),
{
    let d = digit_chars();
    assert(d[0] == '0' && d[1] == '1' && d[2] == '2' && d[3] == '3' && d[4] == '4');
    assert(d[5] == '5' && d[6] == '6' && d[7] == '7' && d[8] == '8' && d[9] == '9');
}

pub proof fn lemma_decimal_digits(n: nat)
    ensures
        decimal(n).len() >= 1,
        n >= 10 ==> decimal(n).len() >= 2,
        forall|i: int| 0 <= i < decimal(n).len() ==> digit_chars().contains(#[trigger] decimal(n)[i]),
    decreases n,
{
    if n >= 10 {
        lemma_decimal_digits(n / 10);
        assert forall|i: int| 0 <= i < decimal(n).len() implies digit_chars().contains(
            #[trigger] decimal(n)[i],
        ) by {
            if i < decimal(n / 10).len() {
                assert(decimal(n)[i] == decimal(n / 10)[i]);
            } else {
                assert(digit_chars()[(n % 10) as int] == decimal(n)[i]);
            }
        }
    } else {
        assert(digit_chars()[n as int] == decimal(n)[0]);
    }
}

/// Different numbers have different decimal renderings.
pub proof fn lemma_decimal_injective(a: nat, b: nat)
    requires
        decimal(a) == decimal(b),
    ensures
        a == b,
    decreases a,
{
    lemma_decimal_digits(a);
    lemma_decimal_digits(b);
    lemma_digits_distinct();
    let da = decimal(a);
    let db = decimal(b);
    assert(da[da.len() - 1] == db[db.len() - 1]);
    if a < 10 && b < 10 {
        assert(digit_chars()[a as int] == digit_chars()[b as int]);
    } else if a >= 10 && b >= 10 {
        assert(digit_chars()[(a % 10) as int] == digit_chars()[(b % 10) as int]);
        assert(decimal(a / 10) =~= da.drop_last());
        assert(decimal(b / 10) =~= db.drop_last());
        lemma_decimal_injective(a / 10, b / 10);
    }
}

/// Different stamps give different session identifiers.
pub proof fn lemma_session_id_injective(a: nat, b: nat)
    requires
        session_id_spec(a) == session_id_spec(b),
    ensures
        a == b,
{
    let sa = session_id_spec(a);
    let sb = session_id_spec(b);
    assert(decimal(a) =~= sa.subrange(5, sa.len() as int));
    assert(decimal(b) =~= sb.subrange(5, sb.len() as int));
    lemma_decimal_injective(a, b);
}

/// A stamp past `last` yields an identifier that was not issued under `last`.
pub proof fn lemma_fresh_stamp(last: Option<u64>, s: u64)
    requires
        last matches Some(l) ==> s > l,
    ensures
        !issued_ids(last).contains(session_id_spec(s as nat)),
{
    if issued_ids(last).contains(session_id_spec(s as nat)) {
        let t = choose|t: u64| #[trigger]
            session_id_spec(t as nat) == session_id_spec(s as nat) && (last matches Some(l) && t
                <= l);
        lemma_session_id_injective(t as nat, s as nat);
    }
}

/// The one-character string of the digit `d`.
fn digit_str(d: u64) -> (r: &'static str)
    requires
        d < 10,
    ensures
        r@ == seq![digit_chars()[d as int]],
{
    let all = "0123456789";
    proof {
        reveal_strlit("0123456789");
    }
    assert(all@ =~= digit_chars());
    let r = all.substring_char(d as usize, (d + 1) as usize);
    assert(r@ =~= seq![digit_chars()[d as int]]);
    r
}

/// The decimal rendering of `n`.
pub fn decimal_string(n: u64) -> (r: String)
    ensures
        r@ == decimal(n as nat),
    decreases n,
{
    if n < 10 {
        let mut s = String::new();
        s.append(digit_str(n));
        assert(s@ =~= decimal(n as nat));
        s
    } else {
        let mut s = decimal_string(n / 10);
        s.append(digit_str(n % 10));
        assert(s@ =~= decimal(n as nat));
        s
    }
}

/// The identifier of the session created with `stamp`: `sess-` followed by the
/// stamp in decimal.
pub fn new_session_id(stamp: u64) -> (r: String)
    ensures
        r@ == session_id_spec(stamp as nat),
{
    let mut s = String::new();
    proof {
        reveal_strlit("sess-");
    }
    s.append("sess-");
    s.append(decimal_string(stamp).as_str());
    assert(s@ =~= session_id_spec(stamp as nat));
    s
}

/// The stamp for the next session, given the last stamp handed out and the
/// current time in milliseconds since the Unix epoch.
pub fn next_stamp(last: Option<u64>, now: u64) -> (r: Option<u64>)
    ensures
        r == next_stamp_spec(last, now),
        r matches Some(s) ==> (last matches Some(l) ==> s > l),
{
    match last {
        None => Some(now),
        Some(l) => if now > l {
            Some(now)
        } else if l < u64::MAX {
            Some(l + 1)
        } else {
            None
        },
    }
}

} // verus!
