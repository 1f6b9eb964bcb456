//! The composite key under which a namespace and a key are stored.
//!
//! The namespace's length in characters, written in decimal, comes first, so
//! that no two pairs share a composite key whatever characters they hold.

use vstd::prelude::*;
use vstd::string::StringExecFns;

verus! {

/// The character that stands for the decimal digit `d`.
pub open spec fn digit(d: nat) -> char {
    if d == 0 {
        '0'
    } else if d == 1 {
        '1'
    } else if d == 2 {
        '2'
    } else if d == 3 {
        '3'
    } else if d == 4 {
        '4'
    } else if d == 5 {
        '5'
    } else if d == 6 {
        '6'
    } else if d == 7 {
        '7'
    } else if d == 8 {
        '8'
    } else {
        '9'
    }
}

/// `n` written in decimal, without leading zeros.
pub open spec fn decimal(n: nat) -> Seq<char>
    decreases n,
{
    if n < 10 {
        seq![digit(n)]
    } else {
        decimal(n / 10).push(digit(n % 10))
    }
}

/// The composite key of a namespace and a key: the namespace's length in
/// decimal, a colon, the namespace, a colon, the key.
pub open spec fn composite_key(namespace: Seq<char>, key: Seq<char>) -> Seq<char> {
    decimal(namespace.len()) + seq![':'] + namespace + seq![':'] + key
}

/// Every character of a decimal numeral is a digit, so none is a colon, and
/// the numeral is not empty.
pub proof fn lemma_decimal_has_no_colon(n: nat)
    ensures
        decimal(n).len() >= 1,
        forall|i: int| 0 <= i < decimal(n).len() ==> decimal(n)[i] != ':',
    decreases n,
{
    if n >= 10 {
        lemma_decimal_has_no_colon(n / 10);
    }
}

/// Two numbers with the same decimal numeral are equal.
pub proof fn lemma_decimal_injective(a: nat, b: nat)
    requires
        decimal(a) == decimal(b),
    ensures
        a == b,
    decreases a,
{
    lemma_decimal_has_no_colon(a / 10);
    lemma_decimal_has_no_colon(b / 10);
    if a < 10 && b < 10 {
        assert(digit(a) == decimal(a)[0]);
        assert(digit(b) == decimal(b)[0]);
    } else if a >= 10 && b >= 10 {
        let da = decimal(a / 10);
        let db = decimal(b / 10);
        assert(decimal(a) == da.push(digit(a % 10)));
        assert(decimal(b) == db.push(digit(b % 10)));
        assert(digit(a % 10) == decimal(a).last());
        assert(digit(b % 10) == decimal(b).last());
        assert(da =~= decimal(a).drop_last());
        assert(db =~= decimal(b).drop_last());
        lemma_decimal_injective(a / 10, b / 10);
    } else if a < 10 {
        assert(decimal(b) == decimal(b / 10).push(digit(b % 10)));
        assert(decimal(a).len() == 1);
    } else {
        assert(decimal(a) == decimal(a / 10).push(digit(a % 10)));
        assert(decimal(b).len() == 1);
    }
}

/// Distinct pairs of namespace and key never share a composite key.
pub proof fn lemma_composite_key_injective(
    namespace1: Seq<char>,
    key1: Seq<char>,
    namespace2: Seq<char>,
    key2: Seq<char>,
)
    requires
        composite_key(namespace1, key1) == composite_key(namespace2, key2),
    ensures
        namespace1 == namespace2,
        key1 == key2,
{
    let c1 = composite_key(namespace1, key1);
    let c2 = composite_key(namespace2, key2);
    let d1 = decimal(namespace1.len());
    let d2 = decimal(namespace2.len());
    lemma_decimal_has_no_colon(namespace1.len());
    lemma_decimal_has_no_colon(namespace2.len());
    assert(c1[d1.len() as int] == ':');
    assert(c2[d2.len() as int] == ':');
    if d1.len() < d2.len() {
        assert(c2[d1.len() as int] == d2[d1.len() as int]);
    }
    if d2.len() < d1.len() {
        assert(c1[d2.len() as int] == d1[d2.len() as int]);
    }
    assert(d1 =~= d2) by {
        assert forall|i: int| 0 <= i < d1.len() implies d1[i] == d2[i] by {
            assert(c1[i] == d1[i]);
            assert(c2[i] == d2[i]);
        }
    }
    lemma_decimal_injective(namespace1.len(), namespace2.len());
    let n = namespace1.len() as int;
    let start = d1.len() as int + 1;
    assert(namespace1 =~= namespace2) by {
        assert forall|i: int| 0 <= i < n implies namespace1[i] == namespace2[i] by {
            assert(c1[start + i] == namespace1[i]);
            assert(c2[start + i] == namespace2[i]);
        }
    }
    assert(key1.len() == key2.len()) by {
        assert(c1.len() == start + n + 1 + key1.len());
        assert(c2.len() == start + n + 1 + key2.len());
    }
    assert(key1 =~= key2) by {
        assert forall|i: int| 0 <= i < key1.len() implies key1[i] == key2[i] by {
            assert(c1[start + n + 1 + i] == key1[i]);
            assert(c2[start + n + 1 + i] == key2[i]);
        }
    }
}

/// The one-character string of the decimal digit `d`.
fn digit_str(d: usize) -> (s: &'static str)
    requires
        d < 10,
    ensures
        s@ == seq![digit(d as nat)],
{
    proof {
        reveal_strlit("0");
        reveal_strlit("1");
        reveal_strlit("2");
        reveal_strlit("3");
        reveal_strlit("4");
        reveal_strlit("5");
        reveal_strlit("6");
        reveal_strlit("7");
        reveal_strlit("8");
        reveal_strlit("9");
    }
    let s = if d == 0 {
        "0"
    } else if d == 1 {
        "1"
    } else if d == 2 {
        "2"
    } else if d == 3 {
        "3"
    } else if d == 4 {
        "4"
    } else if d == 5 {
        "5"
    } else if d == 6 {
        "6"
    } else if d == 7 {
        "7"
    } else if d == 8 {
        "8"
    } else {
        "9"
    };
    assert(s@ =~= seq![digit(d as nat)]);
    s
}

/// Appends `n` in decimal to `out`.
fn push_decimal(out: &mut String, n: usize)
    ensures
        final(out)@ == old(out)@ + decimal(n as nat),
    decreases n,
{
    if n >= 10 {
        push_decimal(out, n / 10);
    }
    out.append(digit_str(n % 10));
    assert(out@ =~= old(out)@ + decimal(n as nat));
}

/// Builds the composite key under which the value of `key` in the namespace
/// `contract_id` is stored.
pub fn cache_key(contract_id: &str, key: &str) -> (composite: String)
    ensures
        composite@ == composite_key(contract_id@, key@),
{
    let mut composite = String::new();
    push_decimal(&mut composite, contract_id.unicode_len());
    proof {
        reveal_strlit(":");
    }
    composite.append(":");
    composite.append(contract_id);
    composite.append(":");
    composite.append(key);
    assert(composite@ =~= composite_key(contract_id@, key@));
    composite
}

} // verus!
