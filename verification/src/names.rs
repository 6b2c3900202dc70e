use vstd::prelude::*;
use vstd::arithmetic::div_mod::lemma_fundamental_div_mod;

verus! {

/// The decimal rendering of `n`, most significant digit first, as ASCII bytes.
pub open spec fn decimal_bytes(n: nat) -> Seq<u8>
    decreases n,
{
    if n < 10 {
        seq![(48 + n) as u8]
    } else {
        decimal_bytes(n / 10).push((48 + n % 10) as u8)
    }
}

/// Appends the decimal rendering of `n` to `out`.
fn push_decimal(n: u16, out: &mut Vec<u8>)
    ensures
        final(out)@ == old(out)@ + decimal_bytes(n as nat),
    decreases n,
{
    if n < 10 {
        out.push(48 + n as u8);
        assert(out@ =~= old(out)@ + decimal_bytes(n as nat));
    } else {
        push_decimal(n / 10, out);
        out.push(48 + (n % 10) as u8);
        assert(out@ =~= old(out)@ + decimal_bytes(n as nat));
    }
}

/// The decimal rendering of `n` as a vector of ASCII digit bytes.
pub fn decimal_string(n: u16) -> (r: Vec<u8>)
    ensures
        r@ == decimal_bytes(n as nat),
{
    let mut out: Vec<u8> = Vec::new();
    push_decimal(n, &mut out);
    assert(out@ =~= decimal_bytes(n as nat));
    out
}

/// The suffix shared by every output file name: the bytes of ".txt".
pub open spec fn txt_suffix() -> Seq<u8> {
    seq![46u8, 116u8, 120u8, 116u8]
}

/// The output file name of the task with identifier `id`: the decimal
/// rendering of `id` followed by ".txt".
pub open spec fn file_name_bytes(id: u16) -> Seq<u8> {
    decimal_bytes(id as nat) + txt_suffix()
}

/// Builds the output file name of the task with identifier `id`, as ASCII
/// bytes.
pub fn file_name(id: u16) -> (r: Vec<u8>)
    ensures
        r@ == file_name_bytes(id),
{
    let mut out: Vec<u8> = decimal_string(id);
    out.push(46);
    out.push(116);
    out.push(120);
    out.push(116);
    assert(out@ =~= file_name_bytes(id));
    out
}

/// The number a big-endian sequence of decimal digit bytes denotes.
pub open spec fn decimal_value(s: Seq<u8>) -> int
    decreases s.len(),
{
    if s.len() == 0 {
        0
    } else {
        decimal_value(s.drop_last()) * 10 + (s.last() - 48)
    }
}

/// Reading a rendered number back gives the number: `decimal_value` inverts
/// `decimal_bytes`.
pub proof fn lemma_decimal_value_of_bytes(n: nat)
    ensures
        decimal_value(decimal_bytes(n)) == n,
    decreases n,
{
    if n < 10 {
        assert(decimal_bytes(n).drop_last() =~= Seq::<u8>::empty());
        assert(decimal_value(Seq::<u8>::empty()) == 0);
    } else {
        lemma_decimal_value_of_bytes(n / 10);
        assert(decimal_bytes(n).drop_last() =~= decimal_bytes(n / 10));
        lemma_fundamental_div_mod(n as int, 10);
    }
}

/// Distinct numbers render to distinct digit strings.
pub proof fn lemma_decimal_bytes_injective(a: nat, b: nat)
    requires
        decimal_bytes(a) == decimal_bytes(b),
    ensures
        a == b,
{
    lemma_decimal_value_of_bytes(a);
    lemma_decimal_value_of_bytes(b);
}

/// Distinct task identifiers name distinct output files, so no two tasks of
/// a run ever write to the same path.
pub proof fn lemma_file_names_distinct(a: u16, b: u16)
    requires
        a != b,
    ensures
        file_name_bytes(a) != file_name_bytes(b),
{
    if file_name_bytes(a) == file_name_bytes(b) {
        let da = decimal_bytes(a as nat);
        let db = decimal_bytes(b as nat);
        assert(file_name_bytes(a).len() == da.len() + 4);
        assert(file_name_bytes(b).len() == db.len() + 4);
        assert(da.len() == db.len());
        assert(da =~= file_name_bytes(a).subrange(0, da.len() as int));
        assert(db =~= file_name_bytes(b).subrange(0, db.len() as int));
        lemma_decimal_bytes_injective(a as nat, b as nat);
    }
}

} // verus!
