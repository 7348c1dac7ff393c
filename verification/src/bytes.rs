//! Byte strings read as big-endian numbers: value, padding and comparison.
use vstd::prelude::*;

verus! {

/// The number that a byte string encodes, most significant byte first.
pub open spec fn be_value(b: Seq<u8>) -> nat
    decreases b.len(),
{
    if b.len() == 0 {
        0
    } else {
        be_value(b.drop_last()) * 256 + b.last() as nat
    }
}

/// A string of `n` zero bytes.
pub open spec fn zeros(n: nat) -> Seq<u8> {
    Seq::new(n, |i: int| 0u8)
}

/// `data` with zero bytes put in front until it is `width` bytes long; a string
/// that is already that long or longer is left as it is.
pub open spec fn spec_left_pad(data: Seq<u8>, width: nat) -> Seq<u8> {
    if data.len() >= width {
        data
    } else {
        zeros((width - data.len()) as nat) + data
    }
}

/// The first `n` bytes of `data`, or all of `data` where it is shorter.
pub open spec fn spec_prefix(data: Seq<u8>, n: nat) -> Seq<u8> {
    if n <= data.len() {
        data.take(n as int)
    } else {
        data
    }
}

/// Zero bytes encode zero.
pub proof fn lemma_zeros_value(n: nat)
    ensures
        be_value(zeros(n)) == 0,
    decreases n,
{
    if n > 0 {
        assert(zeros(n).drop_last() =~= zeros((n - 1) as nat));
        lemma_zeros_value((n - 1) as nat);
    }
}

/// Zero bytes in front of a string do not change the number it encodes.
pub proof fn lemma_leading_zeros_value(n: nat, data: Seq<u8>)
    ensures
        be_value(zeros(n) + data) == be_value(data),
    decreases data.len(),
{
    if data.len() == 0 {
        assert(zeros(n) + data =~= zeros(n));
        lemma_zeros_value(n);
    } else {
        assert((zeros(n) + data).drop_last() =~= zeros(n) + data.drop_last());
        lemma_leading_zeros_value(n, data.drop_last());
    }
}

/// Padding on the left keeps the number and reaches the width.
pub proof fn lemma_left_pad(data: Seq<u8>, width: nat)
    ensures
        be_value(spec_left_pad(data, width)) == be_value(data),
        data.len() <= width ==> spec_left_pad(data, width).len() == width,
        data.len() == width ==> spec_left_pad(data, width) == data,
{
    if data.len() < width {
        lemma_leading_zeros_value((width - data.len()) as nat, data);
    }
}

/// A string is all zero bytes exactly if it encodes zero.
pub proof fn lemma_value_zero(b: Seq<u8>)
    ensures
        be_value(b) == 0 <==> (forall|i: int| 0 <= i < b.len() ==> b[i] == 0),
    decreases b.len(),
{
    if b.len() > 0 {
        lemma_value_zero(b.drop_last());
        if be_value(b) == 0 {
            assert forall|i: int| 0 <= i < b.len() implies b[i] == 0 by {
                if i < b.len() - 1 {
                    assert(b.drop_last()[i] == b[i]);
                }
            }
        } else if forall|i: int| 0 <= i < b.len() ==> b[i] == 0 {
            assert forall|i: int| 0 <= i < b.drop_last().len() implies b.drop_last()[i] == 0 by {
                assert(b.drop_last()[i] == b[i]);
            }
        }
    }
}

/// Appends the bytes of `other` to `out`.
pub fn append(out: &mut Vec<u8>, other: &[u8])
    ensures
        final(out)@ == old(out)@ + other@,
{
    let n = other.len();
    let mut i: usize = 0;
    while i < n
        invariant
            n == other@.len(),
            i <= n,
            out@ == old(out)@ + other@.take(i as int),
        decreases n - i,
    {
        out.push(other[i]);
        proof {
            assert(other@.take(i + 1) =~= other@.take(i as int).push(other@[i as int]));
            assert(old(out)@ + other@.take(i + 1) =~= (old(out)@ + other@.take(i as int)).push(
                other@[i as int],
            ));
        }
        i += 1;
    }
    proof {
        assert(other@.take(n as int) =~= other@);
    }
}

/// Copies the bytes `data[from..to]` into a vector of their own.
pub fn copy_range(data: &[u8], from: usize, to: usize) -> (r: Vec<u8>)
    requires
        from <= to <= data@.len(),
    ensures
        r@ == data@.subrange(from as int, to as int),
{
    let mut out: Vec<u8> = Vec::new();
    let mut i: usize = from;
    while i < to
        invariant
            from <= i <= to <= data@.len(),
            out@ == data@.subrange(from as int, i as int),
        decreases to - i,
    {
        out.push(data[i]);
        proof {
            assert(data@.subrange(from as int, i + 1) =~= data@.subrange(from as int, i as int).push(
                data@[i as int],
            ));
        }
        i += 1;
    }
    out
}

/// Copies the first `n` bytes of `data`, or all of `data` where it is shorter.
pub fn prefix(data: &[u8], n: usize) -> (r: Vec<u8>)
    ensures
        r@ == spec_prefix(data@, n as nat),
{
    let end = if n <= data.len() {
        n
    } else {
        data.len()
    };
    let r = copy_range(data, 0, end);
    proof {
        assert(data@.subrange(0, end as int) =~= spec_prefix(data@, n as nat));
    }
    r
}

/// Puts zero bytes in front of `data` until it is `width` bytes long.
pub fn left_pad(data: &[u8], width: usize) -> (r: Vec<u8>)
    ensures
        r@ == spec_left_pad(data@, width as nat),
        be_value(r@) == be_value(data@),
{
    let n = data.len();
    let mut out: Vec<u8> = Vec::new();
    if n < width {
        let missing = width - n;
        let mut i: usize = 0;
        while i < missing
            invariant
                i <= missing,
                out@ == zeros(i as nat),
            decreases missing - i,
        {
            out.push(0u8);
            proof {
                assert(zeros((i + 1) as nat) =~= zeros(i as nat).push(0u8));
            }
            i += 1;
        }
    } else {
        proof {
            assert(Seq::<u8>::empty() + data@ =~= data@);
        }
    }
    append(&mut out, data);
    proof {
        lemma_left_pad(data@, width as nat);
    }
    out
}

/// Whether every byte of `data` is zero, that is, whether it encodes zero.
pub fn is_zero(data: &[u8]) -> (r: bool)
    ensures
        r == (be_value(data@) == 0),
{
    let n = data.len();
    let mut all_zero = true;
    let mut i: usize = 0;
    while i < n
        invariant
            n == data@.len(),
            i <= n,
            all_zero == (forall|j: int| 0 <= j < i ==> data@[j] == 0),
        decreases n - i,
    {
        if data[i] != 0 {
            all_zero = false;
        }
        i += 1;
    }
    proof {
        lemma_value_zero(data@);
    }
    all_zero
}

/// Whether the two byte strings are equal. Every byte is looked at, whatever
/// the bytes before it were.
pub fn same_bytes(a: &[u8], b: &[u8]) -> (r: bool)
    ensures
        r == (a@ == b@),
{
    let n = a.len();
    if b.len() != n {
        return false;
    }
    let mut same = true;
    let mut i: usize = 0;
    while i < n
        invariant
            n == a@.len(),
            n == b@.len(),
            i <= n,
            same == (forall|j: int| 0 <= j < i ==> a@[j] == b@[j]),
        decreases n - i,
    {
        if a[i] != b[i] {
            same = false;
        }
        i += 1;
    }
    proof {
        if same {
            assert(a@ =~= b@);
        }
    }
    same
}

/// Whether `a` encodes a smaller number than `b`. The strings may differ in
/// length. Every byte is looked at, whatever the bytes before it were.
pub fn less_than(a: &[u8], b: &[u8]) -> (r: bool)
    ensures
        r == (be_value(a@) < be_value(b@)),
{
    if a.len() == b.len() {
        less_than_aligned(a, b)
    } else if a.len() < b.len() {
        let padded = left_pad(a, b.len());
        less_than_aligned(padded.as_slice(), b)
    } else {
        let padded = left_pad(b, a.len());
        less_than_aligned(a, padded.as_slice())
    }
}

fn less_than_aligned(a: &[u8], b: &[u8]) -> (r: bool)
    requires
        a@.len() == b@.len(),
    ensures
        r == (be_value(a@) < be_value(b@)),
{
    let n = a.len();
    let mut less = false;
    let mut equal = true;
    let mut i: usize = 0;
    while i < n
        invariant
            n == a@.len(),
            n == b@.len(),
            i <= n,
            less == (be_value(a@.take(i as int)) < be_value(b@.take(i as int))),
            equal == (be_value(a@.take(i as int)) == be_value(b@.take(i as int))),
        decreases n - i,
    {
        proof {
            assert(a@.take(i + 1).drop_last() =~= a@.take(i as int));
            assert(b@.take(i + 1).drop_last() =~= b@.take(i as int));
        }
        if equal {
            if a[i] < b[i] {
                less = true;
                equal = false;
            } else if a[i] > b[i] {
                equal = false;
            }
        }
        i += 1;
    }
    proof {
        assert(a@.take(n as int) =~= a@);
        assert(b@.take(n as int) =~= b@);
    }
    less
}

/// Whether `value` encodes a number from 1 up to, but not including, the number
/// that `bound` encodes. Strings of different lengths are never in range.
pub fn in_range(value: &[u8], bound: &[u8]) -> (r: bool)
    ensures
        r == spec_in_range(value@, bound@),
{
    if value.len() != bound.len() {
        return false;
    }
    let zero = is_zero(value);
    let below = less_than(value, bound);
    !zero && below
}

/// A scalar of the width of `bound` that is neither zero nor as large as `bound`.
pub open spec fn spec_in_range(value: Seq<u8>, bound: Seq<u8>) -> bool {
    &&& value.len() == bound.len()
    &&& 0 < be_value(value)
    &&& be_value(value) < be_value(bound)
}

} // verus!
